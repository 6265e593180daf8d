//! A lost-records notice. When the producer wraps the ring buffer before
//! the consumer catches up, the kernel signals the loss; the decoder
//! surfaces it as a first-class value distinguishable from normal
//! records, never silently skipping, and resumes at the next record
//! boundary.

use vstd::prelude::*;
use crate::error::DecodeError;
use crate::record::cursor::{le64_at, Cursor};
use crate::record::sample_id::{sample_id_len, spec_parse_sample_id, SampleId};

verus! {

/// A decoded lost-records notice: which counter lost events, and how many.
#[derive(Clone, Copy, Debug, PartialEq, Eq, Structural)]
pub struct Body {
    pub id: u64,
    pub lost: u64,
    /// Present exactly when "sample id on all records" was requested at
    /// build time.
    pub sample_id: Option<SampleId>,
}

/// The byte length of a lost-records body under the given build options.
pub open spec fn body_len(sample_id_all: bool, st: u64) -> int {
    16 + if sample_id_all {
        sample_id_len(st)
    } else {
        0int
    }
}

/// The lost-records body read from `s` at `pos` pins `b` completely.
pub open spec fn body_matches(b: Body, s: Seq<u8>, pos: int, sample_id_all: bool, st: u64) -> bool {
    &&& b.id == le64_at(s, pos)
    &&& b.lost == le64_at(s, pos + 8)
    &&& b.sample_id == (if sample_id_all {
        Some(spec_parse_sample_id(s, pos + 16, st))
    } else {
        None::<SampleId>
    })
}

impl Body {
    /// Walks one lost-records body at the cursor.
    pub fn from_bytes(data: &Vec<u8>, cur: &mut Cursor, sample_id_all: bool, sample_type: u64) -> (r:
        Result<Body, DecodeError>)
        requires
            old(cur).wf(data@),
        ensures
            final(cur).wf(data@),
            final(cur).end == old(cur).end,
            match r {
                Ok(b) => old(cur).pos + body_len(sample_id_all, sample_type) <= old(cur).end
                    && body_matches(b, data@, old(cur).pos as int, sample_id_all, sample_type)
                    && final(cur).pos == old(cur).pos + body_len(sample_id_all, sample_type),
                Err(e) => old(cur).pos + body_len(sample_id_all, sample_type) > old(cur).end && e
                    == DecodeError::SizeMismatch,
            },
    {
        let id = cur.read_u64(data)?;
        let lost = cur.read_u64(data)?;
        let sample_id = if sample_id_all {
            Some(SampleId::from_bytes(data, cur, sample_type)?)
        } else {
            None
        };
        Ok(Body { id, lost, sample_id })
    }
}

} // verus!
