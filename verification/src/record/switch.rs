//! A context-switch record. Its direction (in or out) travels in the
//! record header's misc flags; the body itself holds only the optional
//! trailing sample id block.

use vstd::prelude::*;
use crate::error::DecodeError;
use crate::record::cursor::Cursor;
use crate::record::sample_id::{sample_id_len, spec_parse_sample_id, SampleId};

verus! {

/// A decoded context-switch record body.
#[derive(Clone, Copy, Debug, PartialEq, Eq, Structural)]
pub struct Body {
    /// Present exactly when "sample id on all records" was requested at
    /// build time.
    pub sample_id: Option<SampleId>,
}

/// The byte length of a context-switch body under the given build options.
pub open spec fn body_len(sample_id_all: bool, st: u64) -> int {
    if sample_id_all {
        sample_id_len(st)
    } else {
        0int
    }
}

/// The context-switch body read from `s` at `pos` pins `b` completely.
pub open spec fn body_matches(b: Body, s: Seq<u8>, pos: int, sample_id_all: bool, st: u64) -> bool {
    b.sample_id == (if sample_id_all {
        Some(spec_parse_sample_id(s, pos, st))
    } else {
        None::<SampleId>
    })
}

impl Body {
    /// Walks one context-switch body at the cursor.
    pub fn from_bytes(data: &Vec<u8>, cur: &mut Cursor, sample_id_all: bool, sample_type: u64) -> (r:
        Result<Body, DecodeError>)
        requires
            old(cur).wf(data@),
        ensures
            final(cur).wf(data@),
            final(cur).end == old(cur).end,
            match r {
                Ok(b) => old(cur).pos + body_len(sample_id_all, sample_type) <= old(cur).end
                    && body_matches(b, data@, old(cur).pos as int, sample_id_all, sample_type)
                    && final(cur).pos == old(cur).pos + body_len(sample_id_all, sample_type),
                Err(e) => old(cur).pos + body_len(sample_id_all, sample_type) > old(cur).end && e
                    == DecodeError::SizeMismatch,
            },
    {
        let sample_id = if sample_id_all {
            Some(SampleId::from_bytes(data, cur, sample_type)?)
        } else {
            None
        };
        Ok(Body { sample_id })
    }
}

} // verus!
