//! A bpf-event record: the kernel's notice that a bpf program was loaded
//! or unloaded, with the optional trailing sample id block.

use vstd::prelude::*;
use crate::error::DecodeError;
use crate::record::bpf_event_raw;
use crate::record::bpf_event_raw::raw_body_matches;
use crate::record::cursor::Cursor;
use crate::record::sample_id::{sample_id_len, spec_parse_sample_id, SampleId};

verus! {

/// A decoded bpf-event record body.
#[derive(Clone, Debug, PartialEq, Eq)]
pub struct Body {
    pub type_: u16,
    pub flags: u16,
    pub id: u32,
    pub tag: Vec<u8>,
    /// Present exactly when "sample id on all records" was requested at
    /// build time.
    pub sample_id: Option<SampleId>,
}

/// The byte length of a bpf-event body under the given build options.
pub open spec fn body_len(sample_id_all: bool, st: u64) -> int {
    16 + if sample_id_all {
        sample_id_len(st)
    } else {
        0int
    }
}

/// The bpf-event body read from `s` at `pos` pins `b` completely: the
/// fixed fields, and the sample id block exactly when requested.
pub open spec fn body_matches(b: Body, s: Seq<u8>, pos: int, sample_id_all: bool, st: u64) -> bool {
    &&& raw_body_matches(
        bpf_event_raw::Body { type_: b.type_, flags: b.flags, id: b.id, tag: b.tag },
        s,
        pos,
    )
    &&& b.sample_id == (if sample_id_all {
        Some(spec_parse_sample_id(s, pos + 16, st))
    } else {
        None::<SampleId>
    })
}

impl Body {
    /// Walks one bpf-event body at the cursor: the fixed fields first,
    /// then, when requested at build time, the sample id block located
    /// immediately after them.
    pub fn from_bytes(data: &Vec<u8>, cur: &mut Cursor, sample_id_all: bool, sample_type: u64) -> (r:
        Result<Body, DecodeError>)
        requires
            old(cur).wf(data@),
        ensures
            final(cur).wf(data@),
            final(cur).end == old(cur).end,
            match r {
                Ok(b) => old(cur).pos + body_len(sample_id_all, sample_type) <= old(cur).end
                    && body_matches(b, data@, old(cur).pos as int, sample_id_all, sample_type)
                    && final(cur).pos == old(cur).pos + body_len(sample_id_all, sample_type),
                Err(e) => old(cur).pos + body_len(sample_id_all, sample_type) > old(cur).end && e
                    == DecodeError::SizeMismatch,
            },
    {
        let raw = bpf_event_raw::Body::from_bytes(data, cur)?;
        let sample_id = if sample_id_all {
            Some(bpf_event_raw::Body::sample_id(data, cur, sample_type)?)
        } else {
            None
        };
        Ok(Body { type_: raw.type_, flags: raw.flags, id: raw.id, tag: raw.tag, sample_id })
    }
}

} // verus!
