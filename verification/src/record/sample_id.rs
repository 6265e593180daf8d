//! The optional trailing sample id block. Its field presence mirrors the
//! selector mask captured at descriptor-build time, and the fields are
//! packed in the kernel's order with no per-field tag, so the walk here
//! must match that order exactly.

use vstd::prelude::*;
use crate::bits::{bit64, get_bit64};
use crate::error::DecodeError;
use crate::raw_attr::{
    SAMPLE_BIT_CPU, SAMPLE_BIT_ID, SAMPLE_BIT_IDENTIFIER, SAMPLE_BIT_STREAM_ID, SAMPLE_BIT_TID,
    SAMPLE_BIT_TIME,
};
use crate::record::cursor::{le32_at, le64_at, Cursor};

verus! {

/// The trailing block attached to non-sample records when "sample id on
/// all records" was requested at build time. Each field is present
/// exactly when the selector mask carries its bit.
#[derive(Clone, Copy, Debug, PartialEq, Eq, Structural)]
pub struct SampleId {
    pub pid: Option<u32>,
    pub tid: Option<u32>,
    pub time: Option<u64>,
    pub id: Option<u64>,
    pub stream_id: Option<u64>,
    pub cpu: Option<u32>,
    pub identifier: Option<u64>,
}

/// The byte length of the sample id block under selector mask `st`.
pub open spec fn sample_id_len(st: u64) -> int {
    (if bit64(st, SAMPLE_BIT_TID) {
        8int
    } else {
        0int
    }) + (if bit64(st, SAMPLE_BIT_TIME) {
        8int
    } else {
        0int
    }) + (if bit64(st, SAMPLE_BIT_ID) {
        8int
    } else {
        0int
    }) + (if bit64(st, SAMPLE_BIT_STREAM_ID) {
        8int
    } else {
        0int
    }) + (if bit64(st, SAMPLE_BIT_CPU) {
        8int
    } else {
        0int
    }) + (if bit64(st, SAMPLE_BIT_IDENTIFIER) {
        8int
    } else {
        0int
    })
}

/// The sample id block read from `s` at `pos` under selector mask `st`:
/// pid/tid, time, id, stream id, cpu, identifier, each present exactly
/// when its mask bit is set, in the kernel's packing order.
pub open spec fn spec_parse_sample_id(s: Seq<u8>, pos: int, st: u64) -> SampleId {
    let p_time = pos + if bit64(st, SAMPLE_BIT_TID) {
        8int
    } else {
        0int
    };
    let p_id = p_time + if bit64(st, SAMPLE_BIT_TIME) {
        8int
    } else {
        0int
    };
    let p_stream = p_id + if bit64(st, SAMPLE_BIT_ID) {
        8int
    } else {
        0int
    };
    let p_cpu = p_stream + if bit64(st, SAMPLE_BIT_STREAM_ID) {
        8int
    } else {
        0int
    };
    let p_identifier = p_cpu + if bit64(st, SAMPLE_BIT_CPU) {
        8int
    } else {
        0int
    };
    SampleId {
        pid: if bit64(st, SAMPLE_BIT_TID) {
            Some(le32_at(s, pos))
        } else {
            None
        },
        tid: if bit64(st, SAMPLE_BIT_TID) {
            Some(le32_at(s, pos + 4))
        } else {
            None
        },
        time: if bit64(st, SAMPLE_BIT_TIME) {
            Some(le64_at(s, p_time))
        } else {
            None
        },
        id: if bit64(st, SAMPLE_BIT_ID) {
            Some(le64_at(s, p_id))
        } else {
            None
        },
        stream_id: if bit64(st, SAMPLE_BIT_STREAM_ID) {
            Some(le64_at(s, p_stream))
        } else {
            None
        },
        cpu: if bit64(st, SAMPLE_BIT_CPU) {
            Some(le32_at(s, p_cpu))
        } else {
            None
        },
        identifier: if bit64(st, SAMPLE_BIT_IDENTIFIER) {
            Some(le64_at(s, p_identifier))
        } else {
            None
        },
    }
}

impl SampleId {
    /// Walks the sample id block at the cursor under selector mask
    /// `sample_type`, field by field in the kernel's packing order,
    /// refusing to cross the record's declared end.
    pub fn from_bytes(data: &Vec<u8>, cur: &mut Cursor, sample_type: u64) -> (r: Result<
        SampleId,
        DecodeError,
    >)
        requires
            old(cur).wf(data@),
        ensures
            final(cur).wf(data@),
            final(cur).end == old(cur).end,
            match r {
                Ok(sid) => old(cur).pos + sample_id_len(sample_type) <= old(cur).end && sid
                    == spec_parse_sample_id(data@, old(cur).pos as int, sample_type)
                    && final(cur).pos == old(cur).pos + sample_id_len(sample_type),
                Err(e) => old(cur).pos + sample_id_len(sample_type) > old(cur).end && e
                    == DecodeError::SizeMismatch,
            },
    {
        let mut pid: Option<u32> = None;
        let mut tid: Option<u32> = None;
        if get_bit64(sample_type, SAMPLE_BIT_TID) {
            pid = Some(cur.read_u32(data)?);
            tid = Some(cur.read_u32(data)?);
        }
        let time = if get_bit64(sample_type, SAMPLE_BIT_TIME) {
            Some(cur.read_u64(data)?)
        } else {
            None
        };
        let id = if get_bit64(sample_type, SAMPLE_BIT_ID) {
            Some(cur.read_u64(data)?)
        } else {
            None
        };
        let stream_id = if get_bit64(sample_type, SAMPLE_BIT_STREAM_ID) {
            Some(cur.read_u64(data)?)
        } else {
            None
        };
        let cpu = if get_bit64(sample_type, SAMPLE_BIT_CPU) {
            let c = cur.read_u32(data)?;
            let _res = cur.read_u32(data)?;
            Some(c)
        } else {
            None
        };
        let identifier = if get_bit64(sample_type, SAMPLE_BIT_IDENTIFIER) {
            Some(cur.read_u64(data)?)
        } else {
            None
        };
        Ok(SampleId { pid, tid, time, id, stream_id, cpu, identifier })
    }
}

} // verus!
