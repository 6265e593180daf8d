//! A read record: the kernel's notice of a counter read event, carrying
//! the grouped value block. The variable-length tail — one fixed-size
//! entry per active group member — is walked using the member count read
//! from the body's own header sub-field, not from the selector mask.

use vstd::prelude::*;
use crate::error::DecodeError;
use crate::record::cursor::{le32_at, le64_at, Cursor};
use crate::record::sample_id::{sample_id_len, spec_parse_sample_id, SampleId};

verus! {

/// The fixed header of the grouped value block.
#[derive(Clone, Copy, Debug, PartialEq, Eq, Structural)]
pub struct ReadFormatHeader {
    pub members_len: u64,
    pub time_enabled: u64,
    pub time_running: u64,
}

/// One member's entry in the grouped value block.
#[derive(Clone, Copy, Debug, PartialEq, Eq, Structural)]
pub struct ReadFormatValue {
    pub event_count: u64,
    pub event_id: u64,
    /// Lost-event count, present only when the descriptor requested it.
    pub lost: Option<u64>,
}

/// A decoded read record body.
#[derive(Clone, Debug, PartialEq, Eq)]
pub struct Body {
    pub pid: u32,
    pub tid: u32,
    pub values_header: ReadFormatHeader,
    pub values: Vec<ReadFormatValue>,
    /// Present exactly when "sample id on all records" was requested at
    /// build time.
    pub sample_id: Option<SampleId>,
}

/// The byte stride of one member entry.
pub open spec fn member_stride(read_lost: bool) -> int {
    if read_lost {
        24
    } else {
        16
    }
}

/// The byte length of a read body: pid and tid, the value-block header,
/// one entry per member as counted by the header itself, and the
/// optional sample id block.
pub open spec fn body_len(s: Seq<u8>, pos: int, read_lost: bool, sample_id_all: bool, st: u64) -> int {
    32 + le64_at(s, pos + 8) * member_stride(read_lost) + if sample_id_all {
        sample_id_len(st)
    } else {
        0int
    }
}

/// The read body decoded from `s` at `pos` pins `b` completely.
pub open spec fn body_matches(
    b: Body,
    s: Seq<u8>,
    pos: int,
    read_lost: bool,
    sample_id_all: bool,
    st: u64,
) -> bool {
    let nr = le64_at(s, pos + 8);
    let stride = member_stride(read_lost);
    &&& b.pid == le32_at(s, pos)
    &&& b.tid == le32_at(s, pos + 4)
    &&& b.values_header == (ReadFormatHeader {
        members_len: nr,
        time_enabled: le64_at(s, pos + 16),
        time_running: le64_at(s, pos + 24),
    })
    &&& b.values@.len() == nr
    &&& forall|k: int|
        0 <= k < b.values@.len() ==> #[trigger] b.values@[k] == (ReadFormatValue {
            event_count: le64_at(s, pos + 32 + k * stride),
            event_id: le64_at(s, pos + 32 + k * stride + 8),
            lost: if read_lost {
                Some(le64_at(s, pos + 32 + k * stride + 16))
            } else {
                None
            },
        })
    &&& b.sample_id == (if sample_id_all {
        Some(spec_parse_sample_id(s, pos + 32 + nr * stride, st))
    } else {
        None::<SampleId>
    })
}

impl Body {
    /// The grouped value block's entries, one per member of one
    /// kernel-side snapshot.
    pub fn values_body(&self) -> (r: &Vec<ReadFormatValue>)
        ensures
            *r == self.values,
    {
        &self.values
    }

    /// The trailing sample id block, present exactly when requested at
    /// build time.
    pub fn sample_id(&self) -> (r: &Option<SampleId>)
        ensures
            *r == self.sample_id,
    {
        &self.sample_id
    }

    /// Walks one read body at the cursor: the fixed fields, then the
    /// member entries counted by the header sub-field, then the optional
    /// sample id block, refusing to cross the record's declared end.
    pub fn from_bytes(
        data: &Vec<u8>,
        cur: &mut Cursor,
        read_lost: bool,
        sample_id_all: bool,
        sample_type: u64,
    ) -> (r: Result<Body, DecodeError>)
        requires
            old(cur).wf(data@),
        ensures
            final(cur).wf(data@),
            final(cur).end == old(cur).end,
            match r {
                Ok(b) => old(cur).pos + body_len(
                    data@,
                    old(cur).pos as int,
                    read_lost,
                    sample_id_all,
                    sample_type,
                ) <= old(cur).end && body_matches(
                    b,
                    data@,
                    old(cur).pos as int,
                    read_lost,
                    sample_id_all,
                    sample_type,
                ) && final(cur).pos == old(cur).pos + body_len(
                    data@,
                    old(cur).pos as int,
                    read_lost,
                    sample_id_all,
                    sample_type,
                ),
                Err(e) => old(cur).pos + body_len(
                    data@,
                    old(cur).pos as int,
                    read_lost,
                    sample_id_all,
                    sample_type,
                ) > old(cur).end && e == DecodeError::SizeMismatch,
            },
    {
        let ghost p = old(cur).pos as int;
        let stride: usize = if read_lost {
            24
        } else {
            16
        };
        let pid = cur.read_u32(data)?;
        let tid = cur.read_u32(data)?;
        let nr = cur.read_u64(data)?;
        let time_enabled = cur.read_u64(data)?;
        let time_running = cur.read_u64(data)?;
        let avail = cur.remaining() / stride;
        if nr > avail as u64 {
            proof {
                assert(le64_at(data@, p + 8) * member_stride(read_lost) > cur.end - cur.pos)
                    by (nonlinear_arith)
                    requires
                        le64_at(data@, p + 8) > ((cur.end - cur.pos) as int) / member_stride(
                            read_lost,
                        ) && member_stride(read_lost) > 0 && cur.pos <= cur.end && avail as int == (
                        (cur.end - cur.pos) as int) / member_stride(read_lost) && nr == le64_at(
                            data@,
                            p + 8,
                        ) && nr > avail && stride == member_stride(read_lost),
                ;
            }
            return Err(DecodeError::SizeMismatch);
        }
        let count = nr as usize;
        proof {
            assert(le64_at(data@, p + 8) * member_stride(read_lost) <= cur.end - cur.pos)
                by (nonlinear_arith)
                requires
                    le64_at(data@, p + 8) <= ((cur.end - cur.pos) as int) / member_stride(read_lost)
                        && member_stride(read_lost) > 0 && cur.pos <= cur.end && avail as int == ((
                    cur.end - cur.pos) as int) / member_stride(read_lost) && nr == le64_at(
                        data@,
                        p + 8,
                    ) && nr <= avail && stride == member_stride(read_lost),
            ;
        }
        let mut values: Vec<ReadFormatValue> = Vec::new();
        let mut k: usize = 0;
        while k < count
            invariant
                k <= count,
                count == le64_at(data@, p + 8),
                stride == member_stride(read_lost),
                cur.wf(data@),
                cur.end == old(cur).end,
                p == old(cur).pos,
                cur.pos == p + 32 + k * stride,
                p + 32 + count * stride <= cur.end,
                values@.len() == k,
                forall|m: int|
                    0 <= m < k ==> #[trigger] values@[m] == (ReadFormatValue {
                        event_count: le64_at(data@, p + 32 + m * stride),
                        event_id: le64_at(data@, p + 32 + m * stride + 8),
                        lost: if read_lost {
                            Some(le64_at(data@, p + 32 + m * stride + 16))
                        } else {
                            None
                        },
                    }),
            decreases count - k,
        {
            proof {
                assert(k * stride + stride <= count * stride) by (nonlinear_arith)
                    requires
                        k < count && stride > 0,
                ;
            }
            let event_count = cur.read_u64(data)?;
            let event_id = cur.read_u64(data)?;
            let lost = if read_lost {
                Some(cur.read_u64(data)?)
            } else {
                None
            };
            values.push(ReadFormatValue { event_count, event_id, lost });
            k = k + 1;
        }
        let sample_id = if sample_id_all {
            Some(SampleId::from_bytes(data, cur, sample_type)?)
        } else {
            None
        };
        Ok(
            Body {
                pid,
                tid,
                values_header: ReadFormatHeader { members_len: nr, time_enabled, time_running },
                values,
                sample_id,
            },
        )
    }
}

} // verus!
