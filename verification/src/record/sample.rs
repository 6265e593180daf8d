//! A sample record: the contextual data captured on counter overflow.
//! Which optional fields are present, and their order, is determined
//! purely by the selector mask captured when the descriptor was built;
//! the walk here follows the kernel's packing order exactly, since no
//! field-level length or tag exists to re-synchronize on.

use vstd::prelude::*;
use crate::bits::{bit64, get_bit64};
use crate::error::DecodeError;
use crate::raw_attr::{
    SAMPLE_BIT_ADDR, SAMPLE_BIT_CALLCHAIN, SAMPLE_BIT_CGROUP, SAMPLE_BIT_CODE_PAGE_SIZE,
    SAMPLE_BIT_CPU, SAMPLE_BIT_DATA_PAGE_SIZE, SAMPLE_BIT_DATA_SRC, SAMPLE_BIT_ID,
    SAMPLE_BIT_IDENTIFIER, SAMPLE_BIT_PERIOD, SAMPLE_BIT_PHYS_ADDR, SAMPLE_BIT_STREAM_ID,
    SAMPLE_BIT_TID, SAMPLE_BIT_TIME, SAMPLE_BIT_TRANSACTION, SAMPLE_BIT_WEIGHT,
    SAMPLE_BIT_WEIGHT_STRUCT,
};
use crate::record::cursor::{le16_at, le32_at, le64_at, Cursor};

verus! {

/// Which representation of the memory-access weight a sample carries.
#[derive(Clone, Copy, Debug, PartialEq, Eq, Structural)]
pub enum WeightRepr {
    /// One 64-bit weight value.
    Full,
    /// The structured representation: one 32-bit and two 16-bit parts.
    Vars,
}

/// A sample's memory-access weight, in the representation that was
/// requested at descriptor-build time.
#[derive(Clone, Copy, Debug, PartialEq, Eq, Structural)]
pub enum Weight {
    Full(u64),
    Vars { var1_dw: u32, var2_w: u16, var3_w: u16 },
}

/// A decoded sample record body. Each field is present exactly when the
/// selector mask carries its bit.
#[derive(Clone, Debug, PartialEq, Eq)]
pub struct Body {
    pub identifier: Option<u64>,
    pub pid: Option<u32>,
    pub tid: Option<u32>,
    pub time: Option<u64>,
    pub addr: Option<u64>,
    pub id: Option<u64>,
    pub stream_id: Option<u64>,
    pub cpu: Option<u32>,
    pub period: Option<u64>,
    /// The captured instruction-pointer call chain.
    pub ips: Option<Vec<u64>>,
    pub weight: Option<Weight>,
    pub data_src: Option<u64>,
    pub transaction: Option<u64>,
    pub phys_addr: Option<u64>,
    pub cgroup: Option<u64>,
    pub data_page_size: Option<u64>,
    pub code_page_size: Option<u64>,
}

/// Eight bytes when a field is present, none when it is not.
pub open spec fn opt8(present: bool) -> int {
    if present {
        8int
    } else {
        0int
    }
}

/// Offset of the pid/tid pair within a sample body starting at `pos`.
pub open spec fn off_tid(pos: int, st: u64) -> int {
    pos + opt8(bit64(st, SAMPLE_BIT_IDENTIFIER))
}

/// Offset of the timestamp.
pub open spec fn off_time(pos: int, st: u64) -> int {
    off_tid(pos, st) + opt8(bit64(st, SAMPLE_BIT_TID))
}

/// Offset of the data address.
pub open spec fn off_addr(pos: int, st: u64) -> int {
    off_time(pos, st) + opt8(bit64(st, SAMPLE_BIT_TIME))
}

/// Offset of the counter id.
pub open spec fn off_id(pos: int, st: u64) -> int {
    off_addr(pos, st) + opt8(bit64(st, SAMPLE_BIT_ADDR))
}

/// Offset of the stream id.
pub open spec fn off_stream_id(pos: int, st: u64) -> int {
    off_id(pos, st) + opt8(bit64(st, SAMPLE_BIT_ID))
}

/// Offset of the cpu pair.
pub open spec fn off_cpu(pos: int, st: u64) -> int {
    off_stream_id(pos, st) + opt8(bit64(st, SAMPLE_BIT_STREAM_ID))
}

/// Offset of the period value.
pub open spec fn off_period(pos: int, st: u64) -> int {
    off_cpu(pos, st) + opt8(bit64(st, SAMPLE_BIT_CPU))
}

/// Offset of the call-chain block: its 64-bit depth count, then one
/// 64-bit instruction pointer per frame.
pub open spec fn off_callchain(pos: int, st: u64) -> int {
    off_period(pos, st) + opt8(bit64(st, SAMPLE_BIT_PERIOD))
}

/// The call-chain depth the body itself declares.
pub open spec fn callchain_nr(s: Seq<u8>, pos: int, st: u64) -> u64 {
    le64_at(s, off_callchain(pos, st))
}

/// Offset of the weight field, in either representation.
pub open spec fn off_weight(s: Seq<u8>, pos: int, st: u64) -> int {
    off_callchain(pos, st) + if bit64(st, SAMPLE_BIT_CALLCHAIN) {
        8 + 8 * callchain_nr(s, pos, st)
    } else {
        0int
    }
}

/// Offset of the data-source descriptor.
pub open spec fn off_data_src(s: Seq<u8>, pos: int, st: u64) -> int {
    off_weight(s, pos, st) + opt8(
        bit64(st, SAMPLE_BIT_WEIGHT) || bit64(st, SAMPLE_BIT_WEIGHT_STRUCT),
    )
}

/// Offset of the transaction descriptor.
pub open spec fn off_transaction(s: Seq<u8>, pos: int, st: u64) -> int {
    off_data_src(s, pos, st) + opt8(bit64(st, SAMPLE_BIT_DATA_SRC))
}

/// Offset of the physical address.
pub open spec fn off_phys_addr(s: Seq<u8>, pos: int, st: u64) -> int {
    off_transaction(s, pos, st) + opt8(bit64(st, SAMPLE_BIT_TRANSACTION))
}

/// Offset of the cgroup id.
pub open spec fn off_cgroup(s: Seq<u8>, pos: int, st: u64) -> int {
    off_phys_addr(s, pos, st) + opt8(bit64(st, SAMPLE_BIT_PHYS_ADDR))
}

/// Offset of the data page size.
pub open spec fn off_data_page_size(s: Seq<u8>, pos: int, st: u64) -> int {
    off_cgroup(s, pos, st) + opt8(bit64(st, SAMPLE_BIT_CGROUP))
}

/// Offset of the code page size.
pub open spec fn off_code_page_size(s: Seq<u8>, pos: int, st: u64) -> int {
    off_data_page_size(s, pos, st) + opt8(bit64(st, SAMPLE_BIT_DATA_PAGE_SIZE))
}

/// The byte length of a sample body under selector mask `st`.
pub open spec fn body_len(s: Seq<u8>, pos: int, st: u64) -> int {
    off_code_page_size(s, pos, st) + opt8(bit64(st, SAMPLE_BIT_CODE_PAGE_SIZE)) - pos
}

/// The sample body decoded from `s` at `pos` under selector mask `st`
/// pins `b` completely: each field present exactly when its mask bit is
/// set, at the offset the mask dictates.
pub open spec fn body_matches(b: Body, s: Seq<u8>, pos: int, st: u64) -> bool {
    &&& b.identifier == (if bit64(st, SAMPLE_BIT_IDENTIFIER) {
        Some(le64_at(s, pos))
    } else {
        None::<u64>
    })
    &&& b.pid == (if bit64(st, SAMPLE_BIT_TID) {
        Some(le32_at(s, off_tid(pos, st)))
    } else {
        None::<u32>
    })
    &&& b.tid == (if bit64(st, SAMPLE_BIT_TID) {
        Some(le32_at(s, off_tid(pos, st) + 4))
    } else {
        None::<u32>
    })
    &&& b.time == (if bit64(st, SAMPLE_BIT_TIME) {
        Some(le64_at(s, off_time(pos, st)))
    } else {
        None::<u64>
    })
    &&& b.addr == (if bit64(st, SAMPLE_BIT_ADDR) {
        Some(le64_at(s, off_addr(pos, st)))
    } else {
        None::<u64>
    })
    &&& b.id == (if bit64(st, SAMPLE_BIT_ID) {
        Some(le64_at(s, off_id(pos, st)))
    } else {
        None::<u64>
    })
    &&& b.stream_id == (if bit64(st, SAMPLE_BIT_STREAM_ID) {
        Some(le64_at(s, off_stream_id(pos, st)))
    } else {
        None::<u64>
    })
    &&& b.cpu == (if bit64(st, SAMPLE_BIT_CPU) {
        Some(le32_at(s, off_cpu(pos, st)))
    } else {
        None::<u32>
    })
    &&& b.period == (if bit64(st, SAMPLE_BIT_PERIOD) {
        Some(le64_at(s, off_period(pos, st)))
    } else {
        None::<u64>
    })
    &&& (b.ips is Some) == bit64(st, SAMPLE_BIT_CALLCHAIN)
    &&& bit64(st, SAMPLE_BIT_CALLCHAIN) ==> {
        &&& b.ips->0@.len() == callchain_nr(s, pos, st)
        &&& forall|k: int|
            0 <= k < b.ips->0@.len() ==> #[trigger] b.ips->0@[k] == le64_at(
                s,
                off_callchain(pos, st) + 8 + 8 * k,
            )
    }
    &&& b.weight == (if bit64(st, SAMPLE_BIT_WEIGHT) {
        Some(Weight::Full(le64_at(s, off_weight(s, pos, st))))
    } else if bit64(st, SAMPLE_BIT_WEIGHT_STRUCT) {
        Some(
            Weight::Vars {
                var1_dw: le32_at(s, off_weight(s, pos, st)),
                var2_w: le16_at(s, off_weight(s, pos, st) + 4),
                var3_w: le16_at(s, off_weight(s, pos, st) + 6),
            },
        )
    } else {
        None::<Weight>
    })
    &&& b.data_src == (if bit64(st, SAMPLE_BIT_DATA_SRC) {
        Some(le64_at(s, off_data_src(s, pos, st)))
    } else {
        None::<u64>
    })
    &&& b.transaction == (if bit64(st, SAMPLE_BIT_TRANSACTION) {
        Some(le64_at(s, off_transaction(s, pos, st)))
    } else {
        None::<u64>
    })
    &&& b.phys_addr == (if bit64(st, SAMPLE_BIT_PHYS_ADDR) {
        Some(le64_at(s, off_phys_addr(s, pos, st)))
    } else {
        None::<u64>
    })
    &&& b.cgroup == (if bit64(st, SAMPLE_BIT_CGROUP) {
        Some(le64_at(s, off_cgroup(s, pos, st)))
    } else {
        None::<u64>
    })
    &&& b.data_page_size == (if bit64(st, SAMPLE_BIT_DATA_PAGE_SIZE) {
        Some(le64_at(s, off_data_page_size(s, pos, st)))
    } else {
        None::<u64>
    })
    &&& b.code_page_size == (if bit64(st, SAMPLE_BIT_CODE_PAGE_SIZE) {
        Some(le64_at(s, off_code_page_size(s, pos, st)))
    } else {
        None::<u64>
    })
}

/// The fixed-width fields that precede the call chain.
struct PrefixFields {
    identifier: Option<u64>,
    pid: Option<u32>,
    tid: Option<u32>,
    time: Option<u64>,
    addr: Option<u64>,
    id: Option<u64>,
    stream_id: Option<u64>,
    cpu: Option<u32>,
    period: Option<u64>,
}

/// The byte length of the fixed-width fields before the call chain.
pub open spec fn prefix_len(st: u64) -> int {
    off_callchain(0, st)
}

/// The fixed-width prefix fields read from `s` at `pos` pin `f`.
spec fn prefix_matches(f: PrefixFields, s: Seq<u8>, pos: int, st: u64) -> bool {
    &&& f.identifier == (if bit64(st, SAMPLE_BIT_IDENTIFIER) {
        Some(le64_at(s, pos))
    } else {
        None::<u64>
    })
    &&& f.pid == (if bit64(st, SAMPLE_BIT_TID) {
        Some(le32_at(s, off_tid(pos, st)))
    } else {
        None::<u32>
    })
    &&& f.tid == (if bit64(st, SAMPLE_BIT_TID) {
        Some(le32_at(s, off_tid(pos, st) + 4))
    } else {
        None::<u32>
    })
    &&& f.time == (if bit64(st, SAMPLE_BIT_TIME) {
        Some(le64_at(s, off_time(pos, st)))
    } else {
        None::<u64>
    })
    &&& f.addr == (if bit64(st, SAMPLE_BIT_ADDR) {
        Some(le64_at(s, off_addr(pos, st)))
    } else {
        None::<u64>
    })
    &&& f.id == (if bit64(st, SAMPLE_BIT_ID) {
        Some(le64_at(s, off_id(pos, st)))
    } else {
        None::<u64>
    })
    &&& f.stream_id == (if bit64(st, SAMPLE_BIT_STREAM_ID) {
        Some(le64_at(s, off_stream_id(pos, st)))
    } else {
        None::<u64>
    })
    &&& f.cpu == (if bit64(st, SAMPLE_BIT_CPU) {
        Some(le32_at(s, off_cpu(pos, st)))
    } else {
        None::<u32>
    })
    &&& f.period == (if bit64(st, SAMPLE_BIT_PERIOD) {
        Some(le64_at(s, off_period(pos, st)))
    } else {
        None::<u64>
    })
}

/// Walks the fixed-width fields that precede the call chain.
#[verifier::rlimit(100)]
fn decode_prefix(data: &Vec<u8>, cur: &mut Cursor, sample_type: u64) -> (r: Result<
    PrefixFields,
    DecodeError,
>)
    requires
        old(cur).wf(data@),
    ensures
        final(cur).wf(data@),
        final(cur).end == old(cur).end,
        match r {
            Ok(f) => old(cur).pos + prefix_len(sample_type) <= old(cur).end && prefix_matches(
                f,
                data@,
                old(cur).pos as int,
                sample_type,
            ) && final(cur).pos == old(cur).pos + prefix_len(sample_type),
            Err(e) => old(cur).pos + prefix_len(sample_type) > old(cur).end && e
                == DecodeError::SizeMismatch,
        },
{
    let ghost p = cur.pos as int;
    let identifier = if get_bit64(sample_type, SAMPLE_BIT_IDENTIFIER) {
        Some(cur.read_u64(data)?)
    } else {
        None
    };
    proof {
        assert(cur.pos == off_tid(p, sample_type));
    }
    let mut pid: Option<u32> = None;
    let mut tid: Option<u32> = None;
    if get_bit64(sample_type, SAMPLE_BIT_TID) {
        pid = Some(cur.read_u32(data)?);
        tid = Some(cur.read_u32(data)?);
    }
    proof {
        assert(cur.pos == off_time(p, sample_type));
    }
    let time = if get_bit64(sample_type, SAMPLE_BIT_TIME) {
        Some(cur.read_u64(data)?)
    } else {
        None
    };
    proof {
        assert(cur.pos == off_addr(p, sample_type));
    }
    let addr = if get_bit64(sample_type, SAMPLE_BIT_ADDR) {
        Some(cur.read_u64(data)?)
    } else {
        None
    };
    proof {
        assert(cur.pos == off_id(p, sample_type));
    }
    let id = if get_bit64(sample_type, SAMPLE_BIT_ID) {
        Some(cur.read_u64(data)?)
    } else {
        None
    };
    proof {
        assert(cur.pos == off_stream_id(p, sample_type));
    }
    let stream_id = if get_bit64(sample_type, SAMPLE_BIT_STREAM_ID) {
        Some(cur.read_u64(data)?)
    } else {
        None
    };
    proof {
        assert(cur.pos == off_cpu(p, sample_type));
    }
    let mut cpu: Option<u32> = None;
    if get_bit64(sample_type, SAMPLE_BIT_CPU) {
        cpu = Some(cur.read_u32(data)?);
        let _res = cur.read_u32(data)?;
    }
    proof {
        assert(cur.pos == off_period(p, sample_type));
    }
    let period = if get_bit64(sample_type, SAMPLE_BIT_PERIOD) {
        Some(cur.read_u64(data)?)
    } else {
        None
    };
    proof {
        assert(cur.pos == off_callchain(p, sample_type));
    }
    Ok(PrefixFields { identifier, pid, tid, time, addr, id, stream_id, cpu, period })
}

/// The presence-gated fields that follow the call chain.
struct TailFields {
    weight: Option<Weight>,
    data_src: Option<u64>,
    transaction: Option<u64>,
    phys_addr: Option<u64>,
    cgroup: Option<u64>,
    data_page_size: Option<u64>,
    code_page_size: Option<u64>,
}

/// The byte length of the fields that follow the call chain.
pub open spec fn tail_len(st: u64) -> int {
    opt8(bit64(st, SAMPLE_BIT_WEIGHT) || bit64(st, SAMPLE_BIT_WEIGHT_STRUCT)) + opt8(
        bit64(st, SAMPLE_BIT_DATA_SRC),
    ) + opt8(bit64(st, SAMPLE_BIT_TRANSACTION)) + opt8(bit64(st, SAMPLE_BIT_PHYS_ADDR)) + opt8(
        bit64(st, SAMPLE_BIT_CGROUP),
    ) + opt8(bit64(st, SAMPLE_BIT_DATA_PAGE_SIZE)) + opt8(bit64(st, SAMPLE_BIT_CODE_PAGE_SIZE))
}

/// The tail fields read from `s` at `pos` pin `t`, with the fields packed
/// one after the other in the kernel's order.
spec fn tail_matches(t: TailFields, s: Seq<u8>, pos: int, st: u64) -> bool {
    let o_data_src = pos + opt8(bit64(st, SAMPLE_BIT_WEIGHT) || bit64(st, SAMPLE_BIT_WEIGHT_STRUCT));
    let o_transaction = o_data_src + opt8(bit64(st, SAMPLE_BIT_DATA_SRC));
    let o_phys_addr = o_transaction + opt8(bit64(st, SAMPLE_BIT_TRANSACTION));
    let o_cgroup = o_phys_addr + opt8(bit64(st, SAMPLE_BIT_PHYS_ADDR));
    let o_dps = o_cgroup + opt8(bit64(st, SAMPLE_BIT_CGROUP));
    let o_cps = o_dps + opt8(bit64(st, SAMPLE_BIT_DATA_PAGE_SIZE));
    &&& t.weight == (if bit64(st, SAMPLE_BIT_WEIGHT) {
        Some(Weight::Full(le64_at(s, pos)))
    } else if bit64(st, SAMPLE_BIT_WEIGHT_STRUCT) {
        Some(
            Weight::Vars {
                var1_dw: le32_at(s, pos),
                var2_w: le16_at(s, pos + 4),
                var3_w: le16_at(s, pos + 6),
            },
        )
    } else {
        None::<Weight>
    })
    &&& t.data_src == (if bit64(st, SAMPLE_BIT_DATA_SRC) {
        Some(le64_at(s, o_data_src))
    } else {
        None::<u64>
    })
    &&& t.transaction == (if bit64(st, SAMPLE_BIT_TRANSACTION) {
        Some(le64_at(s, o_transaction))
    } else {
        None::<u64>
    })
    &&& t.phys_addr == (if bit64(st, SAMPLE_BIT_PHYS_ADDR) {
        Some(le64_at(s, o_phys_addr))
    } else {
        None::<u64>
    })
    &&& t.cgroup == (if bit64(st, SAMPLE_BIT_CGROUP) {
        Some(le64_at(s, o_cgroup))
    } else {
        None::<u64>
    })
    &&& t.data_page_size == (if bit64(st, SAMPLE_BIT_DATA_PAGE_SIZE) {
        Some(le64_at(s, o_dps))
    } else {
        None::<u64>
    })
    &&& t.code_page_size == (if bit64(st, SAMPLE_BIT_CODE_PAGE_SIZE) {
        Some(le64_at(s, o_cps))
    } else {
        None::<u64>
    })
}

/// Walks the presence-gated fields that follow the call chain.
#[verifier::rlimit(100)]
fn decode_tail(data: &Vec<u8>, cur: &mut Cursor, sample_type: u64) -> (r: Result<
    TailFields,
    DecodeError,
>)
    requires
        old(cur).wf(data@),
    ensures
        final(cur).wf(data@),
        final(cur).end == old(cur).end,
        match r {
            Ok(t) => old(cur).pos + tail_len(sample_type) <= old(cur).end && tail_matches(
                t,
                data@,
                old(cur).pos as int,
                sample_type,
            ) && final(cur).pos == old(cur).pos + tail_len(sample_type),
            Err(e) => old(cur).pos + tail_len(sample_type) > old(cur).end && e
                == DecodeError::SizeMismatch,
        },
{
    let weight = if get_bit64(sample_type, SAMPLE_BIT_WEIGHT) {
        Some(Weight::Full(cur.read_u64(data)?))
    } else if get_bit64(sample_type, SAMPLE_BIT_WEIGHT_STRUCT) {
        let var1_dw = cur.read_u32(data)?;
        let var2_w = cur.read_u16(data)?;
        let var3_w = cur.read_u16(data)?;
        Some(Weight::Vars { var1_dw, var2_w, var3_w })
    } else {
        None
    };
    let data_src = if get_bit64(sample_type, SAMPLE_BIT_DATA_SRC) {
        Some(cur.read_u64(data)?)
    } else {
        None
    };
    let transaction = if get_bit64(sample_type, SAMPLE_BIT_TRANSACTION) {
        Some(cur.read_u64(data)?)
    } else {
        None
    };
    let phys_addr = if get_bit64(sample_type, SAMPLE_BIT_PHYS_ADDR) {
        Some(cur.read_u64(data)?)
    } else {
        None
    };
    let cgroup = if get_bit64(sample_type, SAMPLE_BIT_CGROUP) {
        Some(cur.read_u64(data)?)
    } else {
        None
    };
    let data_page_size = if get_bit64(sample_type, SAMPLE_BIT_DATA_PAGE_SIZE) {
        Some(cur.read_u64(data)?)
    } else {
        None
    };
    let code_page_size = if get_bit64(sample_type, SAMPLE_BIT_CODE_PAGE_SIZE) {
        Some(cur.read_u64(data)?)
    } else {
        None
    };
    Ok(
        TailFields {
            weight,
            data_src,
            transaction,
            phys_addr,
            cgroup,
            data_page_size,
            code_page_size,
        },
    )
}

impl Body {
    /// Walks one sample body at the cursor, field by field in the
    /// kernel's packing order, refusing to cross the record's declared
    /// end.
    #[verifier::rlimit(100)]
    pub fn from_bytes(data: &Vec<u8>, cur: &mut Cursor, sample_type: u64) -> (r: Result<
        Body,
        DecodeError,
    >)
        requires
            old(cur).wf(data@),
        ensures
            final(cur).wf(data@),
            final(cur).end == old(cur).end,
            match r {
                Ok(b) => old(cur).pos + body_len(data@, old(cur).pos as int, sample_type) <= old(
                    cur,
                ).end && body_matches(b, data@, old(cur).pos as int, sample_type) && final(cur).pos
                    == old(cur).pos + body_len(data@, old(cur).pos as int, sample_type),
                Err(e) => old(cur).pos + body_len(data@, old(cur).pos as int, sample_type) > old(
                    cur,
                ).end && e == DecodeError::SizeMismatch,
            },
    {
        let ghost p = cur.pos as int;
        proof {
            assert(off_callchain(p, sample_type) == p + prefix_len(sample_type));
            assert(body_len(data@, p, sample_type) == prefix_len(sample_type) + (if bit64(
                sample_type,
                SAMPLE_BIT_CALLCHAIN,
            ) {
                8 + 8 * callchain_nr(data@, p, sample_type)
            } else {
                0int
            }) + tail_len(sample_type));
        }
        let prefix = decode_prefix(data, cur, sample_type)?;
        proof {
            assert(cur.pos == off_callchain(p, sample_type));
        }
        let mut ips: Option<Vec<u64>> = None;
        if get_bit64(sample_type, SAMPLE_BIT_CALLCHAIN) {
            let nr = cur.read_u64(data)?;
            let avail = cur.remaining() / 8;
            if nr > avail as u64 {
                proof {
                    assert(8 * callchain_nr(data@, p, sample_type) > cur.end - cur.pos)
                        by (nonlinear_arith)
                        requires
                            callchain_nr(data@, p, sample_type) > ((cur.end - cur.pos) as int) / 8
                                && cur.pos <= cur.end && avail as int == ((cur.end
                                - cur.pos) as int) / 8 && nr == callchain_nr(data@, p, sample_type)
                                && nr > avail,
                    ;
                }
                return Err(DecodeError::SizeMismatch);
            }
            let count = nr as usize;
            proof {
                assert(8 * callchain_nr(data@, p, sample_type) <= cur.end - cur.pos)
                    by (nonlinear_arith)
                    requires
                        callchain_nr(data@, p, sample_type) <= ((cur.end - cur.pos) as int) / 8
                            && cur.pos <= cur.end && avail as int == ((cur.end - cur.pos) as int)
                            / 8 && nr == callchain_nr(data@, p, sample_type) && nr <= avail,
                ;
            }
            let mut chain: Vec<u64> = Vec::new();
            let mut k: usize = 0;
            while k < count
                invariant
                    k <= count,
                    count == callchain_nr(data@, p, sample_type),
                    cur.wf(data@),
                    cur.end == old(cur).end,
                    p == old(cur).pos,
                    cur.pos == off_callchain(p, sample_type) + 8 + 8 * k,
                    off_callchain(p, sample_type) + 8 + 8 * count <= cur.end,
                    chain@.len() == k,
                    forall|m: int|
                        0 <= m < k ==> #[trigger] chain@[m] == le64_at(
                            data@,
                            off_callchain(p, sample_type) + 8 + 8 * m,
                        ),
                decreases count - k,
            {
                let ip = cur.read_u64(data)?;
                chain.push(ip);
                k = k + 1;
            }
            ips = Some(chain);
        }
        proof {
            assert(cur.pos == off_weight(data@, p, sample_type));
        }
        let tail = decode_tail(data, cur, sample_type)?;
        Ok(
            Body {
                identifier: prefix.identifier,
                pid: prefix.pid,
                tid: prefix.tid,
                time: prefix.time,
                addr: prefix.addr,
                id: prefix.id,
                stream_id: prefix.stream_id,
                cpu: prefix.cpu,
                period: prefix.period,
                ips,
                weight: tail.weight,
                data_src: tail.data_src,
                transaction: tail.transaction,
                phys_addr: tail.phys_addr,
                cgroup: tail.cgroup,
                data_page_size: tail.data_page_size,
                code_page_size: tail.code_page_size,
            },
        )
    }
}

} // verus!
