//! The fixed-size prefix of a bpf-event record: program type and flags,
//! program id, and the program tag, exactly as the kernel packs them. The
//! optional sample id block follows immediately after these fixed fields.

use vstd::prelude::*;
use crate::error::DecodeError;
use crate::record::cursor::{le16_at, le32_at, Cursor};
use crate::record::sample_id::{sample_id_len, spec_parse_sample_id, SampleId};

verus! {

/// Byte length of a bpf program tag.
pub const BPF_TAG_SIZE: usize = 8;

/// The fixed fields of a bpf-event record.
#[derive(Clone, Debug, PartialEq, Eq)]
pub struct Body {
    pub type_: u16,
    pub flags: u16,
    pub id: u32,
    pub tag: Vec<u8>,
}

/// The fixed bpf-event fields read from `s` at `pos` pin `b` completely.
pub open spec fn raw_body_matches(b: Body, s: Seq<u8>, pos: int) -> bool {
    &&& b.type_ == le16_at(s, pos)
    &&& b.flags == le16_at(s, pos + 2)
    &&& b.id == le32_at(s, pos + 4)
    &&& b.tag@ == s.subrange(pos + 8, pos + 16)
}

impl Body {
    /// Walks the fixed bpf-event fields at the cursor, refusing to cross
    /// the record's declared end.
    pub fn from_bytes(data: &Vec<u8>, cur: &mut Cursor) -> (r: Result<Body, DecodeError>)
        requires
            old(cur).wf(data@),
        ensures
            final(cur).wf(data@),
            final(cur).end == old(cur).end,
            match r {
                Ok(b) => old(cur).pos + 16 <= old(cur).end && raw_body_matches(
                    b,
                    data@,
                    old(cur).pos as int,
                ) && final(cur).pos == old(cur).pos + 16 as int,
                Err(e) => old(cur).pos + 16 > old(cur).end && e == DecodeError::SizeMismatch,
            },
    {
        let ghost p = cur.pos as int;
        let type_ = cur.read_u16(data)?;
        let flags = cur.read_u16(data)?;
        let id = cur.read_u32(data)?;
        let mut tag: Vec<u8> = Vec::new();
        let mut k: usize = 0;
        while k < BPF_TAG_SIZE
            invariant
                k <= 8,
                cur.wf(data@),
                cur.end == old(cur).end,
                p == old(cur).pos,
                cur.pos == p + 8 + k,
                p + 8 <= cur.end,
                tag@.len() == k,
                forall|m: int| 0 <= m < k ==> tag@[m] == data@[p + 8 + m],
            decreases 8 - k,
        {
            let b = cur.read_u8(data)?;
            tag.push(b);
            k = k + 1;
        }
        proof {
            assert(tag@ =~= data@.subrange(p + 8, p + 16));
        }
        Ok(Body { type_, flags, id, tag })
    }

    /// Walks the sample id block that follows the fixed fields, under the
    /// selector mask captured at build time. The block sits immediately
    /// after the fixed fields, so the cursor must stand just past them.
    pub fn sample_id(data: &Vec<u8>, cur: &mut Cursor, sample_type: u64) -> (r: Result<
        SampleId,
        DecodeError,
    >)
        requires
            old(cur).wf(data@),
        ensures
            final(cur).wf(data@),
            final(cur).end == old(cur).end,
            match r {
                Ok(sid) => old(cur).pos + sample_id_len(sample_type) <= old(cur).end && sid
                    == spec_parse_sample_id(data@, old(cur).pos as int, sample_type)
                    && final(cur).pos == old(cur).pos + sample_id_len(sample_type),
                Err(e) => old(cur).pos + sample_id_len(sample_type) > old(cur).end && e
                    == DecodeError::SizeMismatch,
            },
    {
        SampleId::from_bytes(data, cur, sample_type)
    }
}

} // verus!
