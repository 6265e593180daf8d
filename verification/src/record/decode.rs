//! One decode step: the fixed eight-byte record header, then dispatch on
//! its type tag to the matching body decoder, with every read confined to
//! the record's declared total size. A record type this library does not
//! interpret is carried through as its raw payload bytes, so decoding
//! resumes at the next record boundary.

use vstd::prelude::*;
use crate::error::DecodeError;
use crate::record::bpf_event;
use crate::record::cursor::{le16, le16_at, le32, le32_at, Cursor};
use crate::record::lost;
use crate::record::read;
use crate::record::sample;
use crate::record::switch;

verus! {

/// Type tag of a lost-records notice.
pub const RECORD_TYPE_LOST: u32 = 2;

/// Type tag of a read record.
pub const RECORD_TYPE_READ: u32 = 8;

/// Type tag of a sample record.
pub const RECORD_TYPE_SAMPLE: u32 = 9;

/// Type tag of a context-switch record.
pub const RECORD_TYPE_SWITCH: u32 = 14;

/// Type tag of a bpf-event record.
pub const RECORD_TYPE_BPF_EVENT: u32 = 18;

/// What the decoder needs from the descriptor the records were captured
/// under: the selector mask, whether every record kind trails a sample id
/// block, and whether read-format entries carry a lost-event count.
#[derive(Clone, Copy, Debug, PartialEq, Eq, Structural)]
pub struct DecodeConfig {
    pub sample_type: u64,
    pub sample_id_all: bool,
    pub read_lost: bool,
}

/// The fixed header every record starts with: type tag, misc flags, and
/// the record's total byte size, header included.
#[derive(Clone, Copy, Debug, PartialEq, Eq, Structural)]
pub struct RecordHeader {
    pub type_: u32,
    pub misc: u16,
    pub size: u16,
}

/// A decoded record body, one variant per interpreted kernel record type.
/// A type this library does not interpret is carried as its raw payload.
#[derive(Clone, Debug, PartialEq, Eq)]
pub enum RecordBody {
    Sample(sample::Body),
    Read(read::Body),
    BpfEvent(bpf_event::Body),
    Switch(switch::Body),
    Lost(lost::Body),
    Other(Vec<u8>),
}

/// One decoded record: its header, and the body the header's type tag
/// dispatched to.
#[derive(Clone, Debug, PartialEq, Eq)]
pub struct Record {
    pub header: RecordHeader,
    pub body: RecordBody,
}

/// The record header read from `s` at `pos`.
pub open spec fn header_at(s: Seq<u8>, pos: int) -> RecordHeader {
    RecordHeader { type_: le32_at(s, pos), misc: le16_at(s, pos + 4), size: le16_at(s, pos + 6) }
}

/// True when a whole record, as sized by its own header, lies within the
/// buffered bytes at `pos`.
pub open spec fn record_available(s: Seq<u8>, pos: int) -> bool {
    pos + 8 <= s.len() && pos + header_at(s, pos).size <= s.len()
}

/// True when the body the header's type tag dispatches to fits within
/// the record's declared total size.
pub open spec fn body_fits(s: Seq<u8>, pos: int, cfg: DecodeConfig) -> bool {
    let h = header_at(s, pos);
    let body_pos = pos + 8;
    if h.type_ == RECORD_TYPE_SAMPLE {
        sample::body_len(s, body_pos, cfg.sample_type) <= h.size - 8
    } else if h.type_ == RECORD_TYPE_READ {
        read::body_len(s, body_pos, cfg.read_lost, cfg.sample_id_all, cfg.sample_type) <= h.size
            - 8
    } else if h.type_ == RECORD_TYPE_LOST {
        lost::body_len(cfg.sample_id_all, cfg.sample_type) <= h.size - 8
    } else if h.type_ == RECORD_TYPE_SWITCH {
        switch::body_len(cfg.sample_id_all, cfg.sample_type) <= h.size - 8
    } else if h.type_ == RECORD_TYPE_BPF_EVENT {
        bpf_event::body_len(cfg.sample_id_all, cfg.sample_type) <= h.size - 8
    } else {
        true
    }
}

/// The record decoded from `s` at `pos` under `cfg` pins `rec`
/// completely: the header as the bytes hold it, and the body variant and
/// fields the type tag and the selector mask dictate.
pub open spec fn record_matches(rec: Record, s: Seq<u8>, pos: int, cfg: DecodeConfig) -> bool {
    let h = header_at(s, pos);
    let body_pos = pos + 8;
    &&& rec.header == h
    &&& match rec.body {
        RecordBody::Sample(b) => h.type_ == RECORD_TYPE_SAMPLE && sample::body_matches(
            b,
            s,
            body_pos,
            cfg.sample_type,
        ),
        RecordBody::Read(b) => h.type_ == RECORD_TYPE_READ && read::body_matches(
            b,
            s,
            body_pos,
            cfg.read_lost,
            cfg.sample_id_all,
            cfg.sample_type,
        ),
        RecordBody::Lost(b) => h.type_ == RECORD_TYPE_LOST && lost::body_matches(
            b,
            s,
            body_pos,
            cfg.sample_id_all,
            cfg.sample_type,
        ),
        RecordBody::Switch(b) => h.type_ == RECORD_TYPE_SWITCH && switch::body_matches(
            b,
            s,
            body_pos,
            cfg.sample_id_all,
            cfg.sample_type,
        ),
        RecordBody::BpfEvent(b) => h.type_ == RECORD_TYPE_BPF_EVENT && bpf_event::body_matches(
            b,
            s,
            body_pos,
            cfg.sample_id_all,
            cfg.sample_type,
        ),
        RecordBody::Other(bytes) => h.type_ != RECORD_TYPE_SAMPLE && h.type_ != RECORD_TYPE_READ
            && h.type_ != RECORD_TYPE_LOST && h.type_ != RECORD_TYPE_SWITCH && h.type_
            != RECORD_TYPE_BPF_EVENT && bytes@ == s.subrange(body_pos, pos + h.size),
    }
}

/// Decodes one record from the buffered bytes at `start`. `Ok(None)`
/// means no complete record is buffered yet; a decoded record comes back
/// with the position just past it. A header declaring a size below the
/// header's own length, or a body running past the declared size, is a
/// fatal protocol error: continuing would reinterpret acknowledged-bad
/// memory.
pub fn decode_record(cfg: &DecodeConfig, data: &Vec<u8>, start: usize) -> (r: Result<
    Option<(Record, usize)>,
    DecodeError,
>)
    requires
        start <= data@.len(),
    ensures
        match r {
            Ok(None) => !record_available(data@, start as int),
            Ok(Some((rec, next))) => {
                &&& record_available(data@, start as int)
                &&& header_at(data@, start as int).size >= 8
                &&& body_fits(data@, start as int, *cfg)
                &&& record_matches(rec, data@, start as int, *cfg)
                &&& next == start + header_at(data@, start as int).size
            },
            Err(e) => record_available(data@, start as int) && match e {
                DecodeError::HeaderTooSmall => header_at(data@, start as int).size < 8,
                DecodeError::SizeMismatch => header_at(data@, start as int).size >= 8 && !body_fits(
                    data@,
                    start as int,
                    *cfg,
                ),
            },
        },
{
    let len = data.len();
    if len - start < 8 {
        return Ok(None);
    }
    let type_ = le32(data, start);
    let misc = le16(data, start + 4);
    let size16 = le16(data, start + 6);
    let size = size16 as usize;
    if len - start < size {
        return Ok(None);
    }
    if size < 8 {
        return Err(DecodeError::HeaderTooSmall);
    }
    let header = RecordHeader { type_, misc, size: size16 };
    let end = start + size;
    let mut cur = Cursor::new(start + 8, end);
    let body = if type_ == RECORD_TYPE_SAMPLE {
        RecordBody::Sample(sample::Body::from_bytes(data, &mut cur, cfg.sample_type)?)
    } else if type_ == RECORD_TYPE_READ {
        RecordBody::Read(
            read::Body::from_bytes(data, &mut cur, cfg.read_lost, cfg.sample_id_all, cfg.sample_type)?,
        )
    } else if type_ == RECORD_TYPE_LOST {
        RecordBody::Lost(lost::Body::from_bytes(data, &mut cur, cfg.sample_id_all, cfg.sample_type)?)
    } else if type_ == RECORD_TYPE_SWITCH {
        RecordBody::Switch(
            switch::Body::from_bytes(data, &mut cur, cfg.sample_id_all, cfg.sample_type)?,
        )
    } else if type_ == RECORD_TYPE_BPF_EVENT {
        RecordBody::BpfEvent(
            bpf_event::Body::from_bytes(data, &mut cur, cfg.sample_id_all, cfg.sample_type)?,
        )
    } else {
        let mut payload: Vec<u8> = Vec::new();
        let mut k: usize = start + 8;
        while k < end
            invariant
                start + 8 <= k <= end,
                end <= data@.len(),
                payload@.len() == k - (start + 8),
                forall|m: int|
                    0 <= m < payload@.len() ==> payload@[m] == data@[start + 8 + m],
            decreases end - k,
        {
            let b = data[k];
            payload.push(b);
            k = k + 1;
        }
        proof {
            assert(payload@ =~= data@.subrange(start + 8, start as int + size as int));
        }
        RecordBody::Other(payload)
    };
    Ok(Some((Record { header, body }, end)))
}

} // verus!
