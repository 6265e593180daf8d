//! Decoding of the self-describing, bitmask-driven, variable-length record
//! stream the kernel writes into the ring buffer. A record carries no
//! schema: which optional sub-fields are present, and in what order, is
//! determined purely by the selector mask captured when the descriptor was
//! built, so every decoder here walks presence-gated fields strictly in
//! the kernel's packing order and refuses any read past the record's
//! declared total size.

mod cursor;
mod decode;

pub mod bpf_event;
pub mod bpf_event_raw;
pub mod lost;
pub mod read;
pub mod sample;
pub mod sample_id;
pub mod switch;

pub use cursor::le16_at;
pub use cursor::le32_at;
pub use cursor::le64_at;
pub use cursor::le16;
pub use cursor::le32;
pub use cursor::le64;
pub use cursor::Cursor;
pub use decode::body_fits;
pub use decode::decode_record;
pub use decode::header_at;
pub use decode::record_available;
pub use decode::record_matches;
pub use decode::DecodeConfig;
pub use decode::Record;
pub use decode::RecordBody;
pub use decode::RecordHeader;
pub use decode::RECORD_TYPE_BPF_EVENT;
pub use decode::RECORD_TYPE_LOST;
pub use decode::RECORD_TYPE_READ;
pub use decode::RECORD_TYPE_SAMPLE;
pub use decode::RECORD_TYPE_SWITCH;
pub use sample::Weight;
pub use sample::WeightRepr;
pub use sample_id::SampleId;
