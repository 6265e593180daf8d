//! Sampling mode: descriptors whose counters capture contextual data on
//! overflow, and sessions that drain the decoded record stream.

mod attr;
mod session;

pub use attr::new_sample_type;
pub use attr::sample_type_expected;
pub use attr::sampling_flag_expected;
pub use attr::lemma_capability_gates_sample_type;
pub use attr::lemma_capability_gates_sampling_flags;
pub use attr::lemma_sampling_exclusion_bits_are_scope_complement;
pub use attr::Attr;
pub use attr::ExtraConfig;
pub use attr::OverflowBy;
pub use attr::SampleRecordFields;
pub use session::Sampling;
