//! Counting mode: descriptors for plain event counts, single-counter
//! sessions, and atomic multi-counter groups.

mod config;
mod session;

pub use config::new;
pub use config::Config;
pub use config::ExtraConfig;
pub use config::counting_flag_expected;
pub use config::lemma_capability_gates_counting_flags;
pub use config::lemma_exclusion_bits_are_scope_complement;
pub use session::Counting;
pub use session::CountingGroup;
pub use session::CountingResult;
pub use session::GroupResult;
pub use session::parse_counting_result;
pub use session::parse_group_result;
pub use session::lemma_enable_disable_idempotent;
