//! Structured, versioned access to the Linux performance-counter subsystem:
//! construction of the kernel-facing binary attribute descriptor from a
//! high-level event/scope/option specification gated by a resolved
//! capability set, lifecycle management of counting and sampling sessions,
//! and decoding of the bitmask-driven, variable-length record stream the
//! kernel writes into a ring buffer.
//!
//! The kernel itself (the configuration syscall, the enable/disable/read
//! ioctls, the memory mapping of the ring buffer) is an external
//! collaborator: this crate produces the descriptors and requests handed to
//! it and decodes the bytes it hands back.

pub mod bits;
pub mod builder;
pub mod capability;
pub mod counting;
pub mod error;
pub mod event;
pub mod raw_attr;
pub mod record;
pub mod sampling;
pub mod scope;

pub use bits::bit64;
pub use bits::get_bit64;
pub use bits::set_bit64;
pub use event::Event;
pub use event::HwCache;
pub use event::HwCacheOp;
pub use event::HwCacheResult;
pub use event::HwEvent;
pub use event::RawEvent;
pub use event::SwEvent;
pub use scope::EventScope;
pub use raw_attr::RawAttr;
pub use builder::Builder;
pub use capability::CapabilitySet;
pub use capability::FeatureVersion;
pub use capability::KernelVersion;
pub use capability::Resolution;
pub use error::BuildError;
pub use error::DecodeError;
