//! Plain-field model of the kernel's binary attribute descriptor
//! (`perf_event_attr`). Each field holds exactly the value that is written
//! into the corresponding slot of the kernel struct when a descriptor is
//! opened; the packed flag bitfield is modelled as one 64-bit word whose
//! bit positions follow the kernel's declaration order.

use vstd::prelude::*;
use crate::bits::{bit64, set_bit64};
use crate::capability::{cap_has, CapabilitySet};

verus! {

// Event type discriminants (`perf_type_id`).
pub const PERF_TYPE_HARDWARE: u32 = 0;

pub const PERF_TYPE_SOFTWARE: u32 = 1;

pub const PERF_TYPE_TRACEPOINT: u32 = 2;

pub const PERF_TYPE_HW_CACHE: u32 = 3;

pub const PERF_TYPE_RAW: u32 = 4;

// Bit positions inside the descriptor's packed flag word, in the kernel's
// declaration order. `precise_ip` occupies bits 15 and 16; this library
// always leaves it zero.
pub const FLAG_DISABLED: u64 = 0;

pub const FLAG_INHERIT: u64 = 1;

pub const FLAG_PINNED: u64 = 2;

pub const FLAG_EXCLUSIVE: u64 = 3;

pub const FLAG_EXCLUDE_USER: u64 = 4;

pub const FLAG_EXCLUDE_KERNEL: u64 = 5;

pub const FLAG_EXCLUDE_HV: u64 = 6;

pub const FLAG_EXCLUDE_IDLE: u64 = 7;

pub const FLAG_MMAP: u64 = 8;

pub const FLAG_COMM: u64 = 9;

pub const FLAG_FREQ: u64 = 10;

pub const FLAG_INHERIT_STAT: u64 = 11;

pub const FLAG_ENABLE_ON_EXEC: u64 = 12;

pub const FLAG_TASK: u64 = 13;

pub const FLAG_WATERMARK: u64 = 14;

pub const FLAG_MMAP_DATA: u64 = 17;

pub const FLAG_SAMPLE_ID_ALL: u64 = 18;

pub const FLAG_EXCLUDE_HOST: u64 = 19;

pub const FLAG_EXCLUDE_GUEST: u64 = 20;

pub const FLAG_EXCLUDE_CALLCHAIN_KERNEL: u64 = 21;

pub const FLAG_EXCLUDE_CALLCHAIN_USER: u64 = 22;

pub const FLAG_MMAP2: u64 = 23;

pub const FLAG_COMM_EXEC: u64 = 24;

pub const FLAG_USE_CLOCKID: u64 = 25;

pub const FLAG_CONTEXT_SWITCH: u64 = 26;

pub const FLAG_WRITE_BACKWARD: u64 = 27;

pub const FLAG_NAMESPACES: u64 = 28;

pub const FLAG_KSYMBOL: u64 = 29;

pub const FLAG_BPF_EVENT: u64 = 30;

pub const FLAG_AUX_OUTPUT: u64 = 31;

pub const FLAG_CGROUP: u64 = 32;

pub const FLAG_TEXT_POKE: u64 = 33;

pub const FLAG_BUILD_ID: u64 = 34;

pub const FLAG_INHERIT_THREAD: u64 = 35;

pub const FLAG_REMOVE_ON_EXEC: u64 = 36;

pub const FLAG_SIGTRAP: u64 = 37;

// Bit positions inside the sample selector mask (`perf_event_sample_format`).
pub const SAMPLE_BIT_IP: u64 = 0;

pub const SAMPLE_BIT_TID: u64 = 1;

pub const SAMPLE_BIT_TIME: u64 = 2;

pub const SAMPLE_BIT_ADDR: u64 = 3;

pub const SAMPLE_BIT_READ: u64 = 4;

pub const SAMPLE_BIT_CALLCHAIN: u64 = 5;

pub const SAMPLE_BIT_ID: u64 = 6;

pub const SAMPLE_BIT_CPU: u64 = 7;

pub const SAMPLE_BIT_PERIOD: u64 = 8;

pub const SAMPLE_BIT_STREAM_ID: u64 = 9;

pub const SAMPLE_BIT_RAW: u64 = 10;

pub const SAMPLE_BIT_WEIGHT: u64 = 14;

pub const SAMPLE_BIT_DATA_SRC: u64 = 15;

pub const SAMPLE_BIT_IDENTIFIER: u64 = 16;

pub const SAMPLE_BIT_TRANSACTION: u64 = 17;

pub const SAMPLE_BIT_PHYS_ADDR: u64 = 19;

pub const SAMPLE_BIT_AUX: u64 = 20;

pub const SAMPLE_BIT_CGROUP: u64 = 21;

pub const SAMPLE_BIT_DATA_PAGE_SIZE: u64 = 22;

pub const SAMPLE_BIT_CODE_PAGE_SIZE: u64 = 23;

pub const SAMPLE_BIT_WEIGHT_STRUCT: u64 = 24;

// Bit positions inside the read format mask (`perf_event_read_format`).
pub const READ_BIT_TOTAL_TIME_ENABLED: u64 = 0;

pub const READ_BIT_TOTAL_TIME_RUNNING: u64 = 1;

pub const READ_BIT_ID: u64 = 2;

pub const READ_BIT_GROUP: u64 = 3;

pub const READ_BIT_LOST: u64 = 4;

// Byte sizes of the kernel struct at the layout revisions this library can
// target. The kernel validates the size field for backward-compatible
// extension, so it must match the layout the capability set selects.
pub const ATTR_SIZE_VER5: u32 = 112;

pub const ATTR_SIZE_VER6: u32 = 120;

pub const ATTR_SIZE_VER7: u32 = 128;

pub const ATTR_SIZE_VER8: u32 = 136;

/// The read format this library always requests: grouped,
/// time-normalized, identified reads, plus the lost-event count where the
/// kernel supports reporting it.
pub open spec fn read_format_expected(j: u64, caps: CapabilitySet) -> bool {
    j == READ_BIT_TOTAL_TIME_ENABLED || j == READ_BIT_TOTAL_TIME_RUNNING || j == READ_BIT_ID || j
        == READ_BIT_GROUP || (j == READ_BIT_LOST && cap_has(caps, 6, 0))
}

/// Builds the read format mask: grouped, time-normalized, identified
/// reads, with the lost-event count when the capability set has it.
pub fn build_read_format(caps: &CapabilitySet) -> (r: u64)
    ensures
        forall|j: u64| j < 64 ==> bit64(r, j) == read_format_expected(j, *caps),
{
    proof {
        crate::bits::lemma_bit64_zero();
    }
    let mut w: u64 = 0;
    w = set_bit64(w, READ_BIT_TOTAL_TIME_ENABLED, true);
    w = set_bit64(w, READ_BIT_TOTAL_TIME_RUNNING, true);
    w = set_bit64(w, READ_BIT_ID, true);
    w = set_bit64(w, READ_BIT_GROUP, true);
    w = set_bit64(w, READ_BIT_LOST, caps.has(6, 0));
    w
}

/// The declared descriptor size the capability set selects: the byte size
/// of the newest kernel struct layout whose fields the set permits.
pub open spec fn spec_attr_size(caps: crate::capability::CapabilitySet) -> u32 {
    if crate::capability::cap_has(caps, 6, 3) {
        ATTR_SIZE_VER8
    } else if crate::capability::cap_has(caps, 5, 13) {
        ATTR_SIZE_VER7
    } else if crate::capability::cap_has(caps, 5, 5) {
        ATTR_SIZE_VER6
    } else {
        ATTR_SIZE_VER5
    }
}

/// Selects the declared descriptor size for the resolved capability set.
pub fn attr_size(caps: &crate::capability::CapabilitySet) -> (r: u32)
    ensures
        r == spec_attr_size(*caps),
{
    if caps.has(6, 3) {
        ATTR_SIZE_VER8
    } else if caps.has(5, 13) {
        ATTR_SIZE_VER7
    } else if caps.has(5, 5) {
        ATTR_SIZE_VER6
    } else {
        ATTR_SIZE_VER5
    }
}

/// The resolved binary attribute descriptor, one plain field per slot of
/// the kernel struct. The anonymous unions of the kernel layout appear
/// under the member that this library uses.
#[derive(Clone, Copy, Debug, PartialEq, Eq, Structural)]
pub struct RawAttr {
    /// Event type discriminant (`type`).
    pub type_: u32,
    /// Declared byte size of the descriptor.
    pub size: u32,
    /// Event configuration value.
    pub config: u64,
    /// Overflow threshold: `sample_period`, or `sample_freq` when the
    /// `freq` flag bit is set.
    pub sample_period_or_freq: u64,
    /// Selector mask deciding which optional fields each sample carries.
    pub sample_type: u64,
    /// Layout of the value block a `read` on the descriptor returns.
    pub read_format: u64,
    /// The packed boolean flag bitfield.
    pub flags: u64,
    /// `wakeup_events`/`wakeup_watermark` union.
    pub wakeup_events_or_watermark: u32,
    /// Breakpoint type (unused by this library).
    pub bp_type: u32,
    /// `bp_addr`/`kprobe_func`/`uprobe_path`/`config1` union.
    pub bp_addr_or_config1: u64,
    /// `bp_len`/`kprobe_addr`/`probe_offset`/`config2` union.
    pub bp_len_or_config2: u64,
    pub branch_sample_type: u64,
    pub sample_regs_user: u64,
    pub sample_stack_user: u32,
    pub clockid: i32,
    pub sample_regs_intr: u64,
    pub aux_watermark: u32,
    /// Maximum call-chain depth recorded per sample.
    pub sample_max_stack: u16,
    pub aux_sample_size: u32,
    pub sig_data: u64,
    pub config3: u64,
}

impl RawAttr {
    /// A descriptor with every field zero: the safe default each build
    /// starts from, so that a field is non-zero only where a contract
    /// says so.
    pub fn zeroed() -> (r: RawAttr)
        ensures
            r == RawAttr::spec_zeroed(),
    {
        RawAttr {
            type_: 0,
            size: 0,
            config: 0,
            sample_period_or_freq: 0,
            sample_type: 0,
            read_format: 0,
            flags: 0,
            wakeup_events_or_watermark: 0,
            bp_type: 0,
            bp_addr_or_config1: 0,
            bp_len_or_config2: 0,
            branch_sample_type: 0,
            sample_regs_user: 0,
            sample_stack_user: 0,
            clockid: 0,
            sample_regs_intr: 0,
            aux_watermark: 0,
            sample_max_stack: 0,
            aux_sample_size: 0,
            sig_data: 0,
            config3: 0,
        }
    }

    /// The all-zero descriptor.
    pub open spec fn spec_zeroed() -> RawAttr {
        RawAttr {
            type_: 0,
            size: 0,
            config: 0,
            sample_period_or_freq: 0,
            sample_type: 0,
            read_format: 0,
            flags: 0,
            wakeup_events_or_watermark: 0,
            bp_type: 0,
            bp_addr_or_config1: 0,
            bp_len_or_config2: 0,
            branch_sample_type: 0,
            sample_regs_user: 0,
            sample_stack_user: 0,
            clockid: 0,
            sample_regs_intr: 0,
            aux_watermark: 0,
            sample_max_stack: 0,
            aux_sample_size: 0,
            sig_data: 0,
            config3: 0,
        }
    }
}

} // verus!
