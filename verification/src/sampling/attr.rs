//! Construction of the binary attribute descriptor for sampling mode. The
//! selector mask is set bit by bit, one bit per field opted into, each
//! field honored only when the capability set has its kernel feature; the
//! overflow trigger is a fixed period or a target frequency, never both;
//! and the descriptor carries the selector mask so the decoder can later
//! interpret records without re-deriving it.

use vstd::prelude::*;
use crate::bits::{bit64, set_bit64};
use crate::capability::{cap_has, CapabilitySet};
use crate::event::{event_config, event_type_id, Event};
use crate::raw_attr::{
    attr_size, build_read_format, read_format_expected, spec_attr_size, RawAttr, FLAG_DISABLED,
    FLAG_ENABLE_ON_EXEC, FLAG_FREQ, FLAG_INHERIT, FLAG_INHERIT_STAT, FLAG_INHERIT_THREAD,
    FLAG_PINNED, FLAG_REMOVE_ON_EXEC, FLAG_SAMPLE_ID_ALL, FLAG_EXCLUSIVE, SAMPLE_BIT_ADDR,
    SAMPLE_BIT_CALLCHAIN, SAMPLE_BIT_CGROUP, SAMPLE_BIT_CODE_PAGE_SIZE, SAMPLE_BIT_CPU,
    SAMPLE_BIT_DATA_PAGE_SIZE, SAMPLE_BIT_DATA_SRC, SAMPLE_BIT_ID, SAMPLE_BIT_PERIOD,
    SAMPLE_BIT_PHYS_ADDR, SAMPLE_BIT_STREAM_ID, SAMPLE_BIT_TID, SAMPLE_BIT_TIME,
    SAMPLE_BIT_TRANSACTION, SAMPLE_BIT_WEIGHT, SAMPLE_BIT_WEIGHT_STRUCT,
};
use crate::record::WeightRepr;
use crate::scope::{apply_scopes, is_scope_exclude_bit, scope_exclude_bit, EventScope};

verus! {

/// The kernel's overflow-trigger mode: capture after every `Period`
/// occurrences of the event, or aim for `Freq` captures per second.
#[derive(Clone, Copy, Debug, PartialEq, Eq, Structural)]
pub enum OverflowBy {
    Period(u64),
    Freq(u64),
}

/// Per-field opt-in selection of what each sample record carries. Every
/// field is off by default; a field whose kernel feature the capability
/// set lacks stays off however it is requested.
#[derive(Clone, Copy, Debug, PartialEq, Eq, Structural)]
pub struct SampleRecordFields {
    /// Process and thread id of the sampled context.
    pub pid_and_tid: bool,
    /// Timestamp of the capture.
    pub time: bool,
    /// Address the sampled instruction touched.
    pub addr: bool,
    /// Counter id.
    pub id: bool,
    /// Stream id.
    pub stream_id: bool,
    /// CPU the capture happened on.
    pub cpu: bool,
    /// The period value current at the capture.
    pub period: bool,
    /// Instruction-pointer call chain, captured up to this depth.
    pub ips: Option<u16>,
    /// Memory-access weight, in the chosen representation.
    pub weight: Option<WeightRepr>,
    /// Data-source descriptor of a memory access.
    pub data_src: bool,
    /// Memory-transaction abort descriptor.
    pub transaction: bool,
    /// Physical address of a memory access.
    pub phys_addr: bool,
    /// Cgroup id of the sampled context.
    pub cgroup: bool,
    /// Page size backing the sampled data address.
    pub data_page_size: bool,
    /// Page size backing the sampled instruction address.
    pub code_page_size: bool,
}

impl Default for SampleRecordFields {
    /// Every field off.
    fn default() -> (r: SampleRecordFields)
        ensures
            r == SampleRecordFields::spec_default(),
    {
        SampleRecordFields {
            pid_and_tid: false,
            time: false,
            addr: false,
            id: false,
            stream_id: false,
            cpu: false,
            period: false,
            ips: None,
            weight: None,
            data_src: false,
            transaction: false,
            phys_addr: false,
            cgroup: false,
            data_page_size: false,
            code_page_size: false,
        }
    }
}

impl SampleRecordFields {
    /// The selection with every field off.
    pub open spec fn spec_default() -> SampleRecordFields {
        SampleRecordFields {
            pid_and_tid: false,
            time: false,
            addr: false,
            id: false,
            stream_id: false,
            cpu: false,
            period: false,
            ips: None,
            weight: None,
            data_src: false,
            transaction: false,
            phys_addr: false,
            cgroup: false,
            data_page_size: false,
            code_page_size: false,
        }
    }
}

/// Optional sampling behaviour: the same capability-gated toggles as
/// counting mode, the request to trail a sample id block after every
/// record kind, and the per-field record selection.
#[derive(Clone, Copy, Debug, PartialEq, Eq, Structural)]
pub struct ExtraConfig {
    pub inherit: bool,
    pub pinned: bool,
    pub exclusive: bool,
    pub inherit_stat: bool,
    pub enable_on_exec: bool,
    pub inherit_thread: bool,
    pub remove_on_exec: bool,
    /// Attach the sample id block to every record kind, not only to
    /// samples.
    pub sample_id_all: bool,
    pub sample_record_fields: SampleRecordFields,
}

impl Default for ExtraConfig {
    /// Every toggle off and every record field off.
    fn default() -> (r: ExtraConfig)
        ensures
            r == ExtraConfig::spec_default(),
    {
        ExtraConfig {
            inherit: false,
            pinned: false,
            exclusive: false,
            inherit_stat: false,
            enable_on_exec: false,
            inherit_thread: false,
            remove_on_exec: false,
            sample_id_all: false,
            sample_record_fields: SampleRecordFields::default(),
        }
    }
}

impl ExtraConfig {
    /// The configuration with every toggle and field off.
    pub open spec fn spec_default() -> ExtraConfig {
        ExtraConfig {
            inherit: false,
            pinned: false,
            exclusive: false,
            inherit_stat: false,
            enable_on_exec: false,
            inherit_thread: false,
            remove_on_exec: false,
            sample_id_all: false,
            sample_record_fields: SampleRecordFields::spec_default(),
        }
    }
}

/// The expected value of selector-mask bit `j` for the field selection
/// `f` under `caps`: one bit per opted-in field, and no bit whose kernel
/// feature is absent.
pub open spec fn sample_type_expected(j: u64, f: SampleRecordFields, caps: CapabilitySet) -> bool {
    if j == SAMPLE_BIT_TID {
        f.pid_and_tid
    } else if j == SAMPLE_BIT_TIME {
        f.time
    } else if j == SAMPLE_BIT_ADDR {
        f.addr
    } else if j == SAMPLE_BIT_ID {
        f.id
    } else if j == SAMPLE_BIT_STREAM_ID {
        f.stream_id
    } else if j == SAMPLE_BIT_CPU {
        f.cpu
    } else if j == SAMPLE_BIT_PERIOD {
        f.period
    } else if j == SAMPLE_BIT_CALLCHAIN {
        f.ips is Some
    } else if j == SAMPLE_BIT_WEIGHT {
        f.weight == Some(WeightRepr::Full)
    } else if j == SAMPLE_BIT_WEIGHT_STRUCT {
        f.weight == Some(WeightRepr::Vars) && cap_has(caps, 5, 12)
    } else if j == SAMPLE_BIT_DATA_SRC {
        f.data_src
    } else if j == SAMPLE_BIT_TRANSACTION {
        f.transaction
    } else if j == SAMPLE_BIT_PHYS_ADDR {
        f.phys_addr
    } else if j == SAMPLE_BIT_CGROUP {
        f.cgroup && cap_has(caps, 5, 7)
    } else if j == SAMPLE_BIT_DATA_PAGE_SIZE {
        f.data_page_size && cap_has(caps, 5, 11)
    } else if j == SAMPLE_BIT_CODE_PAGE_SIZE {
        f.code_page_size && cap_has(caps, 5, 11)
    } else {
        false
    }
}

/// Builds the ungated half of the selector mask: the fields whose kernel
/// support predates this library's baseline.
fn new_sample_type_fixed(f: &SampleRecordFields) -> (r: u64)
    ensures
        forall|j: u64|
            j < 64 ==> bit64(r, j) == ((j == SAMPLE_BIT_TID && f.pid_and_tid) || (j
                == SAMPLE_BIT_TIME && f.time) || (j == SAMPLE_BIT_ADDR && f.addr) || (j
                == SAMPLE_BIT_ID && f.id) || (j == SAMPLE_BIT_STREAM_ID && f.stream_id) || (j
                == SAMPLE_BIT_CPU && f.cpu) || (j == SAMPLE_BIT_PERIOD && f.period) || (j
                == SAMPLE_BIT_CALLCHAIN && f.ips is Some)),
{
    proof {
        crate::bits::lemma_bit64_zero();
    }
    let mut st: u64 = 0;
    st = set_bit64(st, SAMPLE_BIT_TID, f.pid_and_tid);
    st = set_bit64(st, SAMPLE_BIT_TIME, f.time);
    st = set_bit64(st, SAMPLE_BIT_ADDR, f.addr);
    st = set_bit64(st, SAMPLE_BIT_ID, f.id);
    st = set_bit64(st, SAMPLE_BIT_STREAM_ID, f.stream_id);
    st = set_bit64(st, SAMPLE_BIT_CPU, f.cpu);
    st = set_bit64(st, SAMPLE_BIT_PERIOD, f.period);
    st = set_bit64(st, SAMPLE_BIT_CALLCHAIN, f.ips.is_some());
    st
}

/// Builds the selector mask for the field selection `f` under `caps`.
#[verifier::rlimit(100)]
pub fn new_sample_type(f: &SampleRecordFields, caps: &CapabilitySet) -> (r: u64)
    ensures
        forall|j: u64| j < 64 ==> bit64(r, j) == sample_type_expected(j, *f, *caps),
{
    let weight_full = match f.weight {
        Some(WeightRepr::Full) => true,
        _ => false,
    };
    let weight_vars = match f.weight {
        Some(WeightRepr::Vars) => true,
        _ => false,
    };
    let mut st: u64 = new_sample_type_fixed(f);
    st = set_bit64(st, SAMPLE_BIT_WEIGHT, weight_full);
    st = set_bit64(st, SAMPLE_BIT_WEIGHT_STRUCT, weight_vars && caps.has(5, 12));
    st = set_bit64(st, SAMPLE_BIT_DATA_SRC, f.data_src);
    st = set_bit64(st, SAMPLE_BIT_TRANSACTION, f.transaction);
    st = set_bit64(st, SAMPLE_BIT_PHYS_ADDR, f.phys_addr);
    st = set_bit64(st, SAMPLE_BIT_CGROUP, f.cgroup && caps.has(5, 7));
    st = set_bit64(st, SAMPLE_BIT_DATA_PAGE_SIZE, f.data_page_size && caps.has(5, 11));
    st = set_bit64(st, SAMPLE_BIT_CODE_PAGE_SIZE, f.code_page_size && caps.has(5, 11));
    st
}

/// The expected value of flag bit `j` in a sampling descriptor: the
/// counter starts disabled; the frequency flag follows the overflow
/// mode; exclusion bits follow the scope set; toggles appear only with
/// their kernel feature present; every other bit is clear.
pub open spec fn sampling_flag_expected(
    j: u64,
    extra: ExtraConfig,
    scopes: Seq<EventScope>,
    caps: CapabilitySet,
    is_freq: bool,
) -> bool {
    if j == FLAG_DISABLED {
        true
    } else if j == FLAG_INHERIT {
        extra.inherit
    } else if j == FLAG_PINNED {
        extra.pinned
    } else if j == FLAG_EXCLUSIVE {
        extra.exclusive
    } else if j == FLAG_FREQ {
        is_freq
    } else if j == FLAG_INHERIT_STAT {
        extra.inherit_stat
    } else if j == FLAG_ENABLE_ON_EXEC {
        extra.enable_on_exec
    } else if j == FLAG_SAMPLE_ID_ALL {
        extra.sample_id_all
    } else if j == FLAG_INHERIT_THREAD {
        extra.inherit_thread && cap_has(caps, 5, 13)
    } else if j == FLAG_REMOVE_ON_EXEC {
        extra.remove_on_exec && cap_has(caps, 5, 13)
    } else if j == crate::raw_attr::FLAG_EXCLUDE_USER {
        !scopes.contains(EventScope::User)
    } else if j == crate::raw_attr::FLAG_EXCLUDE_KERNEL {
        !scopes.contains(EventScope::Kernel)
    } else if j == crate::raw_attr::FLAG_EXCLUDE_HV {
        !scopes.contains(EventScope::Hv)
    } else if j == crate::raw_attr::FLAG_EXCLUDE_IDLE {
        !scopes.contains(EventScope::Idle)
    } else if j == crate::raw_attr::FLAG_EXCLUDE_HOST {
        !scopes.contains(EventScope::Host)
    } else if j == crate::raw_attr::FLAG_EXCLUDE_GUEST {
        !scopes.contains(EventScope::Guest)
    } else if j == crate::raw_attr::FLAG_EXCLUDE_CALLCHAIN_KERNEL {
        !scopes.contains(EventScope::CallchainKernel)
    } else if j == crate::raw_attr::FLAG_EXCLUDE_CALLCHAIN_USER {
        !scopes.contains(EventScope::CallchainUser)
    } else {
        false
    }
}

/// A built sampling-mode descriptor, immutable once constructed; normal
/// construction goes only through `new`, with `from_raw` as the escape
/// hatch for advanced callers.
#[derive(Clone, Copy, Debug, PartialEq, Eq, Structural)]
pub struct Attr {
    raw_attr: RawAttr,
}

impl Attr {
    /// The underlying binary descriptor.
    pub closed spec fn raw(self) -> RawAttr {
        self.raw_attr
    }

    /// Builds the sampling-mode descriptor for one event, scope set,
    /// overflow mode and option set under the resolved capability set.
    /// Building never fails: it is a pure data transformation, and
    /// downstream failures surface only when the descriptor is handed to
    /// the kernel.
    #[verifier::rlimit(100)]
    pub fn new(
        event: &Event,
        scopes: &Vec<EventScope>,
        overflow_by: OverflowBy,
        extra_config: &ExtraConfig,
        caps: &CapabilitySet,
    ) -> (r: Attr)
        ensures
            r.raw().type_ == event_type_id(*event),
            r.raw().config == event_config(*event),
            r.raw().size == spec_attr_size(*caps),
            r.raw().sample_period_or_freq == (match overflow_by {
                OverflowBy::Period(p) => p,
                OverflowBy::Freq(f) => f,
            }),
            forall|j: u64| j < 64 ==> bit64(r.raw().sample_type, j) == sample_type_expected(
                j,
                extra_config.sample_record_fields,
                *caps,
            ),
            forall|j: u64| j < 64 ==> bit64(r.raw().read_format, j) == read_format_expected(
                j,
                *caps,
            ),
            forall|j: u64| j < 64 ==> bit64(r.raw().flags, j) == sampling_flag_expected(
                j,
                *extra_config,
                scopes@,
                *caps,
                overflow_by is Freq,
            ),
            forall|s: EventScope| #[trigger] bit64(r.raw().flags, scope_exclude_bit(s))
                == !scopes@.contains(s),
            r.raw().sample_max_stack == (match extra_config.sample_record_fields.ips {
                Some(depth) => if cap_has(*caps, 4, 8) {
                    depth
                } else {
                    0
                },
                None => 0,
            }),
            r.raw() == (RawAttr {
                type_: r.raw().type_,
                size: r.raw().size,
                config: r.raw().config,
                sample_period_or_freq: r.raw().sample_period_or_freq,
                sample_type: r.raw().sample_type,
                read_format: r.raw().read_format,
                flags: r.raw().flags,
                sample_max_stack: r.raw().sample_max_stack,
                ..RawAttr::spec_zeroed()
            }),
    {
        let mut attr = RawAttr::zeroed();
        let (type_, config) = event.type_and_config();
        attr.type_ = type_;
        attr.config = config;
        attr.size = attr_size(caps);
        attr.sample_period_or_freq = match overflow_by {
            OverflowBy::Period(p) => p,
            OverflowBy::Freq(f) => f,
        };
        attr.sample_type = new_sample_type(&extra_config.sample_record_fields, caps);
        attr.read_format = build_read_format(caps);
        attr.sample_max_stack = match extra_config.sample_record_fields.ips {
            Some(depth) => if caps.has(4, 8) {
                depth
            } else {
                0
            },
            None => 0,
        };

        proof {
            crate::bits::lemma_bit64_zero();
        }
        let is_freq = match overflow_by {
            OverflowBy::Freq(_) => true,
            _ => false,
        };
        let mut flags: u64 = 0;
        flags = set_bit64(flags, FLAG_DISABLED, true);
        flags = set_bit64(flags, FLAG_INHERIT, extra_config.inherit);
        flags = set_bit64(flags, FLAG_PINNED, extra_config.pinned);
        flags = set_bit64(flags, FLAG_EXCLUSIVE, extra_config.exclusive);
        flags = set_bit64(flags, crate::raw_attr::FLAG_EXCLUDE_USER, true);
        flags = set_bit64(flags, crate::raw_attr::FLAG_EXCLUDE_KERNEL, true);
        flags = set_bit64(flags, crate::raw_attr::FLAG_EXCLUDE_HV, true);
        flags = set_bit64(flags, crate::raw_attr::FLAG_EXCLUDE_IDLE, true);
        flags = set_bit64(flags, FLAG_FREQ, is_freq);
        flags = set_bit64(flags, FLAG_INHERIT_STAT, extra_config.inherit_stat);
        flags = set_bit64(flags, FLAG_ENABLE_ON_EXEC, extra_config.enable_on_exec);
        flags = set_bit64(flags, FLAG_SAMPLE_ID_ALL, extra_config.sample_id_all);
        flags = set_bit64(flags, crate::raw_attr::FLAG_EXCLUDE_HOST, true);
        flags = set_bit64(flags, crate::raw_attr::FLAG_EXCLUDE_GUEST, true);
        flags = set_bit64(flags, crate::raw_attr::FLAG_EXCLUDE_CALLCHAIN_KERNEL, true);
        flags = set_bit64(flags, crate::raw_attr::FLAG_EXCLUDE_CALLCHAIN_USER, true);
        flags = set_bit64(
            flags,
            FLAG_INHERIT_THREAD,
            extra_config.inherit_thread && caps.has(5, 13),
        );
        flags = set_bit64(
            flags,
            FLAG_REMOVE_ON_EXEC,
            extra_config.remove_on_exec && caps.has(5, 13),
        );

        let ghost flags_before_scopes = flags;
        flags = apply_scopes(flags, scopes);
        proof {
            crate::scope::lemma_scope_exclude_bits();
            assert forall|j: u64| j < 64 implies bit64(flags, j) == sampling_flag_expected(
                j,
                *extra_config,
                scopes@,
                *caps,
                overflow_by is Freq,
            ) by {
                assert(bit64(flags, scope_exclude_bit(EventScope::User)) == (bit64(
                    flags_before_scopes,
                    scope_exclude_bit(EventScope::User),
                ) && !scopes@.contains(EventScope::User)));
                assert(bit64(flags, scope_exclude_bit(EventScope::Kernel)) == (bit64(
                    flags_before_scopes,
                    scope_exclude_bit(EventScope::Kernel),
                ) && !scopes@.contains(EventScope::Kernel)));
                assert(bit64(flags, scope_exclude_bit(EventScope::Hv)) == (bit64(
                    flags_before_scopes,
                    scope_exclude_bit(EventScope::Hv),
                ) && !scopes@.contains(EventScope::Hv)));
                assert(bit64(flags, scope_exclude_bit(EventScope::Idle)) == (bit64(
                    flags_before_scopes,
                    scope_exclude_bit(EventScope::Idle),
                ) && !scopes@.contains(EventScope::Idle)));
                assert(bit64(flags, scope_exclude_bit(EventScope::Host)) == (bit64(
                    flags_before_scopes,
                    scope_exclude_bit(EventScope::Host),
                ) && !scopes@.contains(EventScope::Host)));
                assert(bit64(flags, scope_exclude_bit(EventScope::Guest)) == (bit64(
                    flags_before_scopes,
                    scope_exclude_bit(EventScope::Guest),
                ) && !scopes@.contains(EventScope::Guest)));
                assert(bit64(flags, scope_exclude_bit(EventScope::CallchainKernel)) == (bit64(
                    flags_before_scopes,
                    scope_exclude_bit(EventScope::CallchainKernel),
                ) && !scopes@.contains(EventScope::CallchainKernel)));
                assert(bit64(flags, scope_exclude_bit(EventScope::CallchainUser)) == (bit64(
                    flags_before_scopes,
                    scope_exclude_bit(EventScope::CallchainUser),
                ) && !scopes@.contains(EventScope::CallchainUser)));
                if !is_scope_exclude_bit(j) {
                    assert(bit64(flags, j) == bit64(flags_before_scopes, j));
                }
            }
            assert forall|s: EventScope| #[trigger] bit64(flags, scope_exclude_bit(s))
                == !scopes@.contains(s) by {
                match s {
                    EventScope::User => {},
                    EventScope::Kernel => {},
                    EventScope::Hv => {},
                    EventScope::Idle => {},
                    EventScope::Host => {},
                    EventScope::Guest => {},
                    EventScope::CallchainKernel => {},
                    EventScope::CallchainUser => {},
                }
            }
        }
        attr.flags = flags;
        Attr { raw_attr: attr }
    }

    /// Wraps a caller-supplied binary descriptor without interpretation:
    /// the escape hatch for advanced callers, who are themselves
    /// responsible for its field combinations being legal for the target
    /// kernel.
    pub fn from_raw(raw_attr: RawAttr) -> (r: Attr)
        ensures
            r.raw() == raw_attr,
    {
        Attr { raw_attr }
    }

    /// Hands out the underlying binary descriptor.
    pub fn into_raw(self) -> (r: RawAttr)
        ensures
            r == self.raw(),
    {
        self.raw_attr
    }
}

/// For every capability set lacking a feature, the built selector mask
/// never carries a bit gated solely by that feature, however the field
/// selection requests it. The hypothesis is the mask characterization
/// that `new_sample_type` and `Attr::new` establish.
pub proof fn lemma_capability_gates_sample_type(st: u64, f: SampleRecordFields, caps: CapabilitySet)
    requires
        forall|j: u64| j < 64 ==> bit64(st, j) == sample_type_expected(j, f, caps),
    ensures
        !cap_has(caps, 5, 12) ==> !bit64(st, SAMPLE_BIT_WEIGHT_STRUCT),
        !cap_has(caps, 5, 7) ==> !bit64(st, SAMPLE_BIT_CGROUP),
        !cap_has(caps, 5, 11) ==> !bit64(st, SAMPLE_BIT_DATA_PAGE_SIZE),
        !cap_has(caps, 5, 11) ==> !bit64(st, SAMPLE_BIT_CODE_PAGE_SIZE),
{
}

/// For every capability set lacking the inheritance-control feature of
/// version 5.13, the built sampling descriptor leaves the inherit-thread
/// and remove-on-exec bits clear for every option set. The hypothesis is
/// the flag characterization that `Attr::new` establishes.
pub proof fn lemma_capability_gates_sampling_flags(
    flags: u64,
    extra: ExtraConfig,
    scopes: Seq<EventScope>,
    caps: CapabilitySet,
    is_freq: bool,
)
    requires
        forall|j: u64|
            j < 64 ==> bit64(flags, j) == sampling_flag_expected(j, extra, scopes, caps, is_freq),
        !cap_has(caps, 5, 13),
    ensures
        !bit64(flags, FLAG_INHERIT_THREAD),
        !bit64(flags, FLAG_REMOVE_ON_EXEC),
{
}

/// For every scope set, the built sampling descriptor's exclusion bits
/// are exactly the complement of the set within the full
/// exclusion-domain set. The hypothesis is the flag characterization that
/// `Attr::new` establishes.
pub proof fn lemma_sampling_exclusion_bits_are_scope_complement(
    flags: u64,
    extra: ExtraConfig,
    scopes: Seq<EventScope>,
    caps: CapabilitySet,
    is_freq: bool,
)
    requires
        forall|j: u64|
            j < 64 ==> bit64(flags, j) == sampling_flag_expected(j, extra, scopes, caps, is_freq),
    ensures
        forall|s: EventScope| #[trigger] bit64(flags, scope_exclude_bit(s)) == !scopes.contains(s),
{
    assert forall|s: EventScope| #[trigger] bit64(flags, scope_exclude_bit(s)) == !scopes.contains(
        s,
    ) by {
        match s {
            EventScope::User => {},
            EventScope::Kernel => {},
            EventScope::Hv => {},
            EventScope::Idle => {},
            EventScope::Host => {},
            EventScope::Guest => {},
            EventScope::CallchainKernel => {},
            EventScope::CallchainUser => {},
        }
    }
}

} // verus!
