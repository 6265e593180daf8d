//! Construction of the binary attribute descriptor for counting mode: a
//! pure function from event, scope set, extra options and the resolved
//! capability set to an immutable descriptor value. Counting mode never
//! sets sampling-only fields; the counter always starts disabled so
//! callers control the enable instant precisely; and every domain is
//! excluded unless a scope entry opts it in.

use vstd::prelude::*;
use crate::bits::bit64;
use crate::bits::set_bit64;
use crate::capability::{cap_has, CapabilitySet};
use crate::event::{event_config, event_type_id, Event};
use crate::raw_attr::{
    attr_size, build_read_format, read_format_expected, spec_attr_size, RawAttr, FLAG_DISABLED,
    FLAG_ENABLE_ON_EXEC, FLAG_EXCLUDE_CALLCHAIN_KERNEL, FLAG_EXCLUDE_CALLCHAIN_USER,
    FLAG_EXCLUDE_GUEST, FLAG_EXCLUDE_HOST, FLAG_EXCLUDE_HV, FLAG_EXCLUDE_IDLE,
    FLAG_EXCLUDE_KERNEL, FLAG_EXCLUDE_USER, FLAG_EXCLUSIVE, FLAG_INHERIT, FLAG_INHERIT_STAT,
    FLAG_INHERIT_THREAD, FLAG_PINNED, FLAG_REMOVE_ON_EXEC,
};
use crate::scope::{apply_scopes, is_scope_exclude_bit, scope_exclude_bit, EventScope};

verus! {

/// Optional counting behaviour. Each toggle is honored only when the
/// capability set marks the underlying kernel feature present; an
/// unsupported toggle is silently left at its safe default.
#[derive(Clone, Copy, Debug, PartialEq, Eq, Structural)]
pub struct ExtraConfig {
    /// Count in children spawned after the counter exists.
    pub inherit: bool,
    /// Keep the counter on the CPU whenever the target runs.
    pub pinned: bool,
    /// Be the only counter (group) on the CPU when scheduled.
    pub exclusive: bool,
    /// Fold per-child counts into the parent on inheritance.
    pub inherit_stat: bool,
    /// Start the counter automatically on the next `exec`.
    pub enable_on_exec: bool,
    /// Inherit only to new threads, not to new processes.
    pub inherit_thread: bool,
    /// Remove the counter from the child on `exec`.
    pub remove_on_exec: bool,
}

impl Default for ExtraConfig {
    /// Every toggle off.
    fn default() -> (r: ExtraConfig)
        ensures
            r == ExtraConfig::spec_default(),
    {
        ExtraConfig {
            inherit: false,
            pinned: false,
            exclusive: false,
            inherit_stat: false,
            enable_on_exec: false,
            inherit_thread: false,
            remove_on_exec: false,
        }
    }
}

impl ExtraConfig {
    /// The configuration with every toggle off.
    pub open spec fn spec_default() -> ExtraConfig {
        ExtraConfig {
            inherit: false,
            pinned: false,
            exclusive: false,
            inherit_stat: false,
            enable_on_exec: false,
            inherit_thread: false,
            remove_on_exec: false,
        }
    }
}

/// A built counting-mode descriptor, immutable once constructed.
#[derive(Clone, Copy, Debug, PartialEq, Eq, Structural)]
pub struct Config {
    pub perf_event_attr: RawAttr,
}

/// The expected value of flag bit `j` in a counting descriptor built from
/// `extra`, `scopes` and `caps`: the counter starts disabled; each
/// exclusion bit is set exactly while no scope entry opts its domain in;
/// each toggle appears only with its kernel feature present; every other
/// bit is clear.
pub open spec fn counting_flag_expected(
    j: u64,
    extra: ExtraConfig,
    scopes: Seq<EventScope>,
    caps: CapabilitySet,
) -> bool {
    if j == FLAG_DISABLED {
        true
    } else if j == FLAG_INHERIT {
        extra.inherit
    } else if j == FLAG_PINNED {
        extra.pinned
    } else if j == FLAG_EXCLUSIVE {
        extra.exclusive
    } else if j == FLAG_EXCLUDE_USER {
        !scopes.contains(EventScope::User)
    } else if j == FLAG_EXCLUDE_KERNEL {
        !scopes.contains(EventScope::Kernel)
    } else if j == FLAG_EXCLUDE_HV {
        !scopes.contains(EventScope::Hv)
    } else if j == FLAG_EXCLUDE_IDLE {
        !scopes.contains(EventScope::Idle)
    } else if j == FLAG_INHERIT_STAT {
        extra.inherit_stat
    } else if j == FLAG_ENABLE_ON_EXEC {
        extra.enable_on_exec
    } else if j == FLAG_EXCLUDE_HOST {
        !scopes.contains(EventScope::Host)
    } else if j == FLAG_EXCLUDE_GUEST {
        !scopes.contains(EventScope::Guest)
    } else if j == FLAG_EXCLUDE_CALLCHAIN_KERNEL {
        !scopes.contains(EventScope::CallchainKernel)
    } else if j == FLAG_EXCLUDE_CALLCHAIN_USER {
        !scopes.contains(EventScope::CallchainUser)
    } else if j == FLAG_INHERIT_THREAD {
        extra.inherit_thread && cap_has(caps, 5, 13)
    } else if j == FLAG_REMOVE_ON_EXEC {
        extra.remove_on_exec && cap_has(caps, 5, 13)
    } else {
        false
    }
}

/// Builds the counting-mode descriptor for one event, scope set and
/// option set under the resolved capability set. Building never fails: it
/// is a pure data transformation, and downstream failures surface only
/// when the descriptor is handed to the kernel.
pub fn new(
    event: &Event,
    scopes: &Vec<EventScope>,
    extra_config: &ExtraConfig,
    caps: &CapabilitySet,
) -> (r: Config)
    ensures
        r.perf_event_attr.type_ == event_type_id(*event),
        r.perf_event_attr.config == event_config(*event),
        r.perf_event_attr.size == spec_attr_size(*caps),
        forall|j: u64| j < 64 ==> bit64(r.perf_event_attr.read_format, j) == read_format_expected(
            j,
            *caps,
        ),
        forall|j: u64| j < 64 ==> bit64(r.perf_event_attr.flags, j) == counting_flag_expected(
            j,
            *extra_config,
            scopes@,
            *caps,
        ),
        r.perf_event_attr == (RawAttr {
            type_: r.perf_event_attr.type_,
            size: r.perf_event_attr.size,
            config: r.perf_event_attr.config,
            read_format: r.perf_event_attr.read_format,
            flags: r.perf_event_attr.flags,
            ..RawAttr::spec_zeroed()
        }),
{
    let mut attr = RawAttr::zeroed();
    let (type_, config) = event.type_and_config();
    attr.type_ = type_;
    attr.config = config;
    attr.size = attr_size(caps);
    attr.read_format = build_read_format(caps);

    proof {
        crate::bits::lemma_bit64_zero();
    }
    let mut flags: u64 = 0;
    flags = set_bit64(flags, FLAG_DISABLED, true);
    flags = set_bit64(flags, FLAG_INHERIT, extra_config.inherit);
    flags = set_bit64(flags, FLAG_PINNED, extra_config.pinned);
    flags = set_bit64(flags, FLAG_EXCLUSIVE, extra_config.exclusive);
    flags = set_bit64(flags, FLAG_EXCLUDE_USER, true);
    flags = set_bit64(flags, FLAG_EXCLUDE_KERNEL, true);
    flags = set_bit64(flags, FLAG_EXCLUDE_HV, true);
    flags = set_bit64(flags, FLAG_EXCLUDE_IDLE, true);
    flags = set_bit64(flags, FLAG_INHERIT_STAT, extra_config.inherit_stat);
    flags = set_bit64(flags, FLAG_ENABLE_ON_EXEC, extra_config.enable_on_exec);
    flags = set_bit64(flags, FLAG_EXCLUDE_HOST, true);
    flags = set_bit64(flags, FLAG_EXCLUDE_GUEST, true);
    flags = set_bit64(flags, FLAG_EXCLUDE_CALLCHAIN_KERNEL, true);
    flags = set_bit64(flags, FLAG_EXCLUDE_CALLCHAIN_USER, true);
    flags = set_bit64(flags, FLAG_INHERIT_THREAD, extra_config.inherit_thread && caps.has(5, 13));
    flags = set_bit64(flags, FLAG_REMOVE_ON_EXEC, extra_config.remove_on_exec && caps.has(5, 13));

    let ghost flags_before_scopes = flags;
    flags = apply_scopes(flags, scopes);
    proof {
        crate::scope::lemma_scope_exclude_bits();
        assert forall|j: u64| j < 64 implies bit64(flags, j) == counting_flag_expected(
            j,
            *extra_config,
            scopes@,
            *caps,
        ) by {
            assert(bit64(flags, scope_exclude_bit(EventScope::User)) == (bit64(
                flags_before_scopes,
                scope_exclude_bit(EventScope::User),
            ) && !scopes@.contains(EventScope::User)));
            assert(bit64(flags, scope_exclude_bit(EventScope::Kernel)) == (bit64(
                flags_before_scopes,
                scope_exclude_bit(EventScope::Kernel),
            ) && !scopes@.contains(EventScope::Kernel)));
            assert(bit64(flags, scope_exclude_bit(EventScope::Hv)) == (bit64(
                flags_before_scopes,
                scope_exclude_bit(EventScope::Hv),
            ) && !scopes@.contains(EventScope::Hv)));
            assert(bit64(flags, scope_exclude_bit(EventScope::Idle)) == (bit64(
                flags_before_scopes,
                scope_exclude_bit(EventScope::Idle),
            ) && !scopes@.contains(EventScope::Idle)));
            assert(bit64(flags, scope_exclude_bit(EventScope::Host)) == (bit64(
                flags_before_scopes,
                scope_exclude_bit(EventScope::Host),
            ) && !scopes@.contains(EventScope::Host)));
            assert(bit64(flags, scope_exclude_bit(EventScope::Guest)) == (bit64(
                flags_before_scopes,
                scope_exclude_bit(EventScope::Guest),
            ) && !scopes@.contains(EventScope::Guest)));
            assert(bit64(flags, scope_exclude_bit(EventScope::CallchainKernel)) == (bit64(
                flags_before_scopes,
                scope_exclude_bit(EventScope::CallchainKernel),
            ) && !scopes@.contains(EventScope::CallchainKernel)));
            assert(bit64(flags, scope_exclude_bit(EventScope::CallchainUser)) == (bit64(
                flags_before_scopes,
                scope_exclude_bit(EventScope::CallchainUser),
            ) && !scopes@.contains(EventScope::CallchainUser)));
            if !is_scope_exclude_bit(j) {
                assert(bit64(flags, j) == bit64(flags_before_scopes, j));
            }
        }
    }
    attr.flags = flags;
    Config { perf_event_attr: attr }
}

/// For every scope set, the built descriptor's exclusion bits are exactly
/// the complement of the set within the full exclusion-domain set: a
/// domain is excluded precisely while no entry of the set names it. The
/// hypothesis is the flag characterization that `new` establishes.
pub proof fn lemma_exclusion_bits_are_scope_complement(
    flags: u64,
    extra: ExtraConfig,
    scopes: Seq<EventScope>,
    caps: CapabilitySet,
)
    requires
        forall|j: u64| j < 64 ==> bit64(flags, j) == counting_flag_expected(j, extra, scopes, caps),
    ensures
        forall|s: EventScope| #[trigger] bit64(flags, scope_exclude_bit(s)) == !scopes.contains(s),
{
    assert forall|s: EventScope| #[trigger] bit64(flags, scope_exclude_bit(s)) == !scopes.contains(
        s,
    ) by {
        match s {
            EventScope::User => {},
            EventScope::Kernel => {},
            EventScope::Hv => {},
            EventScope::Idle => {},
            EventScope::Host => {},
            EventScope::Guest => {},
            EventScope::CallchainKernel => {},
            EventScope::CallchainUser => {},
        }
    }
}

/// For every capability set lacking a feature, the built descriptor never
/// sets a bit gated solely by that feature, however the options request
/// it: without the inheritance-control feature of version 5.13, the
/// inherit-thread and remove-on-exec bits stay clear for every option
/// set. The hypothesis is the flag characterization that `new`
/// establishes.
pub proof fn lemma_capability_gates_counting_flags(
    flags: u64,
    extra: ExtraConfig,
    scopes: Seq<EventScope>,
    caps: CapabilitySet,
)
    requires
        forall|j: u64| j < 64 ==> bit64(flags, j) == counting_flag_expected(j, extra, scopes, caps),
        !cap_has(caps, 5, 13),
    ensures
        !bit64(flags, FLAG_INHERIT_THREAD),
        !bit64(flags, FLAG_REMOVE_ON_EXEC),
{
}

} // verus!
