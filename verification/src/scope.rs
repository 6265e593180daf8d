//! Exclusion domains for a counter. Presence of a scope in the requested
//! set means "do not exclude this domain"; absence means exclude it. The
//! empty set therefore excludes everything and counts nothing, forcing
//! callers to opt in explicitly.

use vstd::prelude::*;
use crate::bits::{bit64, set_bit64};

verus! {

/// A domain in which counting or sampling may be active.
#[derive(Clone, Copy, Debug, PartialEq, Eq, Structural)]
pub enum EventScope {
    User,
    Kernel,
    Hv,
    Idle,
    Host,
    Guest,
    CallchainKernel,
    CallchainUser,
}

/// The descriptor flag bit that excludes the domain `s`.
pub open spec fn scope_exclude_bit(s: EventScope) -> u64 {
    match s {
        EventScope::User => crate::raw_attr::FLAG_EXCLUDE_USER,
        EventScope::Kernel => crate::raw_attr::FLAG_EXCLUDE_KERNEL,
        EventScope::Hv => crate::raw_attr::FLAG_EXCLUDE_HV,
        EventScope::Idle => crate::raw_attr::FLAG_EXCLUDE_IDLE,
        EventScope::Host => crate::raw_attr::FLAG_EXCLUDE_HOST,
        EventScope::Guest => crate::raw_attr::FLAG_EXCLUDE_GUEST,
        EventScope::CallchainKernel => crate::raw_attr::FLAG_EXCLUDE_CALLCHAIN_KERNEL,
        EventScope::CallchainUser => crate::raw_attr::FLAG_EXCLUDE_CALLCHAIN_USER,
    }
}

/// True when `i` is one of the eight exclusion flag bits.
pub open spec fn is_scope_exclude_bit(i: u64) -> bool {
    exists|s: EventScope| scope_exclude_bit(s) == i
}

/// Exclusion bits of distinct scopes are distinct, and each is below 64.
pub proof fn lemma_scope_exclude_bits()
    ensures
        forall|a: EventScope, b: EventScope|
            scope_exclude_bit(a) == scope_exclude_bit(b) ==> a == b,
        forall|s: EventScope| #[trigger] scope_exclude_bit(s) < 64,
{
}

/// Maps the domain `s` to its exclusion flag bit.
pub fn scope_exclude_bit_of(s: &EventScope) -> (r: u64)
    ensures
        r == scope_exclude_bit(*s),
{
    match s {
        EventScope::User => crate::raw_attr::FLAG_EXCLUDE_USER,
        EventScope::Kernel => crate::raw_attr::FLAG_EXCLUDE_KERNEL,
        EventScope::Hv => crate::raw_attr::FLAG_EXCLUDE_HV,
        EventScope::Idle => crate::raw_attr::FLAG_EXCLUDE_IDLE,
        EventScope::Host => crate::raw_attr::FLAG_EXCLUDE_HOST,
        EventScope::Guest => crate::raw_attr::FLAG_EXCLUDE_GUEST,
        EventScope::CallchainKernel => crate::raw_attr::FLAG_EXCLUDE_CALLCHAIN_KERNEL,
        EventScope::CallchainUser => crate::raw_attr::FLAG_EXCLUDE_CALLCHAIN_USER,
    }
}

/// Clears the exclusion bit of every scope in `scopes`, leaving every
/// other bit of the flag word unchanged: a domain stays excluded exactly
/// while no entry of `scopes` names it.
pub fn apply_scopes(flags: u64, scopes: &Vec<EventScope>) -> (r: u64)
    ensures
        forall|s: EventScope| #[trigger]
            bit64(r, scope_exclude_bit(s)) == (bit64(flags, scope_exclude_bit(s))
                && !scopes@.contains(s)),
        forall|j: u64| j < 64 && !is_scope_exclude_bit(j) ==> bit64(r, j) == bit64(flags, j),
{
    proof {
        lemma_scope_exclude_bits();
        assert(scopes@.take(0) =~= Seq::<EventScope>::empty());
    }
    let mut w = flags;
    let mut i: usize = 0;
    while i < scopes.len()
        invariant
            i <= scopes.len(),
            forall|s: EventScope| #[trigger]
                bit64(w, scope_exclude_bit(s)) == (bit64(flags, scope_exclude_bit(s)) && !scopes@.take(
                    i as int,
                ).contains(s)),
            forall|j: u64| j < 64 && !is_scope_exclude_bit(j) ==> bit64(w, j) == bit64(flags, j),
        decreases scopes.len() - i,
    {
        let s = scopes[i];
        let b = scope_exclude_bit_of(&s);
        proof {
            lemma_scope_exclude_bits();
            assert(is_scope_exclude_bit(b)) by {
                assert(scope_exclude_bit(s) == b);
            }
        }
        let ghost w_before = w;
        w = set_bit64(w, b, false);
        proof {
            assert(scopes@.take(i as int + 1) =~= scopes@.take(i as int).push(scopes@[i as int]));
            assert forall|t: EventScope| #[trigger]
                bit64(w, scope_exclude_bit(t)) == (bit64(flags, scope_exclude_bit(t)) && !scopes@.take(
                    i as int + 1,
                ).contains(t)) by {
                if t == s {
                    assert(scopes@.take(i as int + 1).contains(t)) by {
                        assert(scopes@.take(i as int + 1)[i as int] == t);
                    }
                } else {
                    assert(scope_exclude_bit(t) != b);
                    assert(scopes@.take(i as int + 1).contains(t) == scopes@.take(
                        i as int,
                    ).contains(t)) by {
                        if scopes@.take(i as int).contains(t) {
                            let k = choose|k: int|
                                0 <= k < i && #[trigger] scopes@.take(i as int)[k] == t;
                            assert(scopes@.take(i as int + 1)[k] == t);
                        }
                        if scopes@.take(i as int + 1).contains(t) {
                            let k = choose|k: int|
                                0 <= k < i + 1 && #[trigger] scopes@.take(i as int + 1)[k] == t;
                            assert(k < i);
                            assert(scopes@.take(i as int)[k] == t);
                        }
                    }
                }
            }
        }
        i = i + 1;
    }
    proof {
        assert(scopes@.take(scopes@.len() as int) =~= scopes@);
    }
    w
}

} // verus!
