//! Counting sessions. A session owns its targeting and descriptor for its
//! whole life; enable and disable record the requested kernel-side switch
//! state; the value block a raw read on the opened descriptor returns is
//! interpreted here, so that a group read reflects one kernel-side atomic
//! snapshot rather than independently-issued single reads.

use vstd::prelude::*;
use crate::builder::Builder;
use crate::counting::config::Config;
use crate::error::{BuildError, DecodeError};
use crate::record::{le64, le64_at};

verus! {

/// One counter's values from a read: the count itself, and the times the
/// counter was enabled and actually running. When more counters are
/// scheduled than hardware slots exist the two times diverge, and callers
/// scale the count by their ratio themselves; the library reports both
/// quantities and performs no implicit scaling.
#[derive(Clone, Copy, Debug, PartialEq, Eq, Structural)]
pub struct CountingResult {
    pub event_count: u64,
    pub time_enabled: u64,
    pub time_running: u64,
}

/// A single-counter session: one descriptor, opened against one pid/cpu
/// target, starting disabled.
#[derive(Clone, Copy, Debug, PartialEq, Eq, Structural)]
pub struct Counting {
    pub attr: Config,
    pub pid: i32,
    pub cpu: i32,
    /// The kernel-side capture switch this session has requested.
    pub enabled: bool,
}

/// The session with its capture switch on and everything else as in `s`.
pub open spec fn spec_enabled_session(s: Counting) -> Counting {
    Counting { enabled: true, ..s }
}

/// The session with its capture switch off and everything else as in `s`.
pub open spec fn spec_disabled_session(s: Counting) -> Counting {
    Counting { enabled: false, ..s }
}

impl Counting {
    /// Requests the kernel-side capture switch on. The underlying
    /// operation is always issued, also when the switch is already on:
    /// the kernel treats that as a no-op, not an error.
    pub fn enable(&mut self)
        ensures
            *final(self) == spec_enabled_session(*old(self)),
    {
        self.enabled = true;
    }

    /// Requests the kernel-side capture switch off; a no-op at the kernel
    /// when already off.
    pub fn disable(&mut self)
        ensures
            *final(self) == spec_disabled_session(*old(self)),
    {
        self.enabled = false;
    }
}

/// Enabling an already-enabled session, or disabling an already-disabled
/// one, leaves the session state unchanged: the transitions are
/// idempotent, so a repeated call succeeds and changes nothing.
pub proof fn lemma_enable_disable_idempotent(s: Counting)
    ensures
        spec_enabled_session(spec_enabled_session(s)) == spec_enabled_session(s),
        spec_disabled_session(spec_disabled_session(s)) == spec_disabled_session(s),
        s.enabled ==> spec_enabled_session(s) == s,
        !s.enabled ==> spec_disabled_session(s) == s,
{
}

/// A group of counters read atomically: a leader descriptor plus member
/// descriptors opened against it, so one read on the leader returns every
/// member's value from a single kernel-side snapshot.
#[derive(Clone, Debug, PartialEq, Eq)]
pub struct CountingGroup {
    pub pid: i32,
    pub cpu: i32,
    pub members: Vec<Config>,
    pub enabled: bool,
}

impl CountingGroup {
    /// Adds one member descriptor to the group.
    pub fn add_member(&mut self, attr: Config)
        ensures
            final(self).members@ == old(self).members@.push(attr),
            final(self).pid == old(self).pid,
            final(self).cpu == old(self).cpu,
            final(self).enabled == old(self).enabled,
    {
        self.members.push(attr);
    }

    /// Requests the kernel-side capture switch on for the whole group.
    pub fn enable(&mut self)
        ensures
            *final(self) == (CountingGroup { enabled: true, ..*old(self) }),
    {
        self.enabled = true;
    }

    /// Requests the kernel-side capture switch off for the whole group.
    pub fn disable(&mut self)
        ensures
            *final(self) == (CountingGroup { enabled: false, ..*old(self) }),
    {
        self.enabled = false;
    }
}

impl Builder {
    /// Consumes the pending target state and a counting descriptor into a
    /// counting session. Fails with the target-not-set error exactly when
    /// pid or cpu targeting is unresolved; it never fails for any fully
    /// resolved combination.
    pub fn build_counting(&self, attr: Config) -> (r: Result<Counting, BuildError>)
        ensures
            r is Err <==> (self.pid is None || self.cpu is None),
            match r {
                Ok(c) => c == (Counting {
                    attr,
                    pid: self.pid->0,
                    cpu: self.cpu->0,
                    enabled: false,
                }),
                Err(e) => e == BuildError::PidAndCpuNotSet,
            },
    {
        match (self.pid, self.cpu) {
            (Some(pid), Some(cpu)) => Ok(Counting { attr, pid, cpu, enabled: false }),
            _ => Err(BuildError::PidAndCpuNotSet),
        }
    }

    /// Consumes the pending target state into an empty counting group.
    /// Fails with the target-not-set error exactly when pid or cpu
    /// targeting is unresolved.
    pub fn build_counting_group(&self) -> (r: Result<CountingGroup, BuildError>)
        ensures
            r is Err <==> (self.pid is None || self.cpu is None),
            match r {
                Ok(g) => g.pid == self.pid->0 && g.cpu == self.cpu->0 && g.members@.len() == 0
                    && !g.enabled,
                Err(e) => e == BuildError::PidAndCpuNotSet,
            },
    {
        match (self.pid, self.cpu) {
            (Some(pid), Some(cpu)) => Ok(
                CountingGroup { pid, cpu, members: Vec::new(), enabled: false },
            ),
            _ => Err(BuildError::PidAndCpuNotSet),
        }
    }
}

/// One member's slot in a group read.
#[derive(Clone, Copy, Debug, PartialEq, Eq, Structural)]
pub struct MemberResult {
    pub event_count: u64,
    pub event_id: u64,
    /// Lost-event count, present only when the descriptor requested it.
    pub lost: Option<u64>,
}

/// The decoded value block of a group read: one kernel-side snapshot of
/// every member.
#[derive(Clone, Debug, PartialEq, Eq)]
pub struct GroupResult {
    pub time_enabled: u64,
    pub time_running: u64,
    pub members: Vec<MemberResult>,
}

/// The byte stride of one member entry in the grouped read layout.
pub open spec fn spec_member_stride(read_lost: bool) -> int {
    if read_lost {
        24
    } else {
        16
    }
}

/// Interprets the value block a raw read on a single counter's descriptor
/// returns, in the grouped, time-normalized, identified layout this
/// library always requests: member count, the two times, then one entry
/// for the single member. `read_lost` says whether the descriptor
/// requested the lost-event count, which widens each member entry.
pub fn parse_counting_result(read_lost: bool, bytes: &Vec<u8>) -> (r: Result<
    CountingResult,
    DecodeError,
>)
    ensures
        r is Ok <==> (24 + spec_member_stride(read_lost) <= bytes@.len() && le64_at(bytes@, 0)
            >= 1),
        match r {
            Ok(c) => c.event_count == le64_at(bytes@, 24) && c.time_enabled == le64_at(bytes@, 8)
                && c.time_running == le64_at(bytes@, 16),
            Err(e) => e == DecodeError::SizeMismatch,
        },
{
    let need: usize = if read_lost {
        48
    } else {
        40
    };
    if bytes.len() < need {
        return Err(DecodeError::SizeMismatch);
    }
    let nr = le64(bytes, 0);
    if nr < 1 {
        return Err(DecodeError::SizeMismatch);
    }
    let time_enabled = le64(bytes, 8);
    let time_running = le64(bytes, 16);
    let event_count = le64(bytes, 24);
    Ok(CountingResult { event_count, time_enabled, time_running })
}

/// Interprets the value block a raw read on a group leader's descriptor
/// returns: member count, the two times, then one fixed-size entry per
/// member, walked by the count the block itself declares.
pub fn parse_group_result(read_lost: bool, bytes: &Vec<u8>) -> (r: Result<
    GroupResult,
    DecodeError,
>)
    ensures
        r is Ok <==> (bytes@.len() >= 24 && 24 + le64_at(bytes@, 0) * spec_member_stride(read_lost)
            <= bytes@.len()),
        match r {
            Ok(g) => {
                &&& g.time_enabled == le64_at(bytes@, 8)
                &&& g.time_running == le64_at(bytes@, 16)
                &&& g.members@.len() == le64_at(bytes@, 0)
                &&& forall|k: int|
                    0 <= k < g.members@.len() ==> #[trigger] g.members@[k] == (MemberResult {
                        event_count: le64_at(bytes@, 24 + k * spec_member_stride(read_lost)),
                        event_id: le64_at(bytes@, 24 + k * spec_member_stride(read_lost) + 8),
                        lost: if read_lost {
                            Some(le64_at(bytes@, 24 + k * spec_member_stride(read_lost) + 16))
                        } else {
                            None
                        },
                    })
            },
            Err(e) => e == DecodeError::SizeMismatch,
        },
{
    let stride: usize = if read_lost {
        24
    } else {
        16
    };
    if bytes.len() < 24 {
        return Err(DecodeError::SizeMismatch);
    }
    let nr = le64(bytes, 0);
    let avail = (bytes.len() - 24) / stride;
    if nr > avail as u64 {
        proof {
            assert(24 + le64_at(bytes@, 0) * spec_member_stride(read_lost) > bytes@.len())
                by (nonlinear_arith)
                requires
                    le64_at(bytes@, 0) > (bytes@.len() - 24) / spec_member_stride(read_lost) as int
                        && spec_member_stride(read_lost) > 0 && bytes@.len() >= 24 && avail as int
                        == (bytes@.len() - 24) / spec_member_stride(read_lost) as int && nr
                        == le64_at(bytes@, 0) && nr > avail,
            ;
        }
        return Err(DecodeError::SizeMismatch);
    }
    let count = nr as usize;
    proof {
        assert(24 + le64_at(bytes@, 0) * spec_member_stride(read_lost) <= bytes@.len())
            by (nonlinear_arith)
            requires
                le64_at(bytes@, 0) <= (bytes@.len() - 24) / spec_member_stride(read_lost) as int
                    && spec_member_stride(read_lost) > 0 && bytes@.len() >= 24 && nr == le64_at(
                    bytes@,
                    0,
                ) && nr <= avail && avail as int == (bytes@.len() - 24) / spec_member_stride(
                    read_lost,
                ) as int,
        ;
    }
    let time_enabled = le64(bytes, 8);
    let time_running = le64(bytes, 16);
    let n = bytes.len();
    let mut members: Vec<MemberResult> = Vec::new();
    let mut i: usize = 0;
    while i < count
        invariant
            i <= count,
            count == le64_at(bytes@, 0),
            stride == spec_member_stride(read_lost),
            n == bytes@.len(),
            24 + count * stride <= n,
            members@.len() == i,
            forall|k: int|
                0 <= k < i ==> #[trigger] members@[k] == (MemberResult {
                    event_count: le64_at(bytes@, 24 + k * spec_member_stride(read_lost)),
                    event_id: le64_at(bytes@, 24 + k * spec_member_stride(read_lost) + 8),
                    lost: if read_lost {
                        Some(le64_at(bytes@, 24 + k * spec_member_stride(read_lost) + 16))
                    } else {
                        None
                    },
                }),
        decreases count - i,
    {
        proof {
            assert(i * stride + stride <= count * stride) by (nonlinear_arith)
                requires
                    i < count && stride > 0,
            ;
        }
        let base = 24 + i * stride;
        let event_count = le64(bytes, base);
        let event_id = le64(bytes, base + 8);
        let lost = if read_lost {
            Some(le64(bytes, base + 16))
        } else {
            None
        };
        members.push(MemberResult { event_count, event_id, lost });
        i = i + 1;
    }
    Ok(GroupResult { time_enabled, time_running, members })
}

} // verus!
