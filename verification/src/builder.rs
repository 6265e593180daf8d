//! Pending target state for opening a session: which process and which
//! CPU the counter observes, and for sampling the ring-buffer page count.
//! The kernel interface requires exactly one resolved value of each
//! category, where "calling process" and "any CPU" count as resolved
//! values, not absence; building fails while either is missing.

use vstd::prelude::*;

verus! {

/// Pending target state, mutated by chained configuration calls and
/// consumed by a build operation.
#[derive(Clone, Copy, Debug, PartialEq, Eq, Structural)]
pub struct Builder {
    /// The pid handed to the kernel: 0 for the calling process, a
    /// positive value for that process. `None` until a pid target is
    /// chosen.
    pub pid: Option<i32>,
    /// The cpu handed to the kernel: -1 for any CPU, a non-negative value
    /// for that CPU. `None` until a cpu target is chosen.
    pub cpu: Option<i32>,
    /// Ring-buffer size for sampling sessions, in pages.
    pub ring_buffer_pages: Option<usize>,
}

impl Builder {
    /// A builder with no targeting resolved.
    pub fn new() -> (r: Builder)
        ensures
            r.pid is None,
            r.cpu is None,
            r.ring_buffer_pages is None,
    {
        Builder { pid: None, cpu: None, ring_buffer_pages: None }
    }

    /// Targets the calling process.
    pub fn calling_process(self) -> (r: Builder)
        ensures
            r == (Builder { pid: Some(0i32), ..self }),
    {
        Builder { pid: Some(0i32), ..self }
    }

    /// Targets the process with the given pid.
    pub fn with_pid(self, pid: i32) -> (r: Builder)
        requires
            pid > 0,
        ensures
            r == (Builder { pid: Some(pid), ..self }),
    {
        Builder { pid: Some(pid), ..self }
    }

    /// Counts on every CPU the target runs on.
    pub fn any_cpu(self) -> (r: Builder)
        ensures
            r == (Builder { cpu: Some(-1i32), ..self }),
    {
        Builder { cpu: Some(-1i32), ..self }
    }

    /// Counts only on the given CPU.
    pub fn with_cpu(self, cpu: i32) -> (r: Builder)
        requires
            cpu >= 0,
        ensures
            r == (Builder { cpu: Some(cpu), ..self }),
    {
        Builder { cpu: Some(cpu), ..self }
    }

    /// Requests a ring buffer of `pages` memory pages for sampling. The
    /// kernel accepts only one header page plus a power of two of data
    /// pages, which the build operation checks.
    pub fn ring_buffer_pages(self, pages: usize) -> (r: Builder)
        ensures
            r == (Builder { ring_buffer_pages: Some(pages), ..self }),
    {
        Builder { ring_buffer_pages: Some(pages), ..self }
    }

    /// True when both pid and cpu targeting are resolved, the only
    /// combination a session can be built from.
    pub fn targets_resolved(&self) -> (r: bool)
        ensures
            r == (self.pid is Some && self.cpu is Some),
    {
        self.pid.is_some() && self.cpu.is_some()
    }
}

/// True when `n` is a power of two.
pub open spec fn is_power_of_two(n: nat) -> bool
    decreases n,
{
    if n == 0 {
        false
    } else if n == 1 {
        true
    } else {
        n % 2 == 0 && is_power_of_two(n / 2)
    }
}

/// True when `pages` is a valid ring-buffer size: one header page plus a
/// power of two of data pages.
pub open spec fn valid_ring_buffer_pages(pages: usize) -> bool {
    pages >= 2 && is_power_of_two((pages - 1) as nat)
}

/// Checks whether `pages` is one more than a power of two.
pub fn check_ring_buffer_pages(pages: usize) -> (r: bool)
    ensures
        r == valid_ring_buffer_pages(pages),
{
    if pages < 2 {
        return false;
    }
    let mut m: usize = pages - 1;
    while m > 1
        invariant
            m >= 1,
            is_power_of_two(m as nat) == is_power_of_two((pages - 1) as nat),
        decreases m,
    {
        if m % 2 == 1 {
            return false;
        }
        m = m / 2;
    }
    true
}

} // verus!
