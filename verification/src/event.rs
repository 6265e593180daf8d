//! Counter events and their encoding into the (type discriminant, numeric
//! config) pair the attribute descriptor carries. Encoding is pure and
//! total for every constructible event, and decoding the pair back yields
//! the event it came from.

use vstd::prelude::*;
use crate::raw_attr::{PERF_TYPE_HARDWARE, PERF_TYPE_HW_CACHE, PERF_TYPE_RAW, PERF_TYPE_SOFTWARE};

verus! {

/// A hardware cache that cache events count accesses to.
#[derive(Clone, Copy, Debug, PartialEq, Eq, Structural)]
pub enum HwCache {
    L1d,
    L1i,
    Ll,
    Dtlb,
    Itlb,
    Bpu,
    Node,
}

/// The kind of cache access a cache event counts.
#[derive(Clone, Copy, Debug, PartialEq, Eq, Structural)]
pub enum HwCacheOp {
    Read,
    Write,
    Prefetch,
}

/// Whether a cache event counts all accesses or only misses.
#[derive(Clone, Copy, Debug, PartialEq, Eq, Structural)]
pub enum HwCacheResult {
    Access,
    Miss,
}

/// A hardware event: one of the generalized CPU counters, or a cache
/// event identified by cache, operation and result.
#[derive(Clone, Copy, Debug, PartialEq, Eq, Structural)]
pub enum HwEvent {
    CpuCycles,
    Instructions,
    CacheReferences,
    CacheMisses,
    BranchInstructions,
    BranchMisses,
    BusCycles,
    StalledCyclesFrontend,
    StalledCyclesBackend,
    RefCpuCycles,
    Cache(HwCache, HwCacheOp, HwCacheResult),
}

/// A software event counted by the kernel itself.
#[derive(Clone, Copy, Debug, PartialEq, Eq, Structural)]
pub enum SwEvent {
    CpuClock,
    TaskClock,
    PageFaults,
    ContextSwitches,
    CpuMigrations,
    PageFaultsMin,
    PageFaultsMaj,
    AlignmentFaults,
    EmulationFaults,
    Dummy,
    BpfOutput,
    CgroupSwitches,
}

/// A CPU-specific raw event, configured by its hardware event number.
#[derive(Clone, Copy, Debug, PartialEq, Eq, Structural)]
pub struct RawEvent {
    pub config: u64,
}

/// A kernel-tracked occurrence source.
#[derive(Clone, Copy, Debug, PartialEq, Eq, Structural)]
pub enum Event {
    Hw(HwEvent),
    Sw(SwEvent),
    Raw(RawEvent),
}

/// The config slot of a cache identifier.
pub open spec fn hw_cache_id(c: HwCache) -> u64 {
    match c {
        HwCache::L1d => 0,
        HwCache::L1i => 1,
        HwCache::Ll => 2,
        HwCache::Dtlb => 3,
        HwCache::Itlb => 4,
        HwCache::Bpu => 5,
        HwCache::Node => 6,
    }
}

/// The config slot of a cache operation.
pub open spec fn hw_cache_op_id(o: HwCacheOp) -> u64 {
    match o {
        HwCacheOp::Read => 0,
        HwCacheOp::Write => 1,
        HwCacheOp::Prefetch => 2,
    }
}

/// The config slot of a cache result.
pub open spec fn hw_cache_result_id(r: HwCacheResult) -> u64 {
    match r {
        HwCacheResult::Access => 0,
        HwCacheResult::Miss => 1,
    }
}

/// The config value of a hardware event. Cache events pack cache,
/// operation and result into the low three bytes, in the kernel's layout
/// `cache | (op << 8) | (result << 16)`.
pub open spec fn hw_event_config(e: HwEvent) -> u64 {
    match e {
        HwEvent::CpuCycles => 0,
        HwEvent::Instructions => 1,
        HwEvent::CacheReferences => 2,
        HwEvent::CacheMisses => 3,
        HwEvent::BranchInstructions => 4,
        HwEvent::BranchMisses => 5,
        HwEvent::BusCycles => 6,
        HwEvent::StalledCyclesFrontend => 7,
        HwEvent::StalledCyclesBackend => 8,
        HwEvent::RefCpuCycles => 9,
        HwEvent::Cache(c, o, r) => (hw_cache_id(c) + hw_cache_op_id(o) * 0x100
            + hw_cache_result_id(r) * 0x10000) as u64,
    }
}

/// The config value of a software event.
pub open spec fn sw_event_config(e: SwEvent) -> u64 {
    match e {
        SwEvent::CpuClock => 0,
        SwEvent::TaskClock => 1,
        SwEvent::PageFaults => 2,
        SwEvent::ContextSwitches => 3,
        SwEvent::CpuMigrations => 4,
        SwEvent::PageFaultsMin => 5,
        SwEvent::PageFaultsMaj => 6,
        SwEvent::AlignmentFaults => 7,
        SwEvent::EmulationFaults => 8,
        SwEvent::Dummy => 9,
        SwEvent::BpfOutput => 10,
        SwEvent::CgroupSwitches => 11,
    }
}

/// The type discriminant an event encodes to. Cache events use the
/// dedicated cache type; every other hardware event the generic one.
pub open spec fn event_type_id(e: Event) -> u32 {
    match e {
        Event::Hw(HwEvent::Cache(_, _, _)) => PERF_TYPE_HW_CACHE,
        Event::Hw(_) => PERF_TYPE_HARDWARE,
        Event::Sw(_) => PERF_TYPE_SOFTWARE,
        Event::Raw(_) => PERF_TYPE_RAW,
    }
}

/// The config value an event encodes to.
pub open spec fn event_config(e: Event) -> u64 {
    match e {
        Event::Hw(hw) => hw_event_config(hw),
        Event::Sw(sw) => sw_event_config(sw),
        Event::Raw(raw) => raw.config,
    }
}

impl HwEvent {
    /// True for the cache events, which encode under the dedicated cache
    /// type discriminant.
    pub fn is_cache_event(&self) -> (r: bool)
        ensures
            r == self is Cache,
    {
        match self {
            HwEvent::Cache(_, _, _) => true,
            _ => false,
        }
    }

    /// The config value of this hardware event.
    pub fn into_u64(self) -> (r: u64)
        ensures
            r == hw_event_config(self),
    {
        match self {
            HwEvent::CpuCycles => 0,
            HwEvent::Instructions => 1,
            HwEvent::CacheReferences => 2,
            HwEvent::CacheMisses => 3,
            HwEvent::BranchInstructions => 4,
            HwEvent::BranchMisses => 5,
            HwEvent::BusCycles => 6,
            HwEvent::StalledCyclesFrontend => 7,
            HwEvent::StalledCyclesBackend => 8,
            HwEvent::RefCpuCycles => 9,
            HwEvent::Cache(c, o, r) => {
                let cid: u64 = match c {
                    HwCache::L1d => 0,
                    HwCache::L1i => 1,
                    HwCache::Ll => 2,
                    HwCache::Dtlb => 3,
                    HwCache::Itlb => 4,
                    HwCache::Bpu => 5,
                    HwCache::Node => 6,
                };
                let oid: u64 = match o {
                    HwCacheOp::Read => 0,
                    HwCacheOp::Write => 1,
                    HwCacheOp::Prefetch => 2,
                };
                let rid: u64 = match r {
                    HwCacheResult::Access => 0,
                    HwCacheResult::Miss => 1,
                };
                cid + oid * 0x100 + rid * 0x10000
            },
        }
    }
}

impl SwEvent {
    /// The config value of this software event.
    pub fn into_u64(self) -> (r: u64)
        ensures
            r == sw_event_config(self),
    {
        match self {
            SwEvent::CpuClock => 0,
            SwEvent::TaskClock => 1,
            SwEvent::PageFaults => 2,
            SwEvent::ContextSwitches => 3,
            SwEvent::CpuMigrations => 4,
            SwEvent::PageFaultsMin => 5,
            SwEvent::PageFaultsMaj => 6,
            SwEvent::AlignmentFaults => 7,
            SwEvent::EmulationFaults => 8,
            SwEvent::Dummy => 9,
            SwEvent::BpfOutput => 10,
            SwEvent::CgroupSwitches => 11,
        }
    }
}

impl Event {
    /// Encodes this event to the (type discriminant, config value) pair
    /// the descriptor carries.
    pub fn type_and_config(&self) -> (r: (u32, u64))
        ensures
            r.0 == event_type_id(*self),
            r.1 == event_config(*self),
    {
        match self {
            Event::Hw(hw) => {
                if hw.is_cache_event() {
                    (PERF_TYPE_HW_CACHE, hw.into_u64())
                } else {
                    (PERF_TYPE_HARDWARE, hw.into_u64())
                }
            },
            Event::Sw(sw) => (PERF_TYPE_SOFTWARE, sw.into_u64()),
            Event::Raw(raw) => (PERF_TYPE_RAW, raw.config),
        }
    }

    /// Decodes a (type discriminant, config value) pair back to the event
    /// it encodes; `None` when the pair encodes no constructible event.
    pub fn from_type_and_config(type_: u32, config: u64) -> (r: Option<Event>)
        ensures
            r == spec_event_from_type_and_config(type_, config),
    {
        if type_ == PERF_TYPE_HARDWARE {
            match config {
                0u64 => Some(Event::Hw(HwEvent::CpuCycles)),
                1u64 => Some(Event::Hw(HwEvent::Instructions)),
                2u64 => Some(Event::Hw(HwEvent::CacheReferences)),
                3u64 => Some(Event::Hw(HwEvent::CacheMisses)),
                4u64 => Some(Event::Hw(HwEvent::BranchInstructions)),
                5u64 => Some(Event::Hw(HwEvent::BranchMisses)),
                6u64 => Some(Event::Hw(HwEvent::BusCycles)),
                7u64 => Some(Event::Hw(HwEvent::StalledCyclesFrontend)),
                8u64 => Some(Event::Hw(HwEvent::StalledCyclesBackend)),
                9u64 => Some(Event::Hw(HwEvent::RefCpuCycles)),
                _ => None,
            }
        } else if type_ == PERF_TYPE_HW_CACHE {
            let cid = config % 0x100;
            let oid = (config / 0x100) % 0x100;
            let rid = config / 0x10000;
            let cache = match cid {
                0u64 => Some(HwCache::L1d),
                1u64 => Some(HwCache::L1i),
                2u64 => Some(HwCache::Ll),
                3u64 => Some(HwCache::Dtlb),
                4u64 => Some(HwCache::Itlb),
                5u64 => Some(HwCache::Bpu),
                6u64 => Some(HwCache::Node),
                _ => None,
            };
            let op = match oid {
                0u64 => Some(HwCacheOp::Read),
                1u64 => Some(HwCacheOp::Write),
                2u64 => Some(HwCacheOp::Prefetch),
                _ => None,
            };
            let result = match rid {
                0u64 => Some(HwCacheResult::Access),
                1u64 => Some(HwCacheResult::Miss),
                _ => None,
            };
            match (cache, op, result) {
                (Some(c), Some(o), Some(r)) => Some(Event::Hw(HwEvent::Cache(c, o, r))),
                _ => None,
            }
        } else if type_ == PERF_TYPE_SOFTWARE {
            match config {
                0u64 => Some(Event::Sw(SwEvent::CpuClock)),
                1u64 => Some(Event::Sw(SwEvent::TaskClock)),
                2u64 => Some(Event::Sw(SwEvent::PageFaults)),
                3u64 => Some(Event::Sw(SwEvent::ContextSwitches)),
                4u64 => Some(Event::Sw(SwEvent::CpuMigrations)),
                5u64 => Some(Event::Sw(SwEvent::PageFaultsMin)),
                6u64 => Some(Event::Sw(SwEvent::PageFaultsMaj)),
                7u64 => Some(Event::Sw(SwEvent::AlignmentFaults)),
                8u64 => Some(Event::Sw(SwEvent::EmulationFaults)),
                9u64 => Some(Event::Sw(SwEvent::Dummy)),
                10u64 => Some(Event::Sw(SwEvent::BpfOutput)),
                11u64 => Some(Event::Sw(SwEvent::CgroupSwitches)),
                _ => None,
            }
        } else if type_ == PERF_TYPE_RAW {
            Some(Event::Raw(RawEvent { config }))
        } else {
            None
        }
    }
}

/// The event a (type discriminant, config value) pair decodes to, if any.
pub open spec fn spec_event_from_type_and_config(type_: u32, config: u64) -> Option<Event> {
    if type_ == PERF_TYPE_HARDWARE {
        if config == 0 {
            Some(Event::Hw(HwEvent::CpuCycles))
        } else if config == 1 {
            Some(Event::Hw(HwEvent::Instructions))
        } else if config == 2 {
            Some(Event::Hw(HwEvent::CacheReferences))
        } else if config == 3 {
            Some(Event::Hw(HwEvent::CacheMisses))
        } else if config == 4 {
            Some(Event::Hw(HwEvent::BranchInstructions))
        } else if config == 5 {
            Some(Event::Hw(HwEvent::BranchMisses))
        } else if config == 6 {
            Some(Event::Hw(HwEvent::BusCycles))
        } else if config == 7 {
            Some(Event::Hw(HwEvent::StalledCyclesFrontend))
        } else if config == 8 {
            Some(Event::Hw(HwEvent::StalledCyclesBackend))
        } else if config == 9 {
            Some(Event::Hw(HwEvent::RefCpuCycles))
        } else {
            None
        }
    } else if type_ == PERF_TYPE_HW_CACHE {
        let cid = config % 0x100;
        let oid = (config / 0x100) % 0x100;
        let rid = config / 0x10000;
        if cid <= 6 && oid <= 2 && rid <= 1 {
            Some(
                Event::Hw(
                    HwEvent::Cache(
                        spec_cache_of_id(cid),
                        spec_cache_op_of_id(oid),
                        spec_cache_result_of_id(rid),
                    ),
                ),
            )
        } else {
            None
        }
    } else if type_ == PERF_TYPE_SOFTWARE {
        if config == 0 {
            Some(Event::Sw(SwEvent::CpuClock))
        } else if config == 1 {
            Some(Event::Sw(SwEvent::TaskClock))
        } else if config == 2 {
            Some(Event::Sw(SwEvent::PageFaults))
        } else if config == 3 {
            Some(Event::Sw(SwEvent::ContextSwitches))
        } else if config == 4 {
            Some(Event::Sw(SwEvent::CpuMigrations))
        } else if config == 5 {
            Some(Event::Sw(SwEvent::PageFaultsMin))
        } else if config == 6 {
            Some(Event::Sw(SwEvent::PageFaultsMaj))
        } else if config == 7 {
            Some(Event::Sw(SwEvent::AlignmentFaults))
        } else if config == 8 {
            Some(Event::Sw(SwEvent::EmulationFaults))
        } else if config == 9 {
            Some(Event::Sw(SwEvent::Dummy))
        } else if config == 10 {
            Some(Event::Sw(SwEvent::BpfOutput))
        } else if config == 11 {
            Some(Event::Sw(SwEvent::CgroupSwitches))
        } else {
            None
        }
    } else if type_ == PERF_TYPE_RAW {
        Some(Event::Raw(RawEvent { config }))
    } else {
        None
    }
}

/// The cache identified by a config slot value at most 6.
pub open spec fn spec_cache_of_id(id: u64) -> HwCache {
    if id == 0 {
        HwCache::L1d
    } else if id == 1 {
        HwCache::L1i
    } else if id == 2 {
        HwCache::Ll
    } else if id == 3 {
        HwCache::Dtlb
    } else if id == 4 {
        HwCache::Itlb
    } else if id == 5 {
        HwCache::Bpu
    } else {
        HwCache::Node
    }
}

/// The cache operation identified by a config slot value at most 2.
pub open spec fn spec_cache_op_of_id(id: u64) -> HwCacheOp {
    if id == 0 {
        HwCacheOp::Read
    } else if id == 1 {
        HwCacheOp::Write
    } else {
        HwCacheOp::Prefetch
    }
}

/// The cache result identified by a config slot value at most 1.
pub open spec fn spec_cache_result_of_id(id: u64) -> HwCacheResult {
    if id == 0 {
        HwCacheResult::Access
    } else {
        HwCacheResult::Miss
    }
}

/// Round trip: decoding the (type, config) pair an event encodes to yields
/// that event, for every constructible event.
pub proof fn lemma_event_round_trip(e: Event)
    ensures
        spec_event_from_type_and_config(event_type_id(e), event_config(e)) == Some(e),
{
    match e {
        Event::Hw(HwEvent::Cache(c, o, r)) => {
            let cid = hw_cache_id(c);
            let oid = hw_cache_op_id(o);
            let rid = hw_cache_result_id(r);
            let config = event_config(e);
            assert(config == cid + oid * 0x100 + rid * 0x10000);
            assert(config % 0x100 == cid && (config / 0x100) % 0x100 == oid && config / 0x10000
                == rid) by (nonlinear_arith)
                requires
                    config == cid + oid * 0x100 + rid * 0x10000 && cid <= 6 && oid <= 2 && rid
                        <= 1,
            ;
        },
        _ => {},
    }
}

} // verus!
