use perf_event::capability::{
    resolve_capabilities, version_from_code, CapabilitySet, FeatureVersion, KernelVersion,
};
use perf_event::event::{Event, HwCache, HwCacheOp, HwCacheResult, HwEvent, RawEvent, SwEvent};
use perf_event::raw_attr::attr_size;

#[test]
fn sw_event_encodes() {
    let (type_, config) = Event::Sw(SwEvent::CpuClock).type_and_config();
    assert_eq!(type_, 1);
    assert_eq!(config, 0);
    let (type_, config) = Event::Sw(SwEvent::CgroupSwitches).type_and_config();
    assert_eq!(type_, 1);
    assert_eq!(config, 11);
}

#[test]
fn hw_event_encodes() {
    let (type_, config) = Event::Hw(HwEvent::CpuCycles).type_and_config();
    assert_eq!(type_, 0);
    assert_eq!(config, 0);
    let (type_, config) = Event::Hw(HwEvent::RefCpuCycles).type_and_config();
    assert_eq!(type_, 0);
    assert_eq!(config, 9);
}

#[test]
fn hw_cache_event_encodes() {
    let ev = Event::Hw(HwEvent::Cache(HwCache::L1d, HwCacheOp::Read, HwCacheResult::Miss));
    let (type_, config) = ev.type_and_config();
    assert_eq!(type_, 3);
    assert_eq!(config, 0x10000);
    let ev = Event::Hw(HwEvent::Cache(HwCache::Dtlb, HwCacheOp::Prefetch, HwCacheResult::Access));
    let (type_, config) = ev.type_and_config();
    assert_eq!(type_, 3);
    assert_eq!(config, 3 + 2 * 0x100);
}

#[test]
fn event_round_trips() {
    let events = vec![
        Event::Hw(HwEvent::CpuCycles),
        Event::Hw(HwEvent::BranchMisses),
        Event::Hw(HwEvent::Cache(HwCache::Node, HwCacheOp::Write, HwCacheResult::Miss)),
        Event::Sw(SwEvent::CpuClock),
        Event::Sw(SwEvent::PageFaultsMaj),
        Event::Raw(RawEvent { config: 0x1234_5678_9abc_def0 }),
    ];
    for ev in events {
        let (type_, config) = ev.type_and_config();
        assert_eq!(Event::from_type_and_config(type_, config), Some(ev));
    }
}

#[test]
fn decode_rejects_unknown_pairs() {
    assert_eq!(Event::from_type_and_config(0, 10), None);
    assert_eq!(Event::from_type_and_config(1, 12), None);
    assert_eq!(Event::from_type_and_config(3, 7), None);
    assert_eq!(Event::from_type_and_config(3, 3 * 0x100), None);
    assert_eq!(Event::from_type_and_config(7, 0), None);
}

fn feature_table(selected: Option<(u32, u32)>) -> Vec<FeatureVersion> {
    let versions = vec![
        (4, 1),
        (4, 8),
        (5, 5),
        (5, 7),
        (5, 11),
        (5, 12),
        (5, 13),
        (6, 0),
        (6, 3),
    ];
    versions
        .into_iter()
        .map(|(major, patch)| FeatureVersion {
            major,
            patch,
            selected: selected == Some((major, patch)),
        })
        .collect()
}

#[test]
fn auto_resolution_follows_detected_version() {
    let detected = KernelVersion { major: 6, patch: 1, sublevel: 40 };
    let r = resolve_capabilities(detected, &feature_table(None));
    assert!(!r.mismatch_warning);
    assert!(r.caps.has(5, 13));
    assert!(r.caps.has(6, 0));
    assert!(r.caps.has(6, 1));
    assert!(!r.caps.has(6, 3));
    assert!(r.caps.has(4, 8));
}

#[test]
fn selected_version_overrides_detected() {
    let detected = KernelVersion { major: 6, patch: 1, sublevel: 0 };
    let r = resolve_capabilities(detected, &feature_table(Some((5, 13))));
    assert!(r.mismatch_warning);
    assert!(r.caps.has(5, 13));
    assert!(!r.caps.has(6, 0));
    let detected = KernelVersion { major: 5, patch: 13, sublevel: 7 };
    let r = resolve_capabilities(detected, &feature_table(Some((5, 13))));
    assert!(!r.mismatch_warning);
}

#[test]
fn version_code_splits_into_parts() {
    let v = version_from_code((6 << 16) | (1 << 8) | 40);
    assert_eq!(v, KernelVersion { major: 6, patch: 1, sublevel: 40 });
    let v = version_from_code(0);
    assert_eq!(v, KernelVersion { major: 0, patch: 0, sublevel: 0 });
}

#[test]
fn descriptor_size_follows_capabilities() {
    assert_eq!(attr_size(&CapabilitySet { basis_major: 6, basis_patch: 3 }), 136);
    assert_eq!(attr_size(&CapabilitySet { basis_major: 5, basis_patch: 15 }), 128);
    assert_eq!(attr_size(&CapabilitySet { basis_major: 5, basis_patch: 10 }), 120);
    assert_eq!(attr_size(&CapabilitySet { basis_major: 5, basis_patch: 4 }), 112);
    assert_eq!(attr_size(&CapabilitySet { basis_major: 7, basis_patch: 0 }), 136);
}
