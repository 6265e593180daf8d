use perf_event::builder::Builder;
use perf_event::capability::CapabilitySet;
use perf_event::counting;
use perf_event::error::BuildError;
use perf_event::event::{Event, SwEvent};
use perf_event::get_bit64;
use perf_event::record::WeightRepr;
use perf_event::sampling::{Attr, ExtraConfig, OverflowBy};
use perf_event::scope::EventScope;

fn caps_at(major: u32, patch: u32) -> CapabilitySet {
    CapabilitySet { basis_major: major, basis_patch: patch }
}

const FLAG_DISABLED: u64 = 0;
const FLAG_INHERIT: u64 = 1;
const FLAG_EXCLUDE_USER: u64 = 4;
const FLAG_EXCLUDE_KERNEL: u64 = 5;
const FLAG_EXCLUDE_HV: u64 = 6;
const FLAG_EXCLUDE_IDLE: u64 = 7;
const FLAG_FREQ: u64 = 10;
const FLAG_SAMPLE_ID_ALL: u64 = 18;
const FLAG_EXCLUDE_HOST: u64 = 19;
const FLAG_EXCLUDE_GUEST: u64 = 20;
const FLAG_EXCLUDE_CALLCHAIN_KERNEL: u64 = 21;
const FLAG_EXCLUDE_CALLCHAIN_USER: u64 = 22;
const FLAG_INHERIT_THREAD: u64 = 35;
const FLAG_REMOVE_ON_EXEC: u64 = 36;

#[test]
fn counting_exclusion_bits_complement_scopes() {
    let caps = caps_at(6, 1);
    let event = Event::Sw(SwEvent::CpuClock);
    let scopes = vec![EventScope::User, EventScope::Host];
    let config = counting::new(&event, &scopes, &counting::ExtraConfig::default(), &caps);
    let flags = config.perf_event_attr.flags;
    assert!(!get_bit64(flags, FLAG_EXCLUDE_USER));
    assert!(get_bit64(flags, FLAG_EXCLUDE_KERNEL));
    assert!(get_bit64(flags, FLAG_EXCLUDE_HV));
    assert!(get_bit64(flags, FLAG_EXCLUDE_IDLE));
    assert!(!get_bit64(flags, FLAG_EXCLUDE_HOST));
    assert!(get_bit64(flags, FLAG_EXCLUDE_GUEST));
    assert!(get_bit64(flags, FLAG_EXCLUDE_CALLCHAIN_KERNEL));
    assert!(get_bit64(flags, FLAG_EXCLUDE_CALLCHAIN_USER));
    assert!(get_bit64(flags, FLAG_DISABLED));
}

#[test]
fn counting_empty_scopes_exclude_everything() {
    let caps = caps_at(6, 1);
    let event = Event::Sw(SwEvent::TaskClock);
    let scopes: Vec<EventScope> = vec![];
    let config = counting::new(&event, &scopes, &counting::ExtraConfig::default(), &caps);
    let flags = config.perf_event_attr.flags;
    for bit in [
        FLAG_EXCLUDE_USER,
        FLAG_EXCLUDE_KERNEL,
        FLAG_EXCLUDE_HV,
        FLAG_EXCLUDE_IDLE,
        FLAG_EXCLUDE_HOST,
        FLAG_EXCLUDE_GUEST,
        FLAG_EXCLUDE_CALLCHAIN_KERNEL,
        FLAG_EXCLUDE_CALLCHAIN_USER,
    ] {
        assert!(get_bit64(flags, bit));
    }
}

#[test]
fn counting_all_scopes_exclude_nothing() {
    let caps = caps_at(6, 1);
    let event = Event::Sw(SwEvent::TaskClock);
    let scopes = vec![
        EventScope::User,
        EventScope::Kernel,
        EventScope::Hv,
        EventScope::Idle,
        EventScope::Host,
        EventScope::Guest,
        EventScope::CallchainKernel,
        EventScope::CallchainUser,
    ];
    let config = counting::new(&event, &scopes, &counting::ExtraConfig::default(), &caps);
    let flags = config.perf_event_attr.flags;
    for bit in [
        FLAG_EXCLUDE_USER,
        FLAG_EXCLUDE_KERNEL,
        FLAG_EXCLUDE_HV,
        FLAG_EXCLUDE_IDLE,
        FLAG_EXCLUDE_HOST,
        FLAG_EXCLUDE_GUEST,
        FLAG_EXCLUDE_CALLCHAIN_KERNEL,
        FLAG_EXCLUDE_CALLCHAIN_USER,
    ] {
        assert!(!get_bit64(flags, bit));
    }
}

#[test]
fn counting_gates_inherit_thread_by_capability() {
    let event = Event::Sw(SwEvent::CpuClock);
    let scopes = vec![EventScope::User];
    let mut extra = counting::ExtraConfig::default();
    extra.inherit_thread = true;
    extra.remove_on_exec = true;
    let old = counting::new(&event, &scopes, &extra, &caps_at(5, 12));
    assert!(!get_bit64(old.perf_event_attr.flags, FLAG_INHERIT_THREAD));
    assert!(!get_bit64(old.perf_event_attr.flags, FLAG_REMOVE_ON_EXEC));
    let new = counting::new(&event, &scopes, &extra, &caps_at(5, 13));
    assert!(get_bit64(new.perf_event_attr.flags, FLAG_INHERIT_THREAD));
    assert!(get_bit64(new.perf_event_attr.flags, FLAG_REMOVE_ON_EXEC));
}

#[test]
fn counting_sets_structural_fields() {
    let caps = caps_at(6, 3);
    let event = Event::Sw(SwEvent::PageFaults);
    let scopes = vec![EventScope::User];
    let mut extra = counting::ExtraConfig::default();
    extra.inherit = true;
    let config = counting::new(&event, &scopes, &extra, &caps);
    let raw = config.perf_event_attr;
    assert_eq!(raw.type_, 1);
    assert_eq!(raw.config, 2);
    assert_eq!(raw.size, 136);
    assert_eq!(raw.sample_type, 0);
    assert_eq!(raw.sample_period_or_freq, 0);
    assert!(get_bit64(raw.flags, FLAG_INHERIT));
    // grouped, time-normalized, identified reads, with the lost count on 6.0+
    assert_eq!(raw.read_format, 0b11111);
}

#[test]
fn sampling_attr_overflow_modes() {
    let caps = caps_at(6, 1);
    let event = Event::Sw(SwEvent::CpuClock);
    let scopes = vec![EventScope::User, EventScope::Host];
    let extra = ExtraConfig::default();
    let by_period = Attr::new(&event, &scopes, OverflowBy::Period(1000), &extra, &caps);
    let raw = by_period.into_raw();
    assert_eq!(raw.sample_period_or_freq, 1000);
    assert!(!get_bit64(raw.flags, FLAG_FREQ));
    let by_freq = Attr::new(&event, &scopes, OverflowBy::Freq(99), &extra, &caps);
    let raw = by_freq.into_raw();
    assert_eq!(raw.sample_period_or_freq, 99);
    assert!(get_bit64(raw.flags, FLAG_FREQ));
}

#[test]
fn sampling_selector_mask_follows_fields() {
    let caps = caps_at(6, 1);
    let event = Event::Sw(SwEvent::CpuClock);
    let scopes = vec![EventScope::User];
    let mut extra = ExtraConfig::default();
    extra.sample_record_fields.time = true;
    extra.sample_record_fields.ips = Some(5);
    extra.sample_id_all = true;
    let raw = Attr::new(&event, &scopes, OverflowBy::Period(1000), &extra, &caps).into_raw();
    // exactly the time bit and the call-chain bit
    assert_eq!(raw.sample_type, (1 << 2) | (1 << 5));
    assert_eq!(raw.sample_max_stack, 5);
    assert!(get_bit64(raw.flags, FLAG_SAMPLE_ID_ALL));
}

#[test]
fn sampling_weight_representations_gated() {
    let event = Event::Sw(SwEvent::CpuClock);
    let scopes = vec![EventScope::User];
    let mut extra = ExtraConfig::default();
    extra.sample_record_fields.weight = Some(WeightRepr::Full);
    let raw = Attr::new(&event, &scopes, OverflowBy::Period(1000), &extra, &caps_at(5, 10))
        .into_raw();
    assert_eq!(raw.sample_type, 1 << 14);
    extra.sample_record_fields.weight = Some(WeightRepr::Vars);
    let raw = Attr::new(&event, &scopes, OverflowBy::Period(1000), &extra, &caps_at(5, 10))
        .into_raw();
    // the structured representation needs kernel 5.12: degraded to absent
    assert_eq!(raw.sample_type, 0);
    let raw = Attr::new(&event, &scopes, OverflowBy::Period(1000), &extra, &caps_at(5, 12))
        .into_raw();
    assert_eq!(raw.sample_type, 1 << 24);
}

#[test]
fn sampling_attr_raw_round_trip() {
    let caps = caps_at(6, 1);
    let event = Event::Sw(SwEvent::CpuClock);
    let scopes = vec![EventScope::User];
    let attr = Attr::new(&event, &scopes, OverflowBy::Period(7), &ExtraConfig::default(), &caps);
    let raw = attr.into_raw();
    assert_eq!(Attr::from_raw(raw).into_raw(), raw);
}

#[test]
fn build_counting_requires_targets() {
    let caps = caps_at(6, 1);
    let event = Event::Sw(SwEvent::CpuClock);
    let scopes = vec![EventScope::User];
    let attr = counting::new(&event, &scopes, &counting::ExtraConfig::default(), &caps);
    assert_eq!(
        Builder::new().build_counting(attr).unwrap_err(),
        BuildError::PidAndCpuNotSet
    );
    assert_eq!(
        Builder::new().calling_process().build_counting(attr).unwrap_err(),
        BuildError::PidAndCpuNotSet
    );
    assert_eq!(
        Builder::new().any_cpu().build_counting(attr).unwrap_err(),
        BuildError::PidAndCpuNotSet
    );
    let session = Builder::new().calling_process().any_cpu().build_counting(attr).unwrap();
    assert_eq!(session.pid, 0);
    assert_eq!(session.cpu, -1);
    assert!(!session.enabled);
}

#[test]
fn build_counting_group_requires_targets() {
    assert_eq!(
        Builder::new().build_counting_group().unwrap_err(),
        BuildError::PidAndCpuNotSet
    );
    let caps = caps_at(6, 1);
    let event = Event::Sw(SwEvent::CpuClock);
    let scopes = vec![EventScope::User];
    let attr = counting::new(&event, &scopes, &counting::ExtraConfig::default(), &caps);
    let mut group = Builder::new().with_pid(42).with_cpu(1).build_counting_group().unwrap();
    assert_eq!(group.pid, 42);
    assert_eq!(group.cpu, 1);
    assert_eq!(group.members.len(), 0);
    group.add_member(attr);
    group.add_member(attr);
    assert_eq!(group.members.len(), 2);
}

fn sampling_attr() -> Attr {
    let caps = caps_at(6, 1);
    let event = Event::Sw(SwEvent::CpuClock);
    let scopes = vec![EventScope::User, EventScope::Host];
    Attr::new(&event, &scopes, OverflowBy::Period(1000), &ExtraConfig::default(), &caps)
}

#[test]
fn build_sampling_validates_ring_buffer_pages() {
    let attr = sampling_attr();
    // target errors take precedence
    assert_eq!(
        Builder::new().build_sampling(&attr).unwrap_err(),
        BuildError::PidAndCpuNotSet
    );
    let targeted = Builder::new().calling_process().any_cpu();
    assert_eq!(
        targeted.build_sampling(&attr).unwrap_err(),
        BuildError::RingBufferPagesInvalid
    );
    for bad in [0usize, 1, 4, 6, 7, 100] {
        assert_eq!(
            targeted.ring_buffer_pages(bad).build_sampling(&attr).unwrap_err(),
            BuildError::RingBufferPagesInvalid
        );
    }
    for good in [2usize, 3, 5, 9, 513] {
        let session = targeted.ring_buffer_pages(good).build_sampling(&attr).unwrap();
        assert_eq!(session.ring_buffer_pages, good);
        assert!(!session.enabled);
        assert_eq!(session.pos, 0);
    }
}
