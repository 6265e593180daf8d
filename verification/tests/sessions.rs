use perf_event::builder::Builder;
use perf_event::capability::CapabilitySet;
use perf_event::counting::{self, parse_counting_result, parse_group_result};
use perf_event::error::DecodeError;
use perf_event::event::{Event, SwEvent};
use perf_event::record::RecordBody;
use perf_event::sampling::{Attr, ExtraConfig, OverflowBy};
use perf_event::scope::EventScope;

fn caps() -> CapabilitySet {
    CapabilitySet { basis_major: 6, basis_patch: 1 }
}

fn counting_attr() -> counting::Config {
    let event = Event::Sw(SwEvent::CpuClock);
    let scopes = vec![EventScope::User, EventScope::Host];
    counting::new(&event, &scopes, &counting::ExtraConfig::default(), &caps())
}

#[test]
fn enable_disable_are_idempotent_on_session_state() {
    let attr = counting_attr();
    let mut session = Builder::new().calling_process().any_cpu().build_counting(attr).unwrap();
    assert!(!session.enabled);
    let before = session;
    session.disable();
    assert_eq!(session, before); // disabling a disabled session changes nothing
    session.enable();
    assert!(session.enabled);
    let enabled_once = session;
    session.enable();
    assert_eq!(session, enabled_once); // enabling twice equals enabling once
    assert_eq!(session.pid, before.pid);
    assert_eq!(session.cpu, before.cpu);
    assert_eq!(session.attr, before.attr);
}

fn p64(out: &mut Vec<u8>, v: u64) {
    out.extend_from_slice(&v.to_le_bytes());
}

#[test]
fn counting_result_parses_read_bytes() {
    let mut bytes = Vec::new();
    p64(&mut bytes, 1); // member count
    p64(&mut bytes, 900); // time enabled
    p64(&mut bytes, 800); // time running
    p64(&mut bytes, 123456); // event count
    p64(&mut bytes, 7); // event id
    let result = parse_counting_result(false, &bytes).unwrap();
    assert_eq!(result.event_count, 123456);
    assert_eq!(result.time_enabled, 900);
    assert_eq!(result.time_running, 800);
    let short = vec![0u8; 16];
    assert_eq!(parse_counting_result(false, &short).unwrap_err(), DecodeError::SizeMismatch);
}

#[test]
fn group_result_parses_one_snapshot() {
    let mut bytes = Vec::new();
    p64(&mut bytes, 2); // member count
    p64(&mut bytes, 900); // time enabled
    p64(&mut bytes, 450); // time running
    p64(&mut bytes, 10); // member 0 count
    p64(&mut bytes, 100); // member 0 id
    p64(&mut bytes, 5); // member 0 lost
    p64(&mut bytes, 20); // member 1 count
    p64(&mut bytes, 200); // member 1 id
    p64(&mut bytes, 0); // member 1 lost
    let result = parse_group_result(true, &bytes).unwrap();
    assert_eq!(result.time_enabled, 900);
    assert_eq!(result.time_running, 450);
    assert_eq!(result.members.len(), 2);
    assert_eq!(result.members[0].event_count, 10);
    assert_eq!(result.members[0].event_id, 100);
    assert_eq!(result.members[0].lost, Some(5));
    assert_eq!(result.members[1].event_count, 20);
    assert_eq!(result.members[1].event_id, 200);
    assert_eq!(result.members[1].lost, Some(0));
    // a declared count larger than the block is refused
    let mut overrun = Vec::new();
    p64(&mut overrun, 4);
    p64(&mut overrun, 0);
    p64(&mut overrun, 0);
    assert_eq!(parse_group_result(true, &overrun).unwrap_err(), DecodeError::SizeMismatch);
}

fn sampling_session() -> perf_event::sampling::Sampling {
    let event = Event::Sw(SwEvent::CpuClock);
    let scopes = vec![EventScope::User, EventScope::Host];
    let mut extra = ExtraConfig::default();
    extra.sample_record_fields.time = true;
    let attr = Attr::new(&event, &scopes, OverflowBy::Period(1000), &extra, &caps());
    Builder::new()
        .calling_process()
        .any_cpu()
        .ring_buffer_pages(3)
        .build_sampling(&attr)
        .unwrap()
}

#[test]
fn sampling_session_drains_buffered_records_after_disable() {
    let mut session = sampling_session();
    assert_eq!(session.sample_type, 1 << 2); // the time bit alone
    // one sample record: header, then the timestamp
    let mut bytes = Vec::new();
    bytes.extend_from_slice(&9u32.to_le_bytes());
    bytes.extend_from_slice(&0u16.to_le_bytes());
    bytes.extend_from_slice(&16u16.to_le_bytes());
    p64(&mut bytes, 424242);
    session.enable();
    session.push_bytes(&bytes);
    session.disable();
    // buffered bytes stay consumable after disable
    let rec = session.next_record().unwrap().unwrap();
    match rec.body {
        RecordBody::Sample(body) => assert_eq!(body.time, Some(424242)),
        other => panic!("wrong body: {:?}", other),
    }
    assert_eq!(session.pos, 16); // consumed; the record cannot be re-read
    assert_eq!(session.next_record().unwrap(), None);
}

#[test]
fn sampling_session_waits_for_complete_records() {
    let mut session = sampling_session();
    let mut bytes = Vec::new();
    bytes.extend_from_slice(&9u32.to_le_bytes());
    bytes.extend_from_slice(&0u16.to_le_bytes());
    bytes.extend_from_slice(&16u16.to_le_bytes());
    p64(&mut bytes, 5555);
    let (first, rest) = bytes.split_at(10);
    session.push_bytes(&first.to_vec());
    assert_eq!(session.next_record().unwrap(), None); // incomplete: not consumed
    assert_eq!(session.pos, 0);
    session.push_bytes(&rest.to_vec());
    let rec = session.next_record().unwrap().unwrap();
    match rec.body {
        RecordBody::Sample(body) => assert_eq!(body.time, Some(5555)),
        other => panic!("wrong body: {:?}", other),
    }
}

#[test]
fn sampling_session_surfaces_lost_records() {
    let mut session = sampling_session();
    let mut bytes = Vec::new();
    bytes.extend_from_slice(&2u32.to_le_bytes());
    bytes.extend_from_slice(&0u16.to_le_bytes());
    bytes.extend_from_slice(&24u16.to_le_bytes());
    p64(&mut bytes, 1); // counter id
    p64(&mut bytes, 300); // lost count
    session.push_bytes(&bytes);
    let rec = session.next_record().unwrap().unwrap();
    match rec.body {
        RecordBody::Lost(body) => assert_eq!(body.lost, 300),
        other => panic!("wrong body: {:?}", other),
    }
}
