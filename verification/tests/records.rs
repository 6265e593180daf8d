use perf_event::error::DecodeError;
use perf_event::record::{decode_record, DecodeConfig, RecordBody, Weight};

fn p16(out: &mut Vec<u8>, v: u16) {
    out.extend_from_slice(&v.to_le_bytes());
}

fn p32(out: &mut Vec<u8>, v: u32) {
    out.extend_from_slice(&v.to_le_bytes());
}

fn p64(out: &mut Vec<u8>, v: u64) {
    out.extend_from_slice(&v.to_le_bytes());
}

fn header(out: &mut Vec<u8>, type_: u32, misc: u16, size: u16) {
    p32(out, type_);
    p16(out, misc);
    p16(out, size);
}

fn plain_cfg() -> DecodeConfig {
    DecodeConfig { sample_type: 0, sample_id_all: false, read_lost: false }
}

#[test]
fn lost_record_decodes() {
    let mut bytes = Vec::new();
    header(&mut bytes, 2, 0, 24);
    p64(&mut bytes, 77); // counter id
    p64(&mut bytes, 1234); // lost count
    let (rec, next) = decode_record(&plain_cfg(), &bytes, 0).unwrap().unwrap();
    assert_eq!(rec.header.type_, 2);
    assert_eq!(rec.header.size, 24);
    assert_eq!(next, 24);
    match rec.body {
        RecordBody::Lost(body) => {
            assert_eq!(body.id, 77);
            assert_eq!(body.lost, 1234);
            assert_eq!(body.sample_id, None);
        }
        other => panic!("wrong body: {:?}", other),
    }
}

#[test]
fn switch_record_carries_sample_id() {
    // selector mask: pid/tid and time
    let cfg = DecodeConfig { sample_type: (1 << 1) | (1 << 2), sample_id_all: true, read_lost: false };
    let mut bytes = Vec::new();
    header(&mut bytes, 14, 0, 24);
    p32(&mut bytes, 41); // pid
    p32(&mut bytes, 42); // tid
    p64(&mut bytes, 987654321); // time
    let (rec, next) = decode_record(&cfg, &bytes, 0).unwrap().unwrap();
    assert_eq!(next, 24);
    match rec.body {
        RecordBody::Switch(body) => {
            let sid = body.sample_id.unwrap();
            assert_eq!(sid.pid, Some(41));
            assert_eq!(sid.tid, Some(42));
            assert_eq!(sid.time, Some(987654321));
            assert_eq!(sid.id, None);
            assert_eq!(sid.cpu, None);
            assert_eq!(sid.identifier, None);
        }
        other => panic!("wrong body: {:?}", other),
    }
}

#[test]
fn bpf_event_record_decodes() {
    let mut bytes = Vec::new();
    header(&mut bytes, 18, 0, 24);
    p16(&mut bytes, 1); // program event type
    p16(&mut bytes, 0); // flags
    p32(&mut bytes, 55); // program id
    bytes.extend_from_slice(&[1, 2, 3, 4, 5, 6, 7, 8]); // tag
    let (rec, _) = decode_record(&plain_cfg(), &bytes, 0).unwrap().unwrap();
    match rec.body {
        RecordBody::BpfEvent(body) => {
            assert_eq!(body.type_, 1);
            assert_eq!(body.flags, 0);
            assert_eq!(body.id, 55);
            assert_eq!(body.tag, vec![1, 2, 3, 4, 5, 6, 7, 8]);
            assert_eq!(body.sample_id, None);
        }
        other => panic!("wrong body: {:?}", other),
    }
}

#[test]
fn read_record_walks_member_entries() {
    let cfg = plain_cfg();
    let mut bytes = Vec::new();
    header(&mut bytes, 8, 0, 72);
    p32(&mut bytes, 10); // pid
    p32(&mut bytes, 11); // tid
    p64(&mut bytes, 2); // member count
    p64(&mut bytes, 500); // time enabled
    p64(&mut bytes, 400); // time running
    p64(&mut bytes, 111); // member 0 count
    p64(&mut bytes, 1); // member 0 id
    p64(&mut bytes, 222); // member 1 count
    p64(&mut bytes, 2); // member 1 id
    let (rec, next) = decode_record(&cfg, &bytes, 0).unwrap().unwrap();
    assert_eq!(next, 72);
    match rec.body {
        RecordBody::Read(body) => {
            assert_eq!(body.pid, 10);
            assert_eq!(body.tid, 11);
            assert_eq!(body.values_header.members_len, 2);
            assert_eq!(body.values_header.time_enabled, 500);
            assert_eq!(body.values_header.time_running, 400);
            let values = body.values_body();
            assert_eq!(values.len(), 2);
            assert_eq!(values[0].event_count, 111);
            assert_eq!(values[0].event_id, 1);
            assert_eq!(values[0].lost, None);
            assert_eq!(values[1].event_count, 222);
            assert_eq!(values[1].event_id, 2);
            assert_eq!(*body.sample_id(), None);
        }
        other => panic!("wrong body: {:?}", other),
    }
}

#[test]
fn sample_record_weight_full() {
    // selector mask: time and the full weight representation
    let cfg = DecodeConfig { sample_type: (1 << 2) | (1 << 14), sample_id_all: false, read_lost: false };
    let mut bytes = Vec::new();
    header(&mut bytes, 9, 0, 24);
    p64(&mut bytes, 1000); // time
    p64(&mut bytes, 37); // weight
    let (rec, _) = decode_record(&cfg, &bytes, 0).unwrap().unwrap();
    match rec.body {
        RecordBody::Sample(body) => {
            assert_eq!(body.time, Some(1000));
            assert!(matches!(body.weight, Some(Weight::Full(37))));
            assert_eq!(body.pid, None);
            assert_eq!(body.ips, None);
        }
        other => panic!("wrong body: {:?}", other),
    }
}

#[test]
fn sample_record_weight_vars() {
    // selector mask: the structured weight representation
    let cfg = DecodeConfig { sample_type: 1 << 24, sample_id_all: false, read_lost: false };
    let mut bytes = Vec::new();
    header(&mut bytes, 9, 0, 16);
    p32(&mut bytes, 12345); // var1_dw
    p16(&mut bytes, 7); // var2_w
    p16(&mut bytes, 9); // var3_w
    let (rec, _) = decode_record(&cfg, &bytes, 0).unwrap().unwrap();
    match rec.body {
        RecordBody::Sample(body) => {
            assert!(matches!(
                body.weight,
                Some(Weight::Vars { var1_dw: 12345, var2_w: 7, var3_w: 9 })
            ));
        }
        other => panic!("wrong body: {:?}", other),
    }
}

#[test]
fn sample_record_callchain() {
    // selector mask: time and the call chain
    let cfg = DecodeConfig { sample_type: (1 << 2) | (1 << 5), sample_id_all: false, read_lost: false };
    let mut bytes = Vec::new();
    header(&mut bytes, 9, 0, 48);
    p64(&mut bytes, 5000); // time
    p64(&mut bytes, 3); // chain depth
    p64(&mut bytes, 0x1111);
    p64(&mut bytes, 0x2222);
    p64(&mut bytes, 0x3333);
    let (rec, _) = decode_record(&cfg, &bytes, 0).unwrap().unwrap();
    match rec.body {
        RecordBody::Sample(body) => {
            assert_eq!(body.time, Some(5000));
            assert_eq!(body.ips, Some(vec![0x1111, 0x2222, 0x3333]));
        }
        other => panic!("wrong body: {:?}", other),
    }
}

#[test]
fn sample_record_identifier_and_ids() {
    // selector mask: identifier, pid/tid, id, stream id, cpu, period
    let mask = (1u64 << 16) | (1 << 1) | (1 << 6) | (1 << 9) | (1 << 7) | (1 << 8);
    let cfg = DecodeConfig { sample_type: mask, sample_id_all: false, read_lost: false };
    let mut bytes = Vec::new();
    header(&mut bytes, 9, 0, 56);
    p64(&mut bytes, 900); // identifier
    p32(&mut bytes, 1); // pid
    p32(&mut bytes, 2); // tid
    p64(&mut bytes, 33); // id
    p64(&mut bytes, 44); // stream id
    p32(&mut bytes, 3); // cpu
    p32(&mut bytes, 0); // reserved
    p64(&mut bytes, 1000); // period
    let (rec, _) = decode_record(&cfg, &bytes, 0).unwrap().unwrap();
    match rec.body {
        RecordBody::Sample(body) => {
            assert_eq!(body.identifier, Some(900));
            assert_eq!(body.pid, Some(1));
            assert_eq!(body.tid, Some(2));
            assert_eq!(body.id, Some(33));
            assert_eq!(body.stream_id, Some(44));
            assert_eq!(body.cpu, Some(3));
            assert_eq!(body.period, Some(1000));
            assert_eq!(body.time, None);
        }
        other => panic!("wrong body: {:?}", other),
    }
}

#[test]
fn unknown_record_type_passes_payload_through() {
    let mut bytes = Vec::new();
    header(&mut bytes, 3, 0, 16); // a comm record, not interpreted here
    p64(&mut bytes, 0xdeadbeef);
    let (rec, next) = decode_record(&plain_cfg(), &bytes, 0).unwrap().unwrap();
    assert_eq!(next, 16);
    match rec.body {
        RecordBody::Other(payload) => {
            assert_eq!(payload, 0xdeadbeefu64.to_le_bytes().to_vec());
        }
        other => panic!("wrong body: {:?}", other),
    }
}

#[test]
fn incomplete_record_yields_none() {
    let mut bytes = Vec::new();
    header(&mut bytes, 2, 0, 24);
    p64(&mut bytes, 77);
    // the second body field is missing
    assert_eq!(decode_record(&plain_cfg(), &bytes, 0).unwrap(), None);
    // a bare header fragment
    let fragment = vec![2, 0, 0];
    assert_eq!(decode_record(&plain_cfg(), &fragment, 0).unwrap(), None);
}

#[test]
fn undersized_header_is_fatal() {
    let mut bytes = Vec::new();
    header(&mut bytes, 2, 0, 4); // size below the header's own length
    p64(&mut bytes, 0);
    assert_eq!(
        decode_record(&plain_cfg(), &bytes, 0).unwrap_err(),
        DecodeError::HeaderTooSmall
    );
}

#[test]
fn body_past_declared_size_is_fatal() {
    // a lost body needs 16 bytes, but the header grants only 8
    let mut bytes = Vec::new();
    header(&mut bytes, 2, 0, 16);
    p64(&mut bytes, 77);
    assert_eq!(
        decode_record(&plain_cfg(), &bytes, 0).unwrap_err(),
        DecodeError::SizeMismatch
    );
}
