use prefetch_bench::config::ConfigError;
use prefetch_bench::config::RawConfig;
use prefetch_bench::config::Role;
use prefetch_bench::config::build_config;
use prefetch_bench::config::parse_role;
use prefetch_bench::config::parse_u16;
use prefetch_bench::config::parse_u64;
use prefetch_bench::config::parse_usize;
use prefetch_bench::envelope::Envelope;
use prefetch_bench::envelope::bytes_eq;
use prefetch_bench::envelope::classify;
use prefetch_bench::envelope::done_payload;
use prefetch_bench::envelope::start_payload;
use prefetch_bench::payload::fresh_payload;

#[test]
fn sentinels_classify_as_themselves() {
    assert_eq!(classify(&start_payload()), Envelope::Start);
    assert_eq!(classify(&done_payload()), Envelope::Done);
    assert_eq!(start_payload(), b"start".to_vec());
    assert_eq!(done_payload(), b"done".to_vec());
}

#[test]
fn non_sentinel_payloads_classify_as_data() {
    assert_eq!(
        classify(&b"hello".to_vec()),
        Envelope::Data { payload_len: 5 }
    );
    assert_eq!(classify(&b"dome".to_vec()), Envelope::Data { payload_len: 4 });
    assert_eq!(classify(&Vec::new()), Envelope::Data { payload_len: 0 });
    let long = vec![0u8; 512];
    assert_eq!(classify(&long), Envelope::Data { payload_len: 512 });
}

#[test]
fn byte_equality_is_exact() {
    assert!(bytes_eq(&b"start".to_vec(), &b"start".to_vec()));
    assert!(!bytes_eq(&b"start".to_vec(), &b"star".to_vec()));
    assert!(!bytes_eq(&b"start".to_vec(), &b"stare".to_vec()));
    assert!(bytes_eq(&Vec::new(), &Vec::new()));
}

#[test]
fn fresh_payload_has_requested_length() {
    // Would fail if the generator handed its argument back unchanged or
    // padded it: the length and the classification are both pinned.
    for len in [0usize, 1, 4, 5, 64] {
        let p = fresh_payload(len);
        assert_eq!(p.len(), len);
        assert_eq!(classify(&p), Envelope::Data { payload_len: len });
        for b in &p {
            assert!(b.is_ascii_alphanumeric());
        }
    }
}

#[test]
fn fresh_payloads_are_random_filler() {
    // Two draws of a long payload almost surely differ; equality here would
    // mean the generator ignores its randomness source.
    let a = fresh_payload(64);
    let b = fresh_payload(64);
    assert_ne!(a, b);
}

#[test]
fn parse_u64_accepts_exactly_decimals() {
    assert_eq!(parse_u64(&b"0".to_vec()), Some(0));
    assert_eq!(parse_u64(&b"42".to_vec()), Some(42));
    assert_eq!(parse_u64(&b"007".to_vec()), Some(7));
    assert_eq!(
        parse_u64(&b"18446744073709551615".to_vec()),
        Some(u64::MAX)
    );
    assert_eq!(parse_u64(&b"18446744073709551616".to_vec()), None);
    assert_eq!(parse_u64(&b"99999999999999999999999".to_vec()), None);
    assert_eq!(parse_u64(&Vec::new()), None);
    assert_eq!(parse_u64(&b"12a".to_vec()), None);
    assert_eq!(parse_u64(&b"-1".to_vec()), None);
    assert_eq!(parse_u64(&b" 1".to_vec()), None);
}

#[test]
fn parse_u16_bounds_the_prefetch_limit() {
    assert_eq!(parse_u16(&b"1".to_vec()), Some(1));
    assert_eq!(parse_u16(&b"65535".to_vec()), Some(u16::MAX));
    assert_eq!(parse_u16(&b"65536".to_vec()), None);
}

#[test]
fn parse_usize_bounds_the_payload_length() {
    assert_eq!(parse_usize(&b"1024".to_vec()), Some(1024));
    assert_eq!(parse_usize(&Vec::new()), None);
}

#[test]
fn role_selector_spellings() {
    assert_eq!(parse_role(&b"PRODUCER".to_vec()), Some(Role::Producer));
    assert_eq!(parse_role(&b"CONSUMER".to_vec()), Some(Role::Consumer));
    assert_eq!(parse_role(&b"producer".to_vec()), None);
    assert_eq!(parse_role(&b"BROKER".to_vec()), None);
    assert_eq!(parse_role(&Vec::new()), None);
}

fn full_raw() -> RawConfig {
    RawConfig {
        role: Some(b"CONSUMER".to_vec()),
        broker_address: Some(b"amqp://localhost:5672".to_vec()),
        consumer_name: Some(b"c1".to_vec()),
        message_len: Some(b"128".to_vec()),
        message_count: Some(b"5".to_vec()),
        inter_send_delay: Some(b"10".to_vec()),
        prefetch_limit: Some(b"1".to_vec()),
        workload_delay: Some(b"0".to_vec()),
        use_control_channel: true,
    }
}

#[test]
fn valid_settings_build_the_config() {
    let cfg = build_config(full_raw()).unwrap();
    assert_eq!(cfg.role, Role::Consumer);
    assert_eq!(cfg.message_len, 128);
    assert_eq!(cfg.message_count, 5);
    assert_eq!(cfg.inter_send_delay_millis, 10);
    assert_eq!(cfg.prefetch_limit, 1);
    assert_eq!(cfg.workload_delay_millis, 0);
    assert!(cfg.use_control_channel);
    assert_eq!(cfg.consumer_name, Some(b"c1".to_vec()));
    assert_eq!(
        cfg.broker_address,
        b"amqp://localhost:5672".to_vec()
    );
}

#[test]
fn consumer_name_is_optional() {
    let mut raw = full_raw();
    raw.consumer_name = None;
    let cfg = build_config(raw).unwrap();
    assert_eq!(cfg.consumer_name, None);
}

#[test]
fn missing_setting_is_fatal() {
    let mut raw = full_raw();
    raw.message_count = None;
    assert_eq!(build_config(raw), Err(ConfigError::MissingValue));
}

#[test]
fn unknown_role_is_fatal() {
    let mut raw = full_raw();
    raw.role = Some(b"OBSERVER".to_vec());
    assert_eq!(build_config(raw), Err(ConfigError::UnknownRole));
}

#[test]
fn malformed_number_is_fatal() {
    let mut raw = full_raw();
    raw.prefetch_limit = Some(b"many".to_vec());
    assert_eq!(build_config(raw), Err(ConfigError::MalformedNumber));
}

#[test]
fn absence_is_reported_before_a_bad_role() {
    let mut raw = full_raw();
    raw.role = Some(b"OBSERVER".to_vec());
    raw.workload_delay = None;
    assert_eq!(build_config(raw), Err(ConfigError::MissingValue));
}
