use autd3capi_link_soem::duration::Duration;
use autd3capi_link_soem::handle::HandleTable;
use autd3capi_link_soem::local::{
    AUTDLinkSOEMIsDefault, OptionError, Platform, ProcessPriority, SOEMOption, SoemConfig,
};
use autd3capi_link_soem::thread_priority::{
    AUTDLinkSOEMThreadPriorityCrossplatform, AUTDLinkSOEMThreadPriorityMax,
    AUTDLinkSOEMThreadPriorityMin, PriorityValue, ThreadPriorityDescriptor, ThreadPriorityPtr,
    ThreadPriorityTable,
};

fn default_record(table: &mut ThreadPriorityTable) -> SOEMOption {
    SOEMOption {
        ifname: None,
        buf_size: 16,
        send_cycle: Duration { nanos: 1_000_000 },
        sync0_cycle: Duration { nanos: 1_000_000 },
        process_priority: ProcessPriority::High,
        thread_priority: AUTDLinkSOEMThreadPriorityMax(table),
        state_check_interval: Duration { nanos: 100_000_000 },
        sync_tolerance: Duration { nanos: 1_000 },
        sync_timeout: Duration { nanos: 10_000_000_000 },
        affinity: -1,
    }
}

fn sample_record(table: &mut ThreadPriorityTable) -> SOEMOption {
    SOEMOption {
        ifname: Some(b"eth0".to_vec()),
        buf_size: 32,
        send_cycle: Duration { nanos: 500_000 },
        sync0_cycle: Duration { nanos: 2_000_000 },
        process_priority: ProcessPriority::Realtime,
        thread_priority: AUTDLinkSOEMThreadPriorityCrossplatform(table, 7),
        state_check_interval: Duration { nanos: 50_000_000 },
        sync_tolerance: Duration { nanos: 2_000 },
        sync_timeout: Duration { nanos: 5_000_000_000 },
        affinity: 3,
    }
}

#[test]
fn every_field_is_carried_over() {
    let mut table = HandleTable::new();
    let config = SoemConfig::try_from(sample_record(&mut table), &mut table, Platform::Windows)
        .unwrap();
    assert_eq!(config.buf_size, 32);
    assert_eq!(config.ifname, "eth0");
    assert_eq!(config.send_cycle, Duration { nanos: 500_000 });
    assert_eq!(config.sync0_cycle, Duration { nanos: 2_000_000 });
    assert_eq!(config.process_priority, Some(ProcessPriority::Realtime));
    assert_eq!(
        config.thread_priority,
        ThreadPriorityDescriptor::Crossplatform(PriorityValue::saturating(7))
    );
    assert_eq!(config.state_check_interval, Duration { nanos: 50_000_000 });
    assert_eq!(config.sync_tolerance, Duration { nanos: 2_000 });
    assert_eq!(config.sync_timeout, Duration { nanos: 5_000_000_000 });
    assert_eq!(config.affinity, Some(3));
}

#[test]
fn the_process_priority_is_dropped_where_there_is_none() {
    let mut table = HandleTable::new();
    let config = SoemConfig::try_from(sample_record(&mut table), &mut table, Platform::Other)
        .unwrap();
    assert_eq!(config.process_priority, None);
}

#[test]
fn converting_consumes_the_descriptor() {
    let mut table = HandleTable::new();
    let record = sample_record(&mut table);
    let handle = record.thread_priority;
    assert!(table.get(handle.0).is_some());
    assert!(SoemConfig::try_from(record, &mut table, Platform::Other).is_ok());
    assert!(table.get(handle.0).is_none());
}

#[test]
fn a_consumed_handle_is_refused() {
    let mut table = HandleTable::new();
    let first = sample_record(&mut table);
    let handle = first.thread_priority;
    assert!(SoemConfig::try_from(first, &mut table, Platform::Other).is_ok());
    let mut second = sample_record(&mut table);
    second.thread_priority = handle;
    assert!(matches!(
        SoemConfig::try_from(second, &mut table, Platform::Other),
        Err(OptionError::InvalidThreadPriority)
    ));
}

#[test]
fn a_consumed_handle_stays_refused_when_new_descriptors_are_made() {
    let mut table = HandleTable::new();
    let first = sample_record(&mut table);
    let handle = first.thread_priority;
    assert!(SoemConfig::try_from(first, &mut table, Platform::Other).is_ok());
    for _ in 0..10 {
        AUTDLinkSOEMThreadPriorityMin(&mut table);
    }
    let mut second = sample_record(&mut table);
    second.thread_priority = handle;
    assert!(matches!(
        SoemConfig::try_from(second, &mut table, Platform::Other),
        Err(OptionError::InvalidThreadPriority)
    ));
}

#[test]
fn a_null_or_unknown_handle_is_refused() {
    let mut table = HandleTable::new();
    let mut record = sample_record(&mut table);
    record.thread_priority = ThreadPriorityPtr(0);
    assert!(matches!(
        SoemConfig::try_from(record, &mut table, Platform::Other),
        Err(OptionError::InvalidThreadPriority)
    ));
    let mut record = sample_record(&mut table);
    record.thread_priority = ThreadPriorityPtr(1000);
    let failure = SoemConfig::try_from(record, &mut table, Platform::Other).unwrap_err();
    assert_eq!(
        failure.message(),
        "thread priority handle refers to no descriptor"
    );
}

#[test]
fn a_buffer_size_of_zero_is_refused() {
    let mut table = HandleTable::new();
    let mut record = sample_record(&mut table);
    let handle = record.thread_priority;
    record.buf_size = 0;
    let failure = SoemConfig::try_from(record, &mut table, Platform::Other).unwrap_err();
    assert!(matches!(failure, OptionError::ZeroBufferSize));
    assert_eq!(failure.message(), "buffer size must not be zero");
    assert!(table.get(handle.0).is_some());
}

#[test]
fn a_name_that_is_no_utf8_is_refused() {
    let mut table = HandleTable::new();
    let mut record = sample_record(&mut table);
    let handle = record.thread_priority;
    record.ifname = Some(vec![b'e', b't', 0xff, b'h']);
    let failure = SoemConfig::try_from(record, &mut table, Platform::Other).unwrap_err();
    assert!(matches!(failure, OptionError::InvalidInterfaceName(_)));
    let expected = std::str::from_utf8(&[b'e', b't', 0xff, b'h'])
        .unwrap_err()
        .to_string();
    assert_eq!(failure.message(), expected);
    assert!(table.get(handle.0).is_some());
}

#[test]
fn the_name_is_checked_before_the_size_and_the_size_before_the_handle() {
    let mut table = HandleTable::new();
    let mut record = sample_record(&mut table);
    record.ifname = Some(vec![0xc0]);
    record.buf_size = 0;
    record.thread_priority = ThreadPriorityPtr(0);
    assert!(matches!(
        SoemConfig::try_from(record, &mut table, Platform::Other),
        Err(OptionError::InvalidInterfaceName(_))
    ));
    let mut record = sample_record(&mut table);
    record.buf_size = 0;
    record.thread_priority = ThreadPriorityPtr(0);
    assert!(matches!(
        SoemConfig::try_from(record, &mut table, Platform::Other),
        Err(OptionError::ZeroBufferSize)
    ));
}

#[test]
fn a_name_in_more_than_one_byte_per_character_is_decoded() {
    let mut table = HandleTable::new();
    let mut record = sample_record(&mut table);
    record.ifname = Some("Ethernet \u{30a2}\u{30c0}\u{30d7}\u{30bf} 2".as_bytes().to_vec());
    let config = SoemConfig::try_from(record, &mut table, Platform::Other).unwrap();
    assert_eq!(config.ifname, "Ethernet \u{30a2}\u{30c0}\u{30d7}\u{30bf} 2");
}

#[test]
fn affinity_minus_one_is_no_affinity() {
    let mut table = HandleTable::new();
    let mut record = sample_record(&mut table);
    record.affinity = -1;
    let config = SoemConfig::try_from(record, &mut table, Platform::Other).unwrap();
    assert_eq!(config.affinity, None);
}

#[test]
fn affinity_zero_is_core_zero() {
    let mut table = HandleTable::new();
    let mut record = sample_record(&mut table);
    record.affinity = 0;
    let config = SoemConfig::try_from(record, &mut table, Platform::Other).unwrap();
    assert_eq!(config.affinity, Some(0));
}

#[test]
fn every_negative_affinity_is_no_affinity() {
    let mut table = HandleTable::new();
    for affinity in [-2, -100, i32::MIN] {
        let mut record = sample_record(&mut table);
        record.affinity = affinity;
        let config = SoemConfig::try_from(record, &mut table, Platform::Other).unwrap();
        assert_eq!(config.affinity, None);
    }
    let mut record = sample_record(&mut table);
    record.affinity = i32::MAX;
    let config = SoemConfig::try_from(record, &mut table, Platform::Other).unwrap();
    assert_eq!(config.affinity, Some(i32::MAX as usize));
}

#[test]
fn a_null_name_and_an_empty_name_convert_alike() {
    let mut table = HandleTable::new();
    let mut null = sample_record(&mut table);
    null.ifname = None;
    let mut empty = sample_record(&mut table);
    empty.ifname = Some(Vec::new());
    let null = SoemConfig::try_from(null, &mut table, Platform::Windows).unwrap();
    let empty = SoemConfig::try_from(empty, &mut table, Platform::Windows).unwrap();
    assert_eq!(null.ifname, "");
    assert_eq!(empty.ifname, "");
    assert!(null.same_as(&empty));
}

#[test]
fn converting_twice_gives_equal_configurations() {
    let mut table = HandleTable::new();
    let first = sample_record(&mut table);
    let second = sample_record(&mut table);
    assert_ne!(first.thread_priority, second.thread_priority);
    let first = SoemConfig::try_from(first, &mut table, Platform::Windows).unwrap();
    let second = SoemConfig::try_from(second, &mut table, Platform::Windows).unwrap();
    assert!(first.same_as(&second));
    assert!(second.same_as(&first));
}

fn differs(change: fn(&mut SoemConfig)) -> bool {
    let mut table = HandleTable::new();
    let base = SoemConfig::try_from(sample_record(&mut table), &mut table, Platform::Windows)
        .unwrap();
    let mut changed = SoemConfig::try_from(sample_record(&mut table), &mut table, Platform::Windows)
        .unwrap();
    change(&mut changed);
    !base.same_as(&changed) && !changed.same_as(&base)
}

#[test]
fn configurations_that_differ_in_one_field_are_not_the_same() {
    assert!(differs(|c| c.buf_size = 33));
    assert!(differs(|c| c.ifname = String::from("eth1")));
    assert!(differs(|c| c.state_check_interval = Duration { nanos: 1 }));
    assert!(differs(|c| c.sync0_cycle = Duration { nanos: 1 }));
    assert!(differs(|c| c.send_cycle = Duration { nanos: 1 }));
    assert!(differs(|c| c.thread_priority = ThreadPriorityDescriptor::Min));
    assert!(differs(|c| c.process_priority = None));
    assert!(differs(|c| c.process_priority = Some(ProcessPriority::Idle)));
    assert!(differs(|c| c.sync_tolerance = Duration { nanos: 1 }));
    assert!(differs(|c| c.sync_timeout = Duration { nanos: 1 }));
    assert!(differs(|c| c.affinity = None));
    assert!(differs(|c| c.affinity = Some(4)));
    assert!(!differs(|_| {}));
}

#[test]
fn the_record_of_default_values_is_the_default() {
    let mut table = HandleTable::new();
    let record = default_record(&mut table);
    assert!(AUTDLinkSOEMIsDefault(&mut table, Platform::Other, record));
    let record = default_record(&mut table);
    assert!(AUTDLinkSOEMIsDefault(&mut table, Platform::Windows, record));
    let mut record = default_record(&mut table);
    record.ifname = Some(Vec::new());
    assert!(AUTDLinkSOEMIsDefault(&mut table, Platform::Other, record));
}

#[test]
fn the_default_is_the_engines() {
    let engine = autd3_link_soem::SOEMOption::default();
    let mut table = HandleTable::new();
    let config = SoemConfig::try_from(default_record(&mut table), &mut table, Platform::Other)
        .unwrap();
    assert_eq!(config.buf_size, engine.buf_size.get());
    assert_eq!(config.ifname, engine.ifname);
    assert_eq!(
        config.state_check_interval.nanos as u128,
        engine.state_check_interval.as_nanos()
    );
    assert_eq!(config.sync0_cycle.nanos as u128, engine.sync0_cycle.as_nanos());
    assert_eq!(config.send_cycle.nanos as u128, engine.send_cycle.as_nanos());
    assert_eq!(
        config.sync_tolerance.nanos as u128,
        engine.sync_tolerance.as_nanos()
    );
    assert_eq!(
        config.sync_timeout.nanos as u128,
        engine.sync_timeout.as_nanos()
    );
    assert_eq!(engine.thread_priority, autd3_link_soem::ThreadPriority::Max);
    assert_eq!(config.thread_priority, ThreadPriorityDescriptor::Max);
    assert_eq!(config.affinity, engine.affinity.map(|core| core.id));
}

fn is_default_after(platform: Platform, change: fn(&mut SOEMOption)) -> bool {
    let mut table = HandleTable::new();
    let mut record = default_record(&mut table);
    change(&mut record);
    AUTDLinkSOEMIsDefault(&mut table, platform, record)
}

#[test]
fn a_record_that_differs_in_one_field_is_no_default() {
    let p = Platform::Windows;
    assert!(is_default_after(p, |_| {}));
    assert!(!is_default_after(p, |r| r.ifname = Some(b"eth0".to_vec())));
    assert!(!is_default_after(p, |r| r.buf_size = 17));
    assert!(!is_default_after(p, |r| r.send_cycle = Duration { nanos: 500_000 }));
    assert!(!is_default_after(p, |r| r.sync0_cycle = Duration { nanos: 500_000 }));
    assert!(!is_default_after(p, |r| r.process_priority = ProcessPriority::Normal));
    assert!(!is_default_after(p, |r| r.state_check_interval = Duration { nanos: 1 }));
    assert!(!is_default_after(p, |r| r.sync_tolerance = Duration { nanos: 2_000 }));
    assert!(!is_default_after(p, |r| r.sync_timeout = Duration { nanos: 1 }));
    assert!(!is_default_after(p, |r| r.affinity = 0));
}

#[test]
fn another_thread_priority_is_no_default() {
    let mut table = HandleTable::new();
    let mut record = default_record(&mut table);
    record.thread_priority = AUTDLinkSOEMThreadPriorityMin(&mut table);
    assert!(!AUTDLinkSOEMIsDefault(&mut table, Platform::Other, record));
    let mut record = default_record(&mut table);
    record.thread_priority = AUTDLinkSOEMThreadPriorityCrossplatform(&mut table, 99);
    assert!(!AUTDLinkSOEMIsDefault(&mut table, Platform::Other, record));
}

#[test]
fn where_no_process_priority_is_honored_it_does_not_count() {
    assert!(is_default_after(Platform::Other, |r| {
        r.process_priority = ProcessPriority::Idle
    }));
    assert!(!is_default_after(Platform::Windows, |r| {
        r.process_priority = ProcessPriority::Idle
    }));
}

#[test]
fn every_negative_affinity_is_the_default_affinity() {
    assert!(is_default_after(Platform::Other, |r| r.affinity = -7));
}

#[test]
fn a_record_that_does_not_convert_is_no_default() {
    assert!(!is_default_after(Platform::Other, |r| r.buf_size = 0));
    assert!(!is_default_after(Platform::Other, |r| {
        r.ifname = Some(vec![0xff])
    }));
    assert!(!is_default_after(Platform::Other, |r| {
        r.thread_priority = ThreadPriorityPtr(0)
    }));
}

#[test]
fn asking_for_the_default_consumes_the_descriptor() {
    let mut table = HandleTable::new();
    let record = default_record(&mut table);
    let handle = record.thread_priority;
    assert!(AUTDLinkSOEMIsDefault(&mut table, Platform::Other, record));
    assert!(table.get(handle.0).is_none());
    let mut again = default_record(&mut table);
    again.thread_priority = handle;
    assert!(!AUTDLinkSOEMIsDefault(&mut table, Platform::Other, again));
}
