use alerts::classify::{classify, declared_type, looks_like_edr, looks_like_ngav, Classified, DataType};
use alerts::clickhouse::{CommonAlert, TypeSpecificRecord};
use alerts::consumer_service::{
    process_message, ConsumerWorker, Ingested, KafkaMessage, RawMessage, WorkerAction,
    WorkerEvent, RETRY_BACKOFF_MS,
};
use alerts::database::KafkaConfigRow;
use alerts::datetime::DateParts;
use alerts::sink::MemorySink;

fn doc(text: &str) -> Option<serde_json::Value> {
    serde_json::from_str(text).ok()
}

const EDR_JSON: &str = r#"{"schema":1,"create_time":"2022-07-19T17:48:25.018Z","device_external_ip":"130.126.255.183","device_id":98483951,"device_internal_ip":"192.168.223.128","device_name":"WIN-32-H1","device_os":"WINDOWS","ioc_hit":"test ioc","ioc_id":"565644-0","org_key":"7DMF69PK","parent_cmdline":"C:\\Windows\\Explorer.EXE","parent_guid":"7DMF69PK-test","parent_hash":["hash1","hash2"],"parent_path":"c:\\windows\\explorer.exe","parent_pid":1544,"parent_publisher":[{"name":"Microsoft Windows","state":"SIGNED"}],"parent_reputation":"REP_WHITE","parent_username":"WIN-32-H1\\user","process_cmdline":"cmd.exe","process_guid":"7DMF69PK-test-process","process_hash":["hash3","hash4"],"process_path":"c:\\windows\\system32\\cmd.exe","process_pid":2872,"process_publisher":[{"name":"Microsoft Windows","state":"SIGNED"}],"process_reputation":"REP_WHITE","process_username":"WIN-32-H1\\user","report_id":"test-report-123","report_name":"Test Alert","report_tags":["attack","test"],"severity":1,"type":"watchlist.hit","watchlists":[{"id":"test-id","name":"Test Watchlist"}]}"#;

const NGAV_JSON: &str = r#"{"type":"CB_ANALYTICS","id":"test-id-123","legacy_alert_id":"test-legacy-id","org_key":"7DMF69PK","create_time":"2022-07-19T19:32:28Z","last_update_time":"2022-07-19T19:53:44Z","first_event_time":"2022-07-19T19:31:46Z","last_event_time":"2022-07-19T19:52:45Z","threat_id":"test-threat-id","severity":1,"category":"THREAT","device_id":98483951,"device_os":"WINDOWS","device_os_version":"Windows 10","device_name":"TEST-DEVICE","device_username":"test.user@example.com","policy_id":268058,"policy_name":"Test Policy","target_value":"HIGH","workflow":{"state":"OPEN","remediation":"","last_update_time":"bad","comment":"","changed_by":"Carbon Black"},"device_internal_ip":"192.168.1.100","device_external_ip":"1.2.3.4","alert_url":"https://test.com","reason":"Test malware detected","reason_code":"R_MALWARE","process_name":"malware.exe","device_location":"ONSITE","created_by_event_id":"test-event-id","threat_indicators":[{"process_name":"malware.exe","sha256":"testhash123","ttps":["MITRE_T1059","NETWORK_ACCESS"]}],"threat_cause_actor_sha256":"testhash123","threat_cause_actor_name":"malware.exe","threat_cause_actor_process_pid":"1234-567890","threat_cause_reputation":"MALWARE","threat_cause_threat_category":"MALWARE","threat_cause_vector":"WEB","threat_cause_cause_event_id":"test-cause-id","blocked_threat_category":"MALWARE","not_blocked_threat_category":"UNKNOWN","kill_chain_status":["INSTALL_RUN"],"run_state":"TERMINATED","policy_applied":"APPLIED"}"#;

fn now() -> DateParts {
    DateParts { year: 2030, month: 1, day: 2, hour: 3, minute: 4, second: 5, nanosecond: 0 }
}

fn message(payload: &str, data_type: Option<&str>) -> KafkaMessage {
    KafkaMessage {
        topic: "alerts-edr".to_string(),
        partition: 2,
        offset: 77,
        payload: payload.to_string(),
        timestamp: Some(1_700_000_000_000),
        kafka_config_id: 11,
        data_type: data_type.map(|s| s.to_string()),
    }
}

fn kind(c: &Classified) -> Option<DataType> {
    match c {
        Classified::Edr(_) => Some(DataType::Edr),
        Classified::Ngav(_) => Some(DataType::Ngav),
        Classified::Unrecognized => None,
    }
}

#[test]
fn edr_documents_classify_as_edr_whatever_is_declared() {
    let doc = doc(EDR_JSON).unwrap();
    assert!(looks_like_edr(&doc));
    assert!(!looks_like_ngav(&doc));
    assert_eq!(kind(&classify(&doc, None)), Some(DataType::Edr));
    assert_eq!(kind(&classify(&doc, Some(DataType::Ngav))), Some(DataType::Edr));
    assert_eq!(kind(&classify(&doc, Some(DataType::Edr))), Some(DataType::Edr));
}

#[test]
fn ngav_documents_classify_as_ngav_even_when_declared_edr() {
    let doc = doc(NGAV_JSON).unwrap();
    assert!(looks_like_ngav(&doc));
    assert_eq!(kind(&classify(&doc, Some(DataType::Edr))), Some(DataType::Ngav));
    assert_eq!(kind(&classify(&doc, None)), Some(DataType::Ngav));
}

#[test]
fn unmarked_documents_are_unrecognized_and_store_nothing() {
    let doc = doc(r#"{"invalid":"data"}"#).unwrap();
    for declared in [None, Some(DataType::Edr), Some(DataType::Ngav)] {
        assert_eq!(kind(&classify(&doc, declared)), None);
    }
    let outcome = process_message(&message(r#"{"invalid":"data"}"#, Some("edr")), &"src".to_string(), "id-1".to_string(), &now());
    assert!(matches!(outcome, Ingested::Unrecognized));
    assert!(outcome.records().is_none());
}

#[test]
fn marked_but_incomplete_edr_is_unrecognized() {
    let broken = EDR_JSON.replace("\"severity\":1,", "");
    let doc = doc(&broken).unwrap();
    assert!(looks_like_edr(&doc));
    assert_eq!(kind(&classify(&doc, None)), None);
}

#[test]
fn declared_type_names() {
    assert_eq!(declared_type("edr"), Some(DataType::Edr));
    assert_eq!(declared_type("ngav"), Some(DataType::Ngav));
    assert_eq!(declared_type("EDR"), None);
    assert_eq!(declared_type(""), None);
}

#[test]
fn malformed_payloads_are_dropped() {
    let outcome = process_message(&message("{\"report_id\":", None), &"src".to_string(), "id".to_string(), &now());
    assert!(matches!(outcome, Ingested::Malformed));
}

#[test]
fn edr_round_trip_keeps_process_and_parent_fields() {
    let msg = message(EDR_JSON, None);
    let outcome = process_message(&msg, &"edr-source".to_string(), "rec-1".to_string(), &now());
    match outcome {
        Ingested::Edr { alert, common, row } => {
            assert_eq!(common.data_type, "edr");
            assert_eq!(common.id, "rec-1");
            assert_eq!(common.original_id, "WIN-32-H1_test-report-123");
            assert_eq!(common.create_time, "2022-07-19 17:48:25.018");
            assert!(!common.time_fallback);
            assert!(!row.time_fallback);
            assert_eq!(common.raw_data, EDR_JSON);
            assert_eq!(common.threat_category, "");
            assert_eq!(common.device_username, "WIN-32-H1\\user");
            assert_eq!(common.kafka_topic, "alerts-edr");
            assert_eq!(common.kafka_partition, 2);
            assert_eq!(common.kafka_offset, 77);
            assert_eq!(common.kafka_config_name, "edr-source");
            assert_eq!(row.id, "WIN-32-H1_test-report-123");
            assert_eq!(row.process_path, "c:\\windows\\system32\\cmd.exe");
            assert_eq!(row.process_cmdline, "cmd.exe");
            assert_eq!(row.process_pid, 2872);
            assert_eq!(row.process_hash, vec!["hash3".to_string(), "hash4".to_string()]);
            assert_eq!(row.parent_path, "c:\\windows\\explorer.exe");
            assert_eq!(row.parent_cmdline, "C:\\Windows\\Explorer.EXE");
            assert_eq!(row.parent_pid, 1544);
            assert_eq!(row.parent_publisher, vec!["Microsoft Windows".to_string()]);
            assert_eq!(row.watchlists, vec!["Test Watchlist".to_string()]);
            assert_eq!(row.schema, 1);
            assert_eq!(alert.report_id, "test-report-123");
        }
        _ => panic!("expected an EDR outcome"),
    }
}

#[test]
fn ngav_normalization_uses_threat_category_and_fallback_time() {
    let msg = message(NGAV_JSON, Some("edr"));
    let outcome = process_message(&msg, &"s1".to_string(), "rec-2".to_string(), &now());
    match outcome {
        Ingested::Ngav { common, row, .. } => {
            assert_eq!(common.data_type, "ngav");
            assert_eq!(common.threat_category, "MALWARE");
            assert_eq!(common.device_username, "test.user@example.com");
            assert_eq!(common.create_time, "2022-07-19 19:32:28.000");
            assert_eq!(row.workflow_last_update_time, "2030-01-02 03:04:05.000");
            assert!(!common.time_fallback);
            assert!(row.time_fallback);
            assert_eq!(row.threat_indicators, vec!["malware.exe:testhash123".to_string()]);
            assert_eq!(row.workflow_state, "OPEN");
        }
        _ => panic!("expected an NGAV outcome"),
    }
}

#[test]
fn negative_positions_wrap_like_casts() {
    let mut msg = message(EDR_JSON, None);
    msg.partition = -1;
    msg.offset = -2;
    let outcome = process_message(&msg, &"s".to_string(), "r".to_string(), &now());
    match outcome {
        Ingested::Edr { common, row, .. } => {
            assert_eq!(common.kafka_partition, u32::MAX);
            assert_eq!(common.kafka_offset, u64::MAX - 1);
            assert_eq!(row.kafka_partition, u32::MAX);
        }
        _ => panic!("expected an EDR outcome"),
    }
}

fn source(id: u128, name: &str, topic: &str, active: bool) -> KafkaConfigRow {
    KafkaConfigRow {
        id,
        name: name.to_string(),
        bootstrap_servers: "localhost:9092".to_string(),
        topic: topic.to_string(),
        group_id: "g".to_string(),
        message_timeout_ms: 5000,
        request_timeout_ms: 5000,
        retry_backoff_ms: 100,
        retries: 3,
        auto_offset_reset: "earliest".to_string(),
        enable_auto_commit: true,
        auto_commit_interval_ms: 1000,
        is_active: active,
        created_at: 0,
        updated_at: 0,
    }
}

fn raw(payload: Option<&[u8]>) -> RawMessage {
    RawMessage {
        topic: "t1".to_string(),
        partition: 0,
        offset: 5,
        timestamp: None,
        payload: payload.map(|p| p.to_vec()),
    }
}

#[test]
fn worker_survives_transient_errors() {
    let mut w = ConsumerWorker::new(&source(1, "s1", "t1", true), Some("edr".to_string()));
    for k in 1..=3u64 {
        let action = w.step(WorkerEvent::ReceiveError, "id".to_string(), &now());
        assert!(matches!(action, WorkerAction::Backoff { millis } if millis == RETRY_BACKOFF_MS));
        assert!(w.running);
        assert_eq!(w.consecutive_errors, k);
    }
    let action = w.step(WorkerEvent::Received(raw(None)), "id".to_string(), &now());
    assert!(matches!(action, WorkerAction::Skip));
    assert_eq!(w.consecutive_errors, 0);
    assert!(matches!(w.step(WorkerEvent::Cancelled, "id".to_string(), &now()), WorkerAction::Exit));
    assert!(!w.running);
    assert!(matches!(w.step(WorkerEvent::ReceiveError, "id".to_string(), &now()), WorkerAction::Exit));
}

#[test]
fn worker_delivers_classified_messages_and_publishes_them() {
    let mut w = ConsumerWorker::new(&source(1, "s1", "t1", true), Some("edr".to_string()));
    match w.step(WorkerEvent::Received(raw(Some(NGAV_JSON.as_bytes()))), "id-9".to_string(), &now()) {
        WorkerAction::Deliver { message, publish, outcome } => {
            assert!(publish);
            assert_eq!(message.payload, NGAV_JSON);
            assert_eq!(message.kafka_config_id, 1);
            assert_eq!(message.data_type, Some("edr".to_string()));
            assert_eq!(message.offset, 5);
            match outcome.records() {
                Some((common, TypeSpecificRecord::Ngav(row))) => {
                    assert_eq!(common.data_type, "ngav");
                    assert_eq!(common.id, "id-9");
                    assert_eq!(common.kafka_config_name, "s1");
                    assert_eq!(row.id, "TEST-DEVICE_test-id-123");
                }
                _ => panic!("expected NGAV records"),
            }
        }
        _ => panic!("expected a delivery"),
    }
    match w.step(WorkerEvent::Received(raw(Some(b"{}"))), "id".to_string(), &now()) {
        WorkerAction::Deliver { publish, outcome, .. } => {
            assert!(!publish);
            assert!(matches!(outcome, Ingested::Unrecognized));
        }
        _ => panic!("expected a delivery"),
    }
}

#[test]
fn lossy_decoding_replaces_invalid_bytes() {
    let mut w = ConsumerWorker::new(&source(1, "s1", "t1", true), None);
    match w.step(WorkerEvent::Received(raw(Some(&[b'{', 0xff, b'}']))), "id".to_string(), &now()) {
        WorkerAction::Deliver { message, outcome, .. } => {
            assert_eq!(message.payload, "{\u{FFFD}}");
            assert!(matches!(outcome, Ingested::Malformed));
        }
        _ => panic!("expected a delivery"),
    }
}

fn common(id: &str, device: &str) -> CommonAlert {
    let msg = message(EDR_JSON, None);
    match process_message(&msg, &"s".to_string(), id.to_string(), &now()) {
        Ingested::Edr { mut common, .. } => {
            common.device_name = device.to_string();
            common
        }
        _ => panic!("expected an EDR outcome"),
    }
}

#[test]
fn storing_a_record_twice_keeps_one() {
    let mut sink = MemorySink::new();
    sink.store_common(common("a", "d1"));
    sink.store_common(common("a", "d1"));
    assert_eq!(sink.common_count(), 1);
    sink.store_common(common("b", "d1"));
    assert_eq!(sink.common_count(), 2);
    let msg = message(EDR_JSON, None);
    if let Some((_, specific)) = process_message(&msg, &"s".to_string(), "x".to_string(), &now()).records() {
        sink.store_type_specific(specific.clone());
        sink.store_type_specific(specific);
    }
    assert_eq!(sink.specific_count(), 1);
    assert_eq!(sink.common_count(), 2);
}

#[test]
fn missing_or_odd_times_fall_back_to_now() {
    let no_time = EDR_JSON.replace("\"create_time\":\"2022-07-19T17:48:25.018Z\",", "");
    match process_message(&message(&no_time, None), &"s".to_string(), "r".to_string(), &now()) {
        Ingested::Edr { alert, common, row } => {
            assert_eq!(alert.create_time, "");
            assert_eq!(common.create_time, "2030-01-02 03:04:05.000");
            assert_eq!(row.create_time, "2030-01-02 03:04:05.000");
            assert!(common.time_fallback);
            assert!(row.time_fallback);
        }
        _ => panic!("expected an EDR outcome"),
    }
    let numeric = EDR_JSON.replace("\"create_time\":\"2022-07-19T17:48:25.018Z\"", "\"create_time\":12");
    match process_message(&message(&numeric, None), &"s".to_string(), "r".to_string(), &now()) {
        Ingested::Edr { common, .. } => assert_eq!(common.create_time, "2030-01-02 03:04:05.000"),
        _ => panic!("expected an EDR outcome"),
    }
}

#[test]
fn record_identities_are_hyphenated_lowercase_hex() {
    assert_eq!(
        alerts::ids::record_id(0x0123456789abcdef0011223344556677),
        "01234567-89ab-cdef-0011-223344556677"
    );
    assert_eq!(alerts::ids::record_id(0), "00000000-0000-0000-0000-000000000000");
    assert_eq!(alerts::ids::record_id(u128::MAX), "ffffffff-ffff-ffff-ffff-ffffffffffff");
}
