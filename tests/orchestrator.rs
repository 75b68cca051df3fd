use alerts::consumer_service::{ConsumerService, ConsumerWorker, WorkerAction, WorkerEvent};
use alerts::database::KafkaConfigRow;
use alerts::datetime::DateParts;

fn doc(text: &str) -> Option<serde_json::Value> {
    serde_json::from_str(text).ok()
}

fn source(id: u128, topic: &str, active: bool) -> KafkaConfigRow {
    KafkaConfigRow {
        id,
        name: format!("source-{}", id),
        bootstrap_servers: "localhost:9092".to_string(),
        topic: topic.to_string(),
        group_id: "g".to_string(),
        message_timeout_ms: 5000,
        request_timeout_ms: 5000,
        retry_backoff_ms: 100,
        retries: 3,
        auto_offset_reset: "earliest".to_string(),
        enable_auto_commit: true,
        auto_commit_interval_ms: 1000,
        is_active: active,
        created_at: 0,
        updated_at: 0,
    }
}

const S1: &str = "11111111-2222-3333-4444-555555555555";
const S1_VALUE: u128 = 0x11111111_2222_3333_4444_555555555555;

fn mapping_rows() -> Vec<serde_json::Value> {
    vec![
        doc(&format!(r#"{{"kafka_config_id":"{}","data_type":"edr"}}"#, S1)).unwrap(),
        doc(r#"{"kafka_config_id":"not-a-uuid","data_type":"ngav"}"#).unwrap(),
        doc(r#"{"data_type":"ngav"}"#).unwrap(),
    ]
}

#[test]
fn start_tracks_each_active_source() {
    let mut service: ConsumerService<u32> = ConsumerService::new();
    let configs = vec![source(1, "a", true), source(2, "b", true), source(3, "c", true)];
    let workers = service.start(&configs);
    assert_eq!(workers.len(), 3);
    let status = service.get_consumer_status();
    assert_eq!(status.len(), 3);
    for (i, s) in status.iter().enumerate() {
        assert_eq!(s.config_id, configs[i].id);
        assert_eq!(s.topic, configs[i].topic);
        assert!(s.running);
        assert_eq!(s.data_type, "unknown");
    }
}

#[test]
fn start_with_no_active_sources_is_idle() {
    let mut service: ConsumerService<u32> = ConsumerService::new();
    let workers = service.start(&vec![source(1, "a", false)]);
    assert!(workers.is_empty());
    assert_eq!(service.consumer_count(), 0);
}

#[test]
fn second_start_does_not_duplicate_workers() {
    let mut service: ConsumerService<u32> = ConsumerService::new();
    let configs = vec![source(1, "a", true), source(1, "dup", true), source(2, "b", true)];
    assert_eq!(service.start(&configs).len(), 2);
    assert_eq!(service.start(&configs).len(), 0);
    assert_eq!(service.consumer_count(), 2);
}

#[test]
fn active_source_with_declared_type_still_takes_ngav_alerts() {
    let mut service: ConsumerService<u32> = ConsumerService::new();
    service.refresh_data_source_mapping(&mapping_rows());
    assert_eq!(service.declared_type_for(S1_VALUE), Some("edr".to_string()));
    let configs = vec![source(S1_VALUE, "edr-topic", true), source(2, "other", false)];
    let mut workers = service.start(&configs);
    let status = service.get_consumer_status();
    assert_eq!(status.len(), 1);
    assert_eq!(status[0].config_id, S1_VALUE);
    assert!(status[0].running);
    assert_eq!(status[0].data_type, "edr");
    let mut worker: ConsumerWorker = workers.remove(0);
    assert_eq!(worker.data_type, Some("edr".to_string()));
    let ngav = r#"{"type":"CB_ANALYTICS","id":"n1","legacy_alert_id":"l","org_key":"o","create_time":"2022-07-19T19:32:28Z","last_update_time":"2022-07-19T19:53:44Z","first_event_time":"2022-07-19T19:31:46Z","last_event_time":"2022-07-19T19:52:45Z","threat_id":"t","severity":2,"category":"THREAT","device_id":1,"device_os":"WINDOWS","device_os_version":"10","device_name":"D","device_username":"u","policy_id":3,"policy_name":"p","target_value":"HIGH","workflow":{"state":"OPEN","remediation":"","last_update_time":"2022-07-19T19:32:28Z","comment":"","changed_by":"x"},"device_internal_ip":"i","device_external_ip":"e","alert_url":"a","reason":"r","reason_code":"c","process_name":"p.exe","device_location":"ONSITE","created_by_event_id":"ev","threat_indicators":[],"threat_cause_actor_sha256":"s","threat_cause_actor_name":"n","threat_cause_actor_process_pid":"1","threat_cause_reputation":"r","threat_cause_threat_category":"MALWARE","threat_cause_vector":"WEB","threat_cause_cause_event_id":"c","blocked_threat_category":"UNKNOWN","not_blocked_threat_category":"UNKNOWN","kill_chain_status":[],"run_state":"RAN","policy_applied":"NOT_APPLIED"}"#;
    let raw = alerts::consumer_service::RawMessage {
        topic: "edr-topic".to_string(),
        partition: 0,
        offset: 1,
        timestamp: None,
        payload: Some(ngav.as_bytes().to_vec()),
    };
    let now = DateParts { year: 2024, month: 1, day: 1, hour: 0, minute: 0, second: 0, nanosecond: 0 };
    match worker.step(WorkerEvent::Received(raw), "r".to_string(), &now) {
        WorkerAction::Deliver { outcome, .. } => {
            let (common, _) = outcome.records().unwrap();
            assert_eq!(common.data_type, "ngav");
        }
        _ => panic!("expected a delivery"),
    }
}

#[test]
fn worker_stays_running_after_three_transient_errors() {
    let mut service: ConsumerService<u32> = ConsumerService::new();
    let mut workers = service.start(&vec![source(1, "a", true)]);
    assert_eq!(service.attach(1, 10), None);
    let now = DateParts { year: 2024, month: 1, day: 1, hour: 0, minute: 0, second: 0, nanosecond: 0 };
    let worker = &mut workers[0];
    for _ in 0..3 {
        let action = worker.step(WorkerEvent::ReceiveError, "r".to_string(), &now);
        assert!(!matches!(action, WorkerAction::Exit));
        assert!(worker.running);
    }
    let status = service.get_consumer_status();
    assert_eq!(status.len(), 1);
    assert!(status[0].running);
}

#[test]
fn stop_on_an_idle_service_is_a_no_op() {
    let mut service: ConsumerService<u32> = ConsumerService::new();
    assert!(service.stop().is_empty());
    assert_eq!(service.consumer_count(), 0);
}

#[test]
fn stop_returns_launched_handles() {
    let mut service: ConsumerService<u32> = ConsumerService::new();
    service.start(&vec![source(1, "a", true), source(2, "b", true), source(3, "c", true)]);
    assert_eq!(service.attach(3, 30), None);
    assert_eq!(service.attach(1, 10), None);
    assert_eq!(service.attach(1, 11), Some(11));
    assert_eq!(service.attach(9, 90), Some(90));
    assert_eq!(service.stop(), vec![10, 30]);
    assert_eq!(service.consumer_count(), 0);
}

#[test]
fn finished_workers_are_reported_not_running() {
    let mut service: ConsumerService<u32> = ConsumerService::new();
    service.start(&vec![source(1, "a", true), source(2, "b", true)]);
    assert!(service.mark_finished(2));
    assert!(!service.mark_finished(5));
    let status = service.get_consumer_status();
    assert!(status[0].running);
    assert!(!status[1].running);
}

#[test]
fn refresh_rebuilds_from_the_current_registry() {
    let mut service: ConsumerService<u32> = ConsumerService::new();
    service.start(&vec![source(1, "a", true), source(2, "b", true), source(3, "c", true)]);
    service.attach(2, 20);
    let configs = vec![source(S1_VALUE, "edr-topic", true), source(4, "d", false)];
    let (handles, workers) = service.refresh_consumers(&mapping_rows(), &configs);
    assert_eq!(handles, vec![20]);
    assert_eq!(workers.len(), 1);
    assert_eq!(workers[0].data_type, Some("edr".to_string()));
    assert_eq!(service.consumer_count(), 1);
    assert_eq!(service.get_consumer_status()[0].topic, "edr-topic");
}

#[test]
fn later_mapping_rows_win() {
    let mut service: ConsumerService<u32> = ConsumerService::new();
    let rows = vec![
        doc(&format!(r#"{{"kafka_config_id":"{}","data_type":"edr"}}"#, S1)).unwrap(),
        doc(&format!(r#"{{"kafka_config_id":"{}","data_type":"ngav"}}"#, S1)).unwrap(),
    ];
    service.refresh_data_source_mapping(&rows);
    assert_eq!(service.declared_type_for(S1_VALUE), Some("ngav".to_string()));
    service.refresh_data_source_mapping(&vec![]);
    assert_eq!(service.declared_type_for(S1_VALUE), None);
}
