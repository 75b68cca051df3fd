use alerts::clickhouse::parse_time_range_to_minutes;
use alerts::datetime::{format_store_time, parse_datetime_for_clickhouse, DateParts};
use alerts::edr_alert::EdrAlert;
use alerts::ngav_alert::NgavAlert;
use alerts::text::{contains_str, decimal_string, same_text, starts_with_str, zero_padded_string};

fn doc(text: &str) -> Option<serde_json::Value> {
    serde_json::from_str(text).ok()
}

const EDR_JSON: &str = r#"{"schema":1,"create_time":"2022-07-19T17:48:25.018Z","device_external_ip":"130.126.255.183","device_id":98483951,"device_internal_ip":"192.168.223.128","device_name":"WIN-32-H1","device_os":"WINDOWS","ioc_hit":"test ioc","ioc_id":"565644-0","org_key":"7DMF69PK","parent_cmdline":"C:\\Windows\\Explorer.EXE","parent_guid":"7DMF69PK-test","parent_hash":["hash1","hash2"],"parent_path":"c:\\windows\\explorer.exe","parent_pid":1544,"parent_publisher":[{"name":"Microsoft Windows","state":"SIGNED"}],"parent_reputation":"REP_WHITE","parent_username":"WIN-32-H1\\user","process_cmdline":"cmd.exe","process_guid":"7DMF69PK-test-process","process_hash":["hash3","hash4"],"process_path":"c:\\windows\\system32\\cmd.exe","process_pid":2872,"process_publisher":[{"name":"Microsoft Windows","state":"SIGNED"}],"process_reputation":"REP_WHITE","process_username":"WIN-32-H1\\user","report_id":"test-report-123","report_name":"Test Alert","report_tags":["attack","test"],"severity":1,"type":"watchlist.hit","watchlists":[{"id":"test-id","name":"Test Watchlist"}]}"#;

const NGAV_JSON: &str = r#"{"type":"CB_ANALYTICS","id":"test-id-123","legacy_alert_id":"test-legacy-id","org_key":"7DMF69PK","create_time":"2022-07-19T19:32:28Z","last_update_time":"2022-07-19T19:53:44Z","first_event_time":"2022-07-19T19:31:46Z","last_event_time":"2022-07-19T19:52:45Z","threat_id":"test-threat-id","severity":1,"category":"THREAT","device_id":98483951,"device_os":"WINDOWS","device_os_version":"Windows 10","device_name":"TEST-DEVICE","device_username":"test.user@example.com","policy_id":268058,"policy_name":"Test Policy","target_value":"HIGH","workflow":{"state":"OPEN","remediation":"","last_update_time":"2022-07-19T19:32:28Z","comment":"","changed_by":"Carbon Black"},"device_internal_ip":"192.168.1.100","device_external_ip":"1.2.3.4","alert_url":"https://test.com","reason":"Test malware detected","reason_code":"R_MALWARE","process_name":"malware.exe","device_location":"ONSITE","created_by_event_id":"test-event-id","threat_indicators":[{"process_name":"malware.exe","sha256":"testhash123","ttps":["MITRE_T1059","NETWORK_ACCESS"]}],"threat_cause_actor_sha256":"testhash123","threat_cause_actor_name":"malware.exe","threat_cause_actor_process_pid":"1234-567890","threat_cause_reputation":"MALWARE","threat_cause_threat_category":"MALWARE","threat_cause_vector":"WEB","threat_cause_cause_event_id":"test-cause-id","blocked_threat_category":"MALWARE","not_blocked_threat_category":"UNKNOWN","kill_chain_status":["INSTALL_RUN"],"run_state":"TERMINATED","policy_applied":"APPLIED"}"#;

fn edr() -> EdrAlert {
    EdrAlert::from_json(&doc(EDR_JSON).unwrap()).unwrap()
}

fn ngav() -> NgavAlert {
    NgavAlert::from_json(&doc(NGAV_JSON).unwrap()).unwrap()
}

#[test]
fn test_edr_alert_parsing() {
    let edr_alert = edr();

    assert_eq!(edr_alert.device_name, "WIN-32-H1");
    assert_eq!(edr_alert.severity, 1);
    assert_eq!(edr_alert.get_severity_level(), "critical");
    assert_eq!(edr_alert.report_name, "Test Alert");
    assert!(edr_alert.is_critical());
    assert!(edr_alert.contains_tag("attack"));

    let alert_key = edr_alert.get_alert_key();
    assert_eq!(alert_key, "WIN-32-H1_test-report-123");
}

#[test]
fn test_ngav_alert_parsing() {
    let ngav_alert = ngav();

    assert_eq!(ngav_alert.device_name, "TEST-DEVICE");
    assert_eq!(ngav_alert.severity, 1);
    assert_eq!(ngav_alert.get_severity_level(), "critical");
    assert_eq!(ngav_alert.reason, "Test malware detected");
    assert!(ngav_alert.is_critical());
    assert!(ngav_alert.is_malware());
    assert!(ngav_alert.has_mitre_ttps());
    assert!(ngav_alert.is_blocked());

    let alert_key = ngav_alert.get_alert_key();
    assert_eq!(alert_key, "TEST-DEVICE_test-id-123");

    let ttps = ngav_alert.get_mitre_ttps();
    assert!(ttps.contains(&"MITRE_T1059".to_string()));
}

#[test]
fn edr_fields_are_read_verbatim() {
    let a = edr();
    assert_eq!(a.schema, 1);
    assert_eq!(a.device_id, 98483951);
    assert_eq!(a.parent_pid, 1544);
    assert_eq!(a.process_pid, 2872);
    assert_eq!(a.parent_path, "c:\\windows\\explorer.exe");
    assert_eq!(a.process_hash, vec!["hash3".to_string(), "hash4".to_string()]);
    assert_eq!(a.parent_publisher.len(), 1);
    assert_eq!(a.parent_publisher[0].name, "Microsoft Windows");
    assert_eq!(a.parent_publisher[0].state, "SIGNED");
    assert_eq!(a.watchlists[0].id, "test-id");
    assert_eq!(a.alert_type, "watchlist.hit");
    assert!(!a.contains_tag("benign"));
    assert!(a.contains_tag("tac"));
    assert_eq!(a.get_process_info(), "c:\\windows\\system32\\cmd.exe[2872] - cmd.exe");
}

#[test]
fn edr_schema_rejects_missing_or_mistyped_fields() {
    let missing = EDR_JSON.replace("\"report_name\":\"Test Alert\",", "");
    assert!(EdrAlert::from_json(&doc(&missing).unwrap()).is_none());
    let wide = EDR_JSON.replace("\"severity\":1", "\"severity\":256");
    assert!(EdrAlert::from_json(&doc(&wide).unwrap()).is_none());
    let negative = EDR_JSON.replace("\"parent_pid\":1544", "\"parent_pid\":-1");
    assert!(EdrAlert::from_json(&doc(&negative).unwrap()).is_none());
    let texty = EDR_JSON.replace("\"parent_hash\":[\"hash1\",\"hash2\"]", "\"parent_hash\":[\"hash1\",2]");
    assert!(EdrAlert::from_json(&doc(&texty).unwrap()).is_none());
    let extra = EDR_JSON.replace("{\"schema\":1,", "{\"schema\":-3,\"extra\":true,");
    let a = EdrAlert::from_json(&doc(&extra).unwrap()).unwrap();
    assert_eq!(a.schema, -3);
}

#[test]
fn ngav_fields_and_queries() {
    let a = ngav();
    assert_eq!(a.policy_id, 268058);
    assert_eq!(a.workflow.changed_by, "Carbon Black");
    assert_eq!(a.threat_indicators[0].sha256, "testhash123");
    assert_eq!(a.kill_chain_status, vec!["INSTALL_RUN".to_string()]);
    assert_eq!(a.get_threat_summary(), "Test malware detected - malware.exe (MALWARE)");
    assert_eq!(a.get_affected_processes(), vec!["malware.exe".to_string()]);
    assert_eq!(a.get_mitre_ttps(), vec!["MITRE_T1059".to_string()]);
}

#[test]
fn ngav_queries_on_edge_values() {
    let mut a = ngav();
    a.threat_cause_threat_category = "NON_MALWARE".to_string();
    assert!(!a.is_malware());
    a.policy_applied = "NOT_APPLIED".to_string();
    a.blocked_threat_category = "UNKNOWN".to_string();
    assert!(!a.is_blocked());
    a.blocked_threat_category = "MALWARE".to_string();
    assert!(a.is_blocked());
    let mut second = a.threat_indicators[0].clone();
    second.process_name = "other.exe".to_string();
    second.ttps = vec!["MITRE_T1003".to_string(), "X".to_string()];
    let third = a.threat_indicators[0].clone();
    a.threat_indicators.push(second);
    a.threat_indicators.push(third);
    assert_eq!(a.get_affected_processes(), vec!["malware.exe".to_string(), "other.exe".to_string()]);
    assert_eq!(
        a.get_mitre_ttps(),
        vec!["MITRE_T1059".to_string(), "MITRE_T1003".to_string(), "MITRE_T1059".to_string()]
    );
    a.threat_indicators.clear();
    assert!(!a.has_mitre_ttps());
    assert!(a.get_mitre_ttps().is_empty());
    assert!(a.get_affected_processes().is_empty());
    a.severity = 3;
    assert_eq!(a.get_severity_level(), "medium");
    assert!(!a.is_critical());
}

#[test]
fn severity_labels() {
    let mut a = edr();
    let expected = [(0u8, "unknown"), (1, "critical"), (2, "high"), (3, "medium"), (4, "low"), (5, "unknown")];
    for (s, label) in expected {
        a.severity = s;
        assert_eq!(a.get_severity_level(), label);
        assert_eq!(a.is_critical(), s <= 2);
    }
}

#[test]
fn ngav_schema_needs_workflow_object() {
    let broken = NGAV_JSON.replace("\"workflow\":{\"state\":\"OPEN\",", "\"workflow\":{\"stat\":\"OPEN\",");
    assert!(NgavAlert::from_json(&doc(&broken).unwrap()).is_none());
    assert!(doc("{not json").is_none());
}

#[test]
fn store_times_follow_the_source_offset() {
    let now = DateParts { year: 2030, month: 1, day: 2, hour: 3, minute: 4, second: 5, nanosecond: 6_000_000 };
    assert_eq!(parse_datetime_for_clickhouse("2022-07-19T17:48:25.018Z", &now), "2022-07-19 17:48:25.018");
    assert_eq!(parse_datetime_for_clickhouse("1996-12-19T16:39:57-08:00", &now), "1996-12-19 16:39:57.000");
    assert_eq!(parse_datetime_for_clickhouse("not a time", &now), "2030-01-02 03:04:05.006");
    assert_eq!(parse_datetime_for_clickhouse("", &now), "2030-01-02 03:04:05.006");
}

#[test]
fn store_time_format_edges() {
    let leap = DateParts { year: 15, month: 12, day: 31, hour: 23, minute: 59, second: 59, nanosecond: 1_999_000_000 };
    assert_eq!(format_store_time(&leap), "0015-12-31 23:59:60.999");
    let signed = DateParts { year: -44, month: 3, day: 15, hour: 0, minute: 0, second: 0, nanosecond: 0 };
    assert_eq!(format_store_time(&signed), "-0044-03-15 00:00:00.000");
    let far = DateParts { year: 12345, month: 1, day: 1, hour: 0, minute: 0, second: 0, nanosecond: 0 };
    assert_eq!(format_store_time(&far), "+12345-01-01 00:00:00.000");
}

#[test]
fn time_ranges() {
    let cases = [
        ("15m", 15),
        ("30m", 30),
        ("1h", 60),
        ("3h", 180),
        ("6h", 360),
        ("12h", 720),
        ("24h", 1440),
        ("3d", 4320),
        ("7d", 10080),
        ("2w", 60),
        ("", 60),
    ];
    for (name, minutes) in cases {
        assert_eq!(parse_time_range_to_minutes(name), minutes);
    }
}

#[test]
fn text_helpers() {
    assert_eq!(decimal_string(0), "0");
    assert_eq!(decimal_string(1544), "1544");
    assert_eq!(decimal_string(u64::MAX), "18446744073709551615");
    assert_eq!(zero_padded_string(7, 3), "007");
    assert_eq!(zero_padded_string(12345, 3), "12345");
    assert!(contains_str("abcabd", "abd"));
    assert!(contains_str("abc", ""));
    assert!(!contains_str("ab", "abc"));
    assert!(starts_with_str("MITRE_T1", "MITRE_"));
    assert!(!starts_with_str("XMITRE_", "MITRE_"));
    assert!(same_text("édr", "édr"));
    assert!(!same_text("edr", "ed"));
}
