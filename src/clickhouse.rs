//! The records written to the analytical store, and the normalizer that builds
//! them from typed alerts and their provenance.

use vstd::prelude::*;
use crate::datetime::{rfc3339_parts, store_time_of, stored_time_text, DateParts};
use crate::edr_alert::{alert_key_of, EdrAlert, Publisher, Watchlist};
use crate::json::texts_view;
use crate::ngav_alert::{NgavAlert, ThreatIndicator};
use crate::text::same_text;

verus! {

/// Filters of the store's alert queries; every present field narrows the result.
#[derive(Debug, Clone)]
pub struct AlertFilters {
    pub device_name: Option<String>,
    pub device_ip: Option<String>,
    pub alert_type: Option<String>,
    pub threat_category: Option<String>,
    pub severity: Option<u32>,
    pub data_type: Option<String>,
    pub kafka_source: Option<String>,
    pub date_from: Option<String>,
    pub date_to: Option<String>,
}

/// Where a message came from: its broker position and the source it was read for.
#[derive(Debug, Clone)]
pub struct Provenance {
    pub topic: String,
    pub partition: i32,
    pub offset: i64,
    /// The configured name of the source.
    pub source_name: String,
}

/// The cross-type record stored for every classified alert.
#[derive(Debug, Clone)]
pub struct CommonAlert {
    pub id: String,
    pub original_id: String,
    pub data_type: String,
    pub create_time: String,
    pub device_id: u64,
    pub device_name: String,
    pub device_os: String,
    pub device_internal_ip: String,
    pub device_external_ip: String,
    pub org_key: String,
    pub severity: u8,
    pub alert_type: String,
    pub threat_category: String,
    pub device_username: String,
    pub raw_data: String,
    pub processed_time: String,
    /// Set when a time of the record is the current time standing in for a
    /// missing or malformed source time.
    pub time_fallback: bool,
    pub kafka_topic: String,
    pub kafka_partition: u32,
    pub kafka_offset: u64,
    pub kafka_config_name: String,
}

/// The full-fidelity record of an EDR alert.
#[derive(Debug, Clone)]
pub struct EdrAlertRow {
    pub id: String,
    pub schema: u32,
    pub create_time: String,
    pub device_external_ip: String,
    pub device_id: u64,
    pub device_internal_ip: String,
    pub device_name: String,
    pub device_os: String,
    pub ioc_hit: String,
    pub ioc_id: String,
    pub org_key: String,
    pub parent_cmdline: String,
    pub parent_guid: String,
    pub parent_hash: Vec<String>,
    pub parent_path: String,
    pub parent_pid: u32,
    pub parent_publisher: Vec<String>,
    pub parent_reputation: String,
    pub parent_username: String,
    pub process_cmdline: String,
    pub process_guid: String,
    pub process_hash: Vec<String>,
    pub process_path: String,
    pub process_pid: u32,
    pub process_publisher: Vec<String>,
    pub process_reputation: String,
    pub process_username: String,
    pub report_id: String,
    pub report_name: String,
    pub report_tags: Vec<String>,
    pub severity: u8,
    pub alert_type: String,
    pub watchlists: Vec<String>,
    pub processed_time: String,
    /// Set when a time of the record is the current time standing in for a
    /// missing or malformed source time.
    pub time_fallback: bool,
    pub kafka_topic: String,
    pub kafka_partition: u32,
    pub kafka_offset: u64,
}

/// The full-fidelity record of an NGAV alert.
#[derive(Debug, Clone)]
pub struct NgavAlertRow {
    pub id: String,
    pub alert_type: String,
    pub legacy_alert_id: String,
    pub org_key: String,
    pub create_time: String,
    pub last_update_time: String,
    pub first_event_time: String,
    pub last_event_time: String,
    pub threat_id: String,
    pub severity: u8,
    pub category: String,
    pub device_id: u64,
    pub device_os: String,
    pub device_os_version: String,
    pub device_name: String,
    pub device_username: String,
    pub policy_id: u64,
    pub policy_name: String,
    pub target_value: String,
    pub workflow_state: String,
    pub workflow_remediation: String,
    pub workflow_last_update_time: String,
    pub workflow_comment: String,
    pub workflow_changed_by: String,
    pub device_internal_ip: String,
    pub device_external_ip: String,
    pub alert_url: String,
    pub reason: String,
    pub reason_code: String,
    pub process_name: String,
    pub device_location: String,
    pub created_by_event_id: String,
    pub threat_indicators: Vec<String>,
    pub threat_cause_actor_sha256: String,
    pub threat_cause_actor_name: String,
    pub threat_cause_actor_process_pid: String,
    pub threat_cause_reputation: String,
    pub threat_cause_threat_category: String,
    pub threat_cause_vector: String,
    pub threat_cause_cause_event_id: String,
    pub blocked_threat_category: String,
    pub not_blocked_threat_category: String,
    pub kill_chain_status: Vec<String>,
    pub run_state: String,
    pub policy_applied: String,
    pub processed_time: String,
    /// Set when a time of the record is the current time standing in for a
    /// missing or malformed source time.
    pub time_fallback: bool,
    pub kafka_topic: String,
    pub kafka_partition: u32,
    pub kafka_offset: u64,
}

/// The type-specific record of an alert.
#[derive(Debug, Clone)]
pub enum TypeSpecificRecord {
    Edr(EdrAlertRow),
    Ngav(NgavAlertRow),
}

/// The two's-complement reading of a signed 32-bit value as unsigned.
pub open spec fn unsigned_bits(v: i32) -> u32 {
    if v >= 0 {
        v as u32
    } else {
        (v + 0x1_0000_0000) as u32
    }
}

/// A broker partition as the store keeps it.
pub open spec fn partition_number(p: i32) -> u32 {
    unsigned_bits(p)
}

/// A broker offset as the store keeps it: its two's-complement reading.
pub open spec fn offset_number(o: i64) -> u64 {
    if o >= 0 {
        o as u64
    } else {
        (o + 0x1_0000_0000_0000_0000) as u64
    }
}

/// The names of publishers, in order.
pub open spec fn publisher_names(v: Seq<Publisher>) -> Seq<Seq<char>> {
    v.map_values(|p: Publisher| p.name@)
}

/// The names of watchlists, in order.
pub open spec fn watchlist_names(v: Seq<Watchlist>) -> Seq<Seq<char>> {
    v.map_values(|w: Watchlist| w.name@)
}

/// `process:sha256` of each indicator, in order.
pub open spec fn indicator_labels(v: Seq<ThreatIndicator>) -> Seq<Seq<char>> {
    v.map_values(|t: ThreatIndicator| t.process_name@ + ":"@ + t.sha256@)
}

/// Reads a signed 32-bit value as unsigned, as a cast does.
pub fn unsigned_bits_of(v: i32) -> (r: u32)
    ensures
        r == unsigned_bits(v),
{
    if v >= 0 {
        v as u32
    } else {
        (v as i64 + 0x1_0000_0000i64) as u32
    }
}

/// A broker partition as the store keeps it.
pub fn partition_of(p: i32) -> (r: u32)
    ensures
        r == partition_number(p),
{
    unsigned_bits_of(p)
}

/// A broker offset as the store keeps it.
pub fn offset_of(o: i64) -> (r: u64)
    ensures
        r == offset_number(o),
{
    if o >= 0 {
        o as u64
    } else {
        (o as i128 + 0x1_0000_0000_0000_0000i128) as u64
    }
}

/// A copy of a list of strings.
pub fn clone_texts(v: &Vec<String>) -> (r: Vec<String>)
    ensures
        texts_view(r@) == texts_view(v@),
{
    let mut out: Vec<String> = Vec::new();
    let mut i: usize = 0;
    while i < v.len()
        invariant
            i <= v@.len(),
            out@.len() == i,
            forall|k: int| 0 <= k < i ==> (#[trigger] out@[k])@ == v@[k]@,
        decreases v@.len() - i,
    {
        let ghost before = out@;
        out.push(v[i].clone());
        assert forall|k: int| 0 <= k < i + 1 implies (#[trigger] out@[k])@ == v@[k]@ by {
            if k < i {
                assert(before[k] == out@[k]);
            }
        }
        i = i + 1;
    }
    assert(texts_view(v@) =~= texts_view(out@)) by {
        assert forall|k: int| 0 <= k < v@.len() implies #[trigger] texts_view(out@)[k] == texts_view(v@)[k] by {
            assert(out@[k]@ == v@[k]@);
        }
    }
    out
}

/// The names of publishers.
fn publisher_name_list(v: &Vec<Publisher>) -> (r: Vec<String>)
    ensures
        texts_view(r@) == publisher_names(v@),
{
    let mut out: Vec<String> = Vec::new();
    let mut i: usize = 0;
    while i < v.len()
        invariant
            i <= v@.len(),
            out@.len() == i,
            forall|k: int| 0 <= k < i ==> (#[trigger] out@[k])@ == v@[k].name@,
        decreases v@.len() - i,
    {
        let ghost before = out@;
        out.push(v[i].name.clone());
        assert forall|k: int| 0 <= k < i + 1 implies (#[trigger] out@[k])@ == v@[k].name@ by {
            if k < i {
                assert(before[k] == out@[k]);
            }
        }
        i = i + 1;
    }
    assert(publisher_names(v@) =~= texts_view(out@)) by {
        assert forall|k: int| 0 <= k < v@.len() implies #[trigger] texts_view(out@)[k] == publisher_names(v@)[k] by {
            assert(out@[k]@ == v@[k].name@);
        }
    }
    out
}

/// The names of watchlists.
fn watchlist_name_list(v: &Vec<Watchlist>) -> (r: Vec<String>)
    ensures
        texts_view(r@) == watchlist_names(v@),
{
    let mut out: Vec<String> = Vec::new();
    let mut i: usize = 0;
    while i < v.len()
        invariant
            i <= v@.len(),
            out@.len() == i,
            forall|k: int| 0 <= k < i ==> (#[trigger] out@[k])@ == v@[k].name@,
        decreases v@.len() - i,
    {
        let ghost before = out@;
        out.push(v[i].name.clone());
        assert forall|k: int| 0 <= k < i + 1 implies (#[trigger] out@[k])@ == v@[k].name@ by {
            if k < i {
                assert(before[k] == out@[k]);
            }
        }
        i = i + 1;
    }
    assert(watchlist_names(v@) =~= texts_view(out@)) by {
        assert forall|k: int| 0 <= k < v@.len() implies #[trigger] texts_view(out@)[k] == watchlist_names(v@)[k] by {
            assert(out@[k]@ == v@[k].name@);
        }
    }
    out
}

/// `process:sha256` of each indicator.
fn indicator_label_list(v: &Vec<ThreatIndicator>) -> (r: Vec<String>)
    ensures
        texts_view(r@) == indicator_labels(v@),
{
    let mut out: Vec<String> = Vec::new();
    let mut i: usize = 0;
    while i < v.len()
        invariant
            i <= v@.len(),
            out@.len() == i,
            forall|k: int| 0 <= k < i ==> (#[trigger] out@[k])@ == v@[k].process_name@ + ":"@ + v@[k].sha256@,
        decreases v@.len() - i,
    {
        let ghost before = out@;
        let mut label = v[i].process_name.clone();
        label.append(":");
        label.append(v[i].sha256.as_str());
        out.push(label);
        assert forall|k: int| 0 <= k < i + 1 implies (#[trigger] out@[k])@ == v@[k].process_name@ + ":"@ + v@[k].sha256@ by {
            if k < i {
                assert(before[k] == out@[k]);
            }
        }
        i = i + 1;
    }
    assert(indicator_labels(v@) =~= texts_view(out@)) by {
        assert forall|k: int| 0 <= k < v@.len() implies #[trigger] texts_view(out@)[k] == indicator_labels(v@)[k] by {
            assert(out@[k]@ == v@[k].process_name@ + ":"@ + v@[k].sha256@);
        }
    }
    out
}

impl CommonAlert {
    /// The fields shared by both kinds of alert, as `from_edr` and `from_ngav` set them.
    pub open spec fn provenance_of(&self, id: Seq<char>, raw: Seq<char>, prov: Provenance) -> bool {
        &&& self.id@ == id
        &&& self.raw_data@ == raw
        &&& self.processed_time@ == Seq::<char>::empty()
        &&& self.kafka_topic@ == prov.topic@
        &&& self.kafka_partition == partition_number(prov.partition)
        &&& self.kafka_offset == offset_number(prov.offset)
        &&& self.kafka_config_name@ == prov.source_name@
    }

    /// The common record of an EDR alert.
    pub open spec fn normalizes_edr(
        &self,
        edr: EdrAlert,
        id: Seq<char>,
        raw: Seq<char>,
        prov: Provenance,
        now: DateParts,
    ) -> bool {
        &&& self.provenance_of(id, raw, prov)
        &&& self.original_id@ == alert_key_of(edr.device_name@, edr.report_id@)
        &&& self.data_type@ == "edr"@
        &&& self.create_time@ == stored_time_text(rfc3339_parts(edr.create_time@), now)
        &&& self.time_fallback == (rfc3339_parts(edr.create_time@) is None)
        &&& self.device_id == edr.device_id
        &&& self.device_name@ == edr.device_name@
        &&& self.device_os@ == edr.device_os@
        &&& self.device_internal_ip@ == edr.device_internal_ip@
        &&& self.device_external_ip@ == edr.device_external_ip@
        &&& self.org_key@ == edr.org_key@
        &&& self.severity == edr.severity
        &&& self.alert_type@ == edr.alert_type@
        &&& self.threat_category@ == Seq::<char>::empty()
        &&& self.device_username@ == edr.process_username@
    }

    /// The common record of an NGAV alert.
    pub open spec fn normalizes_ngav(
        &self,
        ngav: NgavAlert,
        id: Seq<char>,
        raw: Seq<char>,
        prov: Provenance,
        now: DateParts,
    ) -> bool {
        &&& self.provenance_of(id, raw, prov)
        &&& self.original_id@ == alert_key_of(ngav.device_name@, ngav.id@)
        &&& self.data_type@ == "ngav"@
        &&& self.create_time@ == stored_time_text(rfc3339_parts(ngav.create_time@), now)
        &&& self.time_fallback == (rfc3339_parts(ngav.create_time@) is None)
        &&& self.device_id == ngav.device_id
        &&& self.device_name@ == ngav.device_name@
        &&& self.device_os@ == ngav.device_os@
        &&& self.device_internal_ip@ == ngav.device_internal_ip@
        &&& self.device_external_ip@ == ngav.device_external_ip@
        &&& self.org_key@ == ngav.org_key@
        &&& self.severity == ngav.severity
        &&& self.alert_type@ == ngav.alert_type@
        &&& self.threat_category@ == ngav.threat_cause_threat_category@
        &&& self.device_username@ == ngav.device_username@
    }

    /// Builds the common record of an EDR alert. `id` is the record's fresh
    /// identity, `raw` the payload it was decoded from, and `now` the time
    /// that stands in for an unreadable creation time.
    pub fn from_edr(edr: &EdrAlert, id: String, raw: String, prov: &Provenance, now: &DateParts) -> (r: CommonAlert)
        ensures
            r.normalizes_edr(*edr, id@, raw@, *prov, *now),
    {
        let (create_time, time_fallback) = store_time_of(edr.create_time.as_str(), now);
        CommonAlert {
            id,
            original_id: edr.get_alert_key(),
            data_type: String::from_str("edr"),
            create_time,
            device_id: edr.device_id,
            device_name: edr.device_name.clone(),
            device_os: edr.device_os.clone(),
            device_internal_ip: edr.device_internal_ip.clone(),
            device_external_ip: edr.device_external_ip.clone(),
            org_key: edr.org_key.clone(),
            severity: edr.severity,
            alert_type: edr.alert_type.clone(),
            threat_category: String::new(),
            device_username: edr.process_username.clone(),
            raw_data: raw,
            processed_time: String::new(),
            time_fallback,
            kafka_topic: prov.topic.clone(),
            kafka_partition: partition_of(prov.partition),
            kafka_offset: offset_of(prov.offset),
            kafka_config_name: prov.source_name.clone(),
        }
    }

    /// Builds the common record of an NGAV alert; the arguments are as for `from_edr`.
    pub fn from_ngav(ngav: &NgavAlert, id: String, raw: String, prov: &Provenance, now: &DateParts) -> (r: CommonAlert)
        ensures
            r.normalizes_ngav(*ngav, id@, raw@, *prov, *now),
    {
        let (create_time, time_fallback) = store_time_of(ngav.create_time.as_str(), now);
        CommonAlert {
            id,
            original_id: ngav.get_alert_key(),
            data_type: String::from_str("ngav"),
            create_time,
            device_id: ngav.device_id,
            device_name: ngav.device_name.clone(),
            device_os: ngav.device_os.clone(),
            device_internal_ip: ngav.device_internal_ip.clone(),
            device_external_ip: ngav.device_external_ip.clone(),
            org_key: ngav.org_key.clone(),
            severity: ngav.severity,
            alert_type: ngav.alert_type.clone(),
            threat_category: ngav.threat_cause_threat_category.clone(),
            device_username: ngav.device_username.clone(),
            raw_data: raw,
            processed_time: String::new(),
            time_fallback,
            kafka_topic: prov.topic.clone(),
            kafka_partition: partition_of(prov.partition),
            kafka_offset: offset_of(prov.offset),
            kafka_config_name: prov.source_name.clone(),
        }
    }
}

impl EdrAlertRow {
    /// The type-specific record of an EDR alert.
    pub open spec fn normalizes(&self, edr: EdrAlert, prov: Provenance, now: DateParts) -> bool {
        &&& self.id@ == alert_key_of(edr.device_name@, edr.report_id@)
        &&& self.time_fallback == (rfc3339_parts(edr.create_time@) is None)
        &&& self.schema == unsigned_bits(edr.schema)
        &&& self.create_time@ == stored_time_text(rfc3339_parts(edr.create_time@), now)
        &&& self.device_external_ip@ == edr.device_external_ip@
        &&& self.device_id == edr.device_id
        &&& self.device_internal_ip@ == edr.device_internal_ip@
        &&& self.device_name@ == edr.device_name@
        &&& self.device_os@ == edr.device_os@
        &&& self.ioc_hit@ == edr.ioc_hit@
        &&& self.ioc_id@ == edr.ioc_id@
        &&& self.org_key@ == edr.org_key@
        &&& self.parent_cmdline@ == edr.parent_cmdline@
        &&& self.parent_guid@ == edr.parent_guid@
        &&& texts_view(self.parent_hash@) == texts_view(edr.parent_hash@)
        &&& self.parent_path@ == edr.parent_path@
        &&& self.parent_pid == edr.parent_pid
        &&& texts_view(self.parent_publisher@) == publisher_names(edr.parent_publisher@)
        &&& self.parent_reputation@ == edr.parent_reputation@
        &&& self.parent_username@ == edr.parent_username@
        &&& self.process_cmdline@ == edr.process_cmdline@
        &&& self.process_guid@ == edr.process_guid@
        &&& texts_view(self.process_hash@) == texts_view(edr.process_hash@)
        &&& self.process_path@ == edr.process_path@
        &&& self.process_pid == edr.process_pid
        &&& texts_view(self.process_publisher@) == publisher_names(edr.process_publisher@)
        &&& self.process_reputation@ == edr.process_reputation@
        &&& self.process_username@ == edr.process_username@
        &&& self.report_id@ == edr.report_id@
        &&& self.report_name@ == edr.report_name@
        &&& texts_view(self.report_tags@) == texts_view(edr.report_tags@)
        &&& self.severity == edr.severity
        &&& self.alert_type@ == edr.alert_type@
        &&& texts_view(self.watchlists@) == watchlist_names(edr.watchlists@)
        &&& self.processed_time@ == Seq::<char>::empty()
        &&& self.kafka_topic@ == prov.topic@
        &&& self.kafka_partition == partition_number(prov.partition)
        &&& self.kafka_offset == offset_number(prov.offset)
    }

    /// Builds the type-specific record of an EDR alert.
    #[verifier::rlimit(50)]
    pub fn from_edr(edr: &EdrAlert, prov: &Provenance, now: &DateParts) -> (r: EdrAlertRow)
        ensures
            r.normalizes(*edr, *prov, *now),
    {
        let (create_time, time_fallback) = store_time_of(edr.create_time.as_str(), now);
        EdrAlertRow {
            id: edr.get_alert_key(),
            schema: unsigned_bits_of(edr.schema),
            create_time,
            device_external_ip: edr.device_external_ip.clone(),
            device_id: edr.device_id,
            device_internal_ip: edr.device_internal_ip.clone(),
            device_name: edr.device_name.clone(),
            device_os: edr.device_os.clone(),
            ioc_hit: edr.ioc_hit.clone(),
            ioc_id: edr.ioc_id.clone(),
            org_key: edr.org_key.clone(),
            parent_cmdline: edr.parent_cmdline.clone(),
            parent_guid: edr.parent_guid.clone(),
            parent_hash: clone_texts(&edr.parent_hash),
            parent_path: edr.parent_path.clone(),
            parent_pid: edr.parent_pid,
            parent_publisher: publisher_name_list(&edr.parent_publisher),
            parent_reputation: edr.parent_reputation.clone(),
            parent_username: edr.parent_username.clone(),
            process_cmdline: edr.process_cmdline.clone(),
            process_guid: edr.process_guid.clone(),
            process_hash: clone_texts(&edr.process_hash),
            process_path: edr.process_path.clone(),
            process_pid: edr.process_pid,
            process_publisher: publisher_name_list(&edr.process_publisher),
            process_reputation: edr.process_reputation.clone(),
            process_username: edr.process_username.clone(),
            report_id: edr.report_id.clone(),
            report_name: edr.report_name.clone(),
            report_tags: clone_texts(&edr.report_tags),
            severity: edr.severity,
            alert_type: edr.alert_type.clone(),
            watchlists: watchlist_name_list(&edr.watchlists),
            processed_time: String::new(),
            time_fallback,
            kafka_topic: prov.topic.clone(),
            kafka_partition: partition_of(prov.partition),
            kafka_offset: offset_of(prov.offset),
        }
    }
}

impl NgavAlertRow {
    /// The type-specific record of an NGAV alert.
    pub open spec fn normalizes(&self, ngav: NgavAlert, prov: Provenance, now: DateParts) -> bool {
        &&& self.id@ == alert_key_of(ngav.device_name@, ngav.id@)
        &&& self.time_fallback == (rfc3339_parts(ngav.create_time@) is None
            || rfc3339_parts(ngav.last_update_time@) is None
            || rfc3339_parts(ngav.first_event_time@) is None
            || rfc3339_parts(ngav.last_event_time@) is None
            || rfc3339_parts(ngav.workflow.last_update_time@) is None)
        &&& self.alert_type@ == ngav.alert_type@
        &&& self.legacy_alert_id@ == ngav.legacy_alert_id@
        &&& self.org_key@ == ngav.org_key@
        &&& self.create_time@ == stored_time_text(rfc3339_parts(ngav.create_time@), now)
        &&& self.last_update_time@ == stored_time_text(rfc3339_parts(ngav.last_update_time@), now)
        &&& self.first_event_time@ == stored_time_text(rfc3339_parts(ngav.first_event_time@), now)
        &&& self.last_event_time@ == stored_time_text(rfc3339_parts(ngav.last_event_time@), now)
        &&& self.threat_id@ == ngav.threat_id@
        &&& self.severity == ngav.severity
        &&& self.category@ == ngav.category@
        &&& self.device_id == ngav.device_id
        &&& self.device_os@ == ngav.device_os@
        &&& self.device_os_version@ == ngav.device_os_version@
        &&& self.device_name@ == ngav.device_name@
        &&& self.device_username@ == ngav.device_username@
        &&& self.policy_id == ngav.policy_id
        &&& self.policy_name@ == ngav.policy_name@
        &&& self.target_value@ == ngav.target_value@
        &&& self.workflow_state@ == ngav.workflow.state@
        &&& self.workflow_remediation@ == ngav.workflow.remediation@
        &&& self.workflow_last_update_time@ == stored_time_text(rfc3339_parts(ngav.workflow.last_update_time@), now)
        &&& self.workflow_comment@ == ngav.workflow.comment@
        &&& self.workflow_changed_by@ == ngav.workflow.changed_by@
        &&& self.device_internal_ip@ == ngav.device_internal_ip@
        &&& self.device_external_ip@ == ngav.device_external_ip@
        &&& self.alert_url@ == ngav.alert_url@
        &&& self.reason@ == ngav.reason@
        &&& self.reason_code@ == ngav.reason_code@
        &&& self.process_name@ == ngav.process_name@
        &&& self.device_location@ == ngav.device_location@
        &&& self.created_by_event_id@ == ngav.created_by_event_id@
        &&& texts_view(self.threat_indicators@) == indicator_labels(ngav.threat_indicators@)
        &&& self.threat_cause_actor_sha256@ == ngav.threat_cause_actor_sha256@
        &&& self.threat_cause_actor_name@ == ngav.threat_cause_actor_name@
        &&& self.threat_cause_actor_process_pid@ == ngav.threat_cause_actor_process_pid@
        &&& self.threat_cause_reputation@ == ngav.threat_cause_reputation@
        &&& self.threat_cause_threat_category@ == ngav.threat_cause_threat_category@
        &&& self.threat_cause_vector@ == ngav.threat_cause_vector@
        &&& self.threat_cause_cause_event_id@ == ngav.threat_cause_cause_event_id@
        &&& self.blocked_threat_category@ == ngav.blocked_threat_category@
        &&& self.not_blocked_threat_category@ == ngav.not_blocked_threat_category@
        &&& texts_view(self.kill_chain_status@) == texts_view(ngav.kill_chain_status@)
        &&& self.run_state@ == ngav.run_state@
        &&& self.policy_applied@ == ngav.policy_applied@
        &&& self.processed_time@ == Seq::<char>::empty()
        &&& self.kafka_topic@ == prov.topic@
        &&& self.kafka_partition == partition_number(prov.partition)
        &&& self.kafka_offset == offset_number(prov.offset)
    }

    /// Builds the type-specific record of an NGAV alert.
    #[verifier::rlimit(50)]
    pub fn from_ngav(ngav: &NgavAlert, prov: &Provenance, now: &DateParts) -> (r: NgavAlertRow)
        ensures
            r.normalizes(*ngav, *prov, *now),
    {
        let (create_time, f1) = store_time_of(ngav.create_time.as_str(), now);
        let (last_update_time, f2) = store_time_of(ngav.last_update_time.as_str(), now);
        let (first_event_time, f3) = store_time_of(ngav.first_event_time.as_str(), now);
        let (last_event_time, f4) = store_time_of(ngav.last_event_time.as_str(), now);
        let (workflow_last_update_time, f5) = store_time_of(ngav.workflow.last_update_time.as_str(), now);
        NgavAlertRow {
            id: ngav.get_alert_key(),
            alert_type: ngav.alert_type.clone(),
            legacy_alert_id: ngav.legacy_alert_id.clone(),
            org_key: ngav.org_key.clone(),
            create_time,
            last_update_time,
            first_event_time,
            last_event_time,
            threat_id: ngav.threat_id.clone(),
            severity: ngav.severity,
            category: ngav.category.clone(),
            device_id: ngav.device_id,
            device_os: ngav.device_os.clone(),
            device_os_version: ngav.device_os_version.clone(),
            device_name: ngav.device_name.clone(),
            device_username: ngav.device_username.clone(),
            policy_id: ngav.policy_id,
            policy_name: ngav.policy_name.clone(),
            target_value: ngav.target_value.clone(),
            workflow_state: ngav.workflow.state.clone(),
            workflow_remediation: ngav.workflow.remediation.clone(),
            workflow_last_update_time,
            workflow_comment: ngav.workflow.comment.clone(),
            workflow_changed_by: ngav.workflow.changed_by.clone(),
            device_internal_ip: ngav.device_internal_ip.clone(),
            device_external_ip: ngav.device_external_ip.clone(),
            alert_url: ngav.alert_url.clone(),
            reason: ngav.reason.clone(),
            reason_code: ngav.reason_code.clone(),
            process_name: ngav.process_name.clone(),
            device_location: ngav.device_location.clone(),
            created_by_event_id: ngav.created_by_event_id.clone(),
            threat_indicators: indicator_label_list(&ngav.threat_indicators),
            threat_cause_actor_sha256: ngav.threat_cause_actor_sha256.clone(),
            threat_cause_actor_name: ngav.threat_cause_actor_name.clone(),
            threat_cause_actor_process_pid: ngav.threat_cause_actor_process_pid.clone(),
            threat_cause_reputation: ngav.threat_cause_reputation.clone(),
            threat_cause_threat_category: ngav.threat_cause_threat_category.clone(),
            threat_cause_vector: ngav.threat_cause_vector.clone(),
            threat_cause_cause_event_id: ngav.threat_cause_cause_event_id.clone(),
            blocked_threat_category: ngav.blocked_threat_category.clone(),
            not_blocked_threat_category: ngav.not_blocked_threat_category.clone(),
            kill_chain_status: clone_texts(&ngav.kill_chain_status),
            run_state: ngav.run_state.clone(),
            policy_applied: ngav.policy_applied.clone(),
            processed_time: String::new(),
            time_fallback: f1 || f2 || f3 || f4 || f5,
            kafka_topic: prov.topic.clone(),
            kafka_partition: partition_of(prov.partition),
            kafka_offset: offset_of(prov.offset),
        }
    }
}

/// The minutes of a named reporting window; an unknown name means one hour.
pub open spec fn time_range_minutes(name: Seq<char>) -> u32 {
    if name == "15m"@ {
        15
    } else if name == "30m"@ {
        30
    } else if name == "1h"@ {
        60
    } else if name == "3h"@ {
        180
    } else if name == "6h"@ {
        360
    } else if name == "12h"@ {
        720
    } else if name == "24h"@ {
        1440
    } else if name == "3d"@ {
        4320
    } else if name == "7d"@ {
        10080
    } else {
        60
    }
}

/// The minutes of a named reporting window such as `15m`, `6h` or `7d`.
pub fn parse_time_range_to_minutes(time_range: &str) -> (r: u32)
    ensures
        r == time_range_minutes(time_range@),
{
    if same_text(time_range, "15m") {
        15
    } else if same_text(time_range, "30m") {
        30
    } else if same_text(time_range, "1h") {
        60
    } else if same_text(time_range, "3h") {
        180
    } else if same_text(time_range, "6h") {
        360
    } else if same_text(time_range, "12h") {
        720
    } else if same_text(time_range, "24h") {
        1440
    } else if same_text(time_range, "3d") {
        4320
    } else if same_text(time_range, "7d") {
        10080
    } else {
        60
    }
}

} // verus!
