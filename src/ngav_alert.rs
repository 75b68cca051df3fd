//! Next-generation antivirus (NGAV) alerts: the record, its schema, and its queries.

use vstd::prelude::*;
use crate::edr_alert::{alert_key_of, join_key, severity_label, severity_level};
use crate::json::{
    time_field, time_text_at,
    field, json_view, list_of, member_of, text_at, text_field, text_list_at, text_list_field,
    texts_view, u64_at, u8_at, unsigned_field, JsonView,
};
use crate::text::{
    contains_str, contains_text, same_text, starts_with_str, starts_with_text,
};

verus! {

/// The triage state of an alert.
#[derive(Debug, Clone)]
pub struct Workflow {
    pub state: String,
    pub remediation: String,
    pub last_update_time: String,
    pub comment: String,
    pub changed_by: String,
}

/// A process that the detection implicates, with its tactics and techniques.
#[derive(Debug, Clone)]
pub struct ThreatIndicator {
    pub process_name: String,
    pub sha256: String,
    pub ttps: Vec<String>,
}

/// A next-generation antivirus alert as the service reports it.
#[derive(Debug, Clone)]
pub struct NgavAlert {
    /// Serialized under the key `type`.
    pub alert_type: String,
    pub id: String,
    pub legacy_alert_id: String,
    pub org_key: String,
    pub create_time: String,
    pub last_update_time: String,
    pub first_event_time: String,
    pub last_event_time: String,
    pub threat_id: String,
    pub severity: u8,
    pub category: String,
    pub device_id: u64,
    pub device_os: String,
    pub device_os_version: String,
    pub device_name: String,
    pub device_username: String,
    pub policy_id: u64,
    pub policy_name: String,
    pub target_value: String,
    pub workflow: Workflow,
    pub device_internal_ip: String,
    pub device_external_ip: String,
    pub alert_url: String,
    pub reason: String,
    pub reason_code: String,
    pub process_name: String,
    pub device_location: String,
    pub created_by_event_id: String,
    pub threat_indicators: Vec<ThreatIndicator>,
    pub threat_cause_actor_sha256: String,
    pub threat_cause_actor_name: String,
    pub threat_cause_actor_process_pid: String,
    pub threat_cause_reputation: String,
    pub threat_cause_threat_category: String,
    pub threat_cause_vector: String,
    pub threat_cause_cause_event_id: String,
    pub blocked_threat_category: String,
    pub not_blocked_threat_category: String,
    pub kill_chain_status: Vec<String>,
    pub run_state: String,
    pub policy_applied: String,
}

/// A technique identifier from the MITRE ATT&CK catalogue.
pub open spec fn is_mitre(ttp: Seq<char>) -> bool {
    starts_with_text(ttp, "MITRE_"@)
}

/// The MITRE identifiers among `ttps`, in order.
pub open spec fn mitre_of(ttps: Seq<Seq<char>>) -> Seq<Seq<char>>
    decreases ttps.len(),
{
    if ttps.len() == 0 {
        seq![]
    } else {
        let p = mitre_of(ttps.drop_last());
        if is_mitre(ttps.last()) {
            p.push(ttps.last())
        } else {
            p
        }
    }
}

/// The MITRE identifiers of all indicators, indicator by indicator.
pub open spec fn mitre_all(tis: Seq<ThreatIndicator>) -> Seq<Seq<char>>
    decreases tis.len(),
{
    if tis.len() == 0 {
        seq![]
    } else {
        mitre_all(tis.drop_last()) + mitre_of(texts_view(tis.last().ttps@))
    }
}

/// The elements of `s` without repeats, each where it first occurs.
pub open spec fn distinct_in_order(s: Seq<Seq<char>>) -> Seq<Seq<char>>
    decreases s.len(),
{
    if s.len() == 0 {
        seq![]
    } else {
        let p = distinct_in_order(s.drop_last());
        if p.contains(s.last()) {
            p
        } else {
            p.push(s.last())
        }
    }
}

/// The process names of the indicators, in order.
pub open spec fn process_names(tis: Seq<ThreatIndicator>) -> Seq<Seq<char>> {
    tis.map_values(|t: ThreatIndicator| t.process_name@)
}

impl NgavAlert {
    /// Some indicator lists a MITRE technique.
    pub open spec fn lists_mitre(&self) -> bool {
        exists|i: int, k: int|
            0 <= i < self.threat_indicators@.len() && 0 <= k < self.threat_indicators@[i].ttps@.len()
                && is_mitre(#[trigger] self.threat_indicators@[i].ttps@[k]@)
    }

    /// `reason - actor (category)`.
    pub open spec fn threat_summary_text(&self) -> Seq<char> {
        self.reason@ + " - "@ + self.threat_cause_actor_name@ + " ("@
            + self.threat_cause_threat_category@ + ")"@
    }

    /// The label of the alert's severity.
    pub fn get_severity_level(&self) -> (r: &'static str)
        ensures
            r@ == severity_label(self.severity),
    {
        severity_level(self.severity)
    }

    /// The key that identifies the alert at its source: device name and alert id.
    pub fn get_alert_key(&self) -> (r: String)
        ensures
            r@ == alert_key_of(self.device_name@, self.id@),
    {
        join_key(&self.device_name, &self.id)
    }

    /// Severity 1 or 2 (and the unused 0) counts as critical.
    pub fn is_critical(&self) -> (r: bool)
        ensures
            r == (self.severity <= 2),
    {
        self.severity <= 2
    }

    /// Malware unless the threat category says `NON_MALWARE`.
    pub fn is_malware(&self) -> (r: bool)
        ensures
            r == !contains_text(self.threat_cause_threat_category@, "NON_MALWARE"@),
    {
        !contains_str(self.threat_cause_threat_category.as_str(), "NON_MALWARE")
    }

    /// Whether some indicator lists a MITRE technique.
    pub fn has_mitre_ttps(&self) -> (r: bool)
        ensures
            r == self.lists_mitre(),
    {
        let tis = &self.threat_indicators;
        let mut i: usize = 0;
        while i < tis.len()
            invariant
                tis == &self.threat_indicators,
                i <= tis@.len(),
                forall|a: int, k: int|
                    0 <= a < i && 0 <= k < tis@[a].ttps@.len() ==> !is_mitre(#[trigger] tis@[a].ttps@[k]@),
            decreases tis@.len() - i,
        {
            let ttps = &tis[i].ttps;
            let mut k: usize = 0;
            while k < ttps.len()
                invariant
                    tis == &self.threat_indicators,
                    i < tis@.len(),
                    ttps == &tis@[i as int].ttps,
                    k <= ttps@.len(),
                    forall|a: int, b: int|
                        0 <= a < i && 0 <= b < tis@[a].ttps@.len() ==> !is_mitre(#[trigger] tis@[a].ttps@[b]@),
                    forall|b: int| 0 <= b < k ==> !is_mitre(#[trigger] ttps@[b]@),
                decreases ttps@.len() - k,
            {
                if starts_with_str(ttps[k].as_str(), "MITRE_") {
                    assert(is_mitre(tis@[i as int].ttps@[k as int]@));
                    return true;
                }
                k = k + 1;
            }
            i = i + 1;
        }
        false
    }

    /// The MITRE techniques of all indicators, in order.
    pub fn get_mitre_ttps(&self) -> (r: Vec<String>)
        ensures
            texts_view(r@) == mitre_all(self.threat_indicators@),
    {
        let tis = &self.threat_indicators;
        let mut out: Vec<String> = Vec::new();
        let mut i: usize = 0;
        while i < tis.len()
            invariant
                tis == &self.threat_indicators,
                i <= tis@.len(),
                texts_view(out@) == mitre_all(tis@.subrange(0, i as int)),
            decreases tis@.len() - i,
        {
            let ttps = &tis[i].ttps;
            let ghost done = texts_view(out@);
            let ghost names = texts_view(ttps@);
            let mut k: usize = 0;
            while k < ttps.len()
                invariant
                    tis == &self.threat_indicators,
                    i < tis@.len(),
                    ttps == &tis@[i as int].ttps,
                    names == texts_view(ttps@),
                    k <= ttps@.len(),
                    texts_view(out@) == done + mitre_of(names.subrange(0, k as int)),
                decreases ttps@.len() - k,
            {
                assert(names.subrange(0, k + 1).drop_last() =~= names.subrange(0, k as int));
                let ghost before = out@;
                if starts_with_str(ttps[k].as_str(), "MITRE_") {
                    out.push(ttps[k].clone());
                    assert(texts_view(out@) =~= texts_view(before).push(names[k as int]));
                }
                k = k + 1;
            }
            assert(names.subrange(0, k as int) =~= names);
            assert(tis@.subrange(0, i + 1).drop_last() =~= tis@.subrange(0, i as int));
            i = i + 1;
        }
        assert(tis@.subrange(0, i as int) =~= tis@);
        out
    }

    /// `reason - actor (category)`.
    pub fn get_threat_summary(&self) -> (r: String)
        ensures
            r@ == self.threat_summary_text(),
    {
        let mut s = self.reason.clone();
        s.append(" - ");
        s.append(self.threat_cause_actor_name.as_str());
        s.append(" (");
        s.append(self.threat_cause_threat_category.as_str());
        s.append(")");
        s
    }

    /// Blocked when the policy was applied or a blocked category is known.
    pub fn is_blocked(&self) -> (r: bool)
        ensures
            r == (self.policy_applied@ == "APPLIED"@ || self.blocked_threat_category@ != "UNKNOWN"@),
    {
        same_text(self.policy_applied.as_str(), "APPLIED") || !same_text(
            self.blocked_threat_category.as_str(),
            "UNKNOWN",
        )
    }

    /// The distinct process names of the indicators, each where it first occurs.
    pub fn get_affected_processes(&self) -> (r: Vec<String>)
        ensures
            texts_view(r@) == distinct_in_order(process_names(self.threat_indicators@)),
    {
        let tis = &self.threat_indicators;
        let ghost names = process_names(tis@);
        let mut out: Vec<String> = Vec::new();
        let mut i: usize = 0;
        while i < tis.len()
            invariant
                tis == &self.threat_indicators,
                names == process_names(tis@),
                i <= tis@.len(),
                texts_view(out@) == distinct_in_order(names.subrange(0, i as int)),
            decreases tis@.len() - i,
        {
            let name = &tis[i].process_name;
            let mut seen = false;
            let mut k: usize = 0;
            while k < out.len()
                invariant
                    i < tis@.len(),
                    name == &tis@[i as int].process_name,
                    k <= out@.len(),
                    seen == exists|b: int| 0 <= b < k && texts_view(out@)[b] == name@,
                decreases out@.len() - k,
            {
                assert(texts_view(out@)[k as int] == out@[k as int]@);
                if out[k] == *name {
                    seen = true;
                }
                k = k + 1;
                assert(seen == exists|b: int| 0 <= b < k && texts_view(out@)[b] == name@) by {
                    if seen && texts_view(out@)[k - 1] != name@ {
                        let b = choose|b: int| 0 <= b < k - 1 && texts_view(out@)[b] == name@;
                        assert(0 <= b < k && texts_view(out@)[b] == name@);
                    }
                }
            }
            assert(names.subrange(0, i + 1).drop_last() =~= names.subrange(0, i as int));
            assert(names[i as int] == name@);
            assert(seen == texts_view(out@).contains(name@));
            if !seen {
                let ghost before = out@;
                out.push(name.clone());
                assert(texts_view(out@) =~= texts_view(before).push(name@));
            }
            i = i + 1;
        }
        assert(names.subrange(0, i as int) =~= names);
        out
    }
}

/// The document is a well-formed workflow.
pub open spec fn workflow_shape(j: JsonView) -> bool {
    &&& text_field(j, "state"@) is Some
    &&& text_field(j, "remediation"@) is Some
    &&& text_field(j, "comment"@) is Some
    &&& text_field(j, "changed_by"@) is Some
}

impl Workflow {
    /// Every field holds what the document holds under its key.
    pub open spec fn mirrors(&self, j: JsonView) -> bool {
        &&& text_field(j, "state"@) == Some(self.state@)
        &&& text_field(j, "remediation"@) == Some(self.remediation@)
        &&& self.last_update_time@ == time_field(j, "last_update_time"@)
        &&& text_field(j, "comment"@) == Some(self.comment@)
        &&& text_field(j, "changed_by"@) == Some(self.changed_by@)
    }

    /// Reads a workflow from a document.
    pub fn from_json(v: &serde_json::Value) -> (r: Option<Workflow>)
        ensures
            r is Some <==> workflow_shape(json_view(*v)),
            r is Some ==> r->0.mirrors(json_view(*v)),
    {
        let state = match text_at(v, "state") {
            Some(x) => x,
            None => return None,
        };
        let remediation = match text_at(v, "remediation") {
            Some(x) => x,
            None => return None,
        };
        let last_update_time = time_text_at(v, "last_update_time");
        let comment = match text_at(v, "comment") {
            Some(x) => x,
            None => return None,
        };
        let changed_by = match text_at(v, "changed_by") {
            Some(x) => x,
            None => return None,
        };
        Some(Workflow {
            state,
            remediation,
            last_update_time,
            comment,
            changed_by,
        })
    }
}

/// The document is a well-formed threat indicator.
pub open spec fn threat_indicator_shape(j: JsonView) -> bool {
    &&& text_field(j, "process_name"@) is Some
    &&& text_field(j, "sha256"@) is Some
    &&& text_list_field(j, "ttps"@) is Some
}

impl ThreatIndicator {
    /// Every field holds what the document holds under its key.
    pub open spec fn mirrors(&self, j: JsonView) -> bool {
        &&& text_field(j, "process_name"@) == Some(self.process_name@)
        &&& text_field(j, "sha256"@) == Some(self.sha256@)
        &&& text_list_field(j, "ttps"@) == Some(texts_view(self.ttps@))
    }

    /// Reads a threat indicator from a document.
    pub fn from_json(v: &serde_json::Value) -> (r: Option<ThreatIndicator>)
        ensures
            r is Some <==> threat_indicator_shape(json_view(*v)),
            r is Some ==> r->0.mirrors(json_view(*v)),
    {
        let process_name = match text_at(v, "process_name") {
            Some(x) => x,
            None => return None,
        };
        let sha256 = match text_at(v, "sha256") {
            Some(x) => x,
            None => return None,
        };
        let ttps = match text_list_at(v, "ttps") {
            Some(x) => x,
            None => return None,
        };
        Some(ThreatIndicator { process_name, sha256, ttps })
    }
}

/// Every element of the array is a well-formed threat indicator.
pub open spec fn threat_indicator_list_shape(j: JsonView) -> bool {
    &&& j is Array
    &&& forall|i: int| 0 <= i < j->Array_0.len() ==> threat_indicator_shape(#[trigger] j->Array_0[i])
}

/// Each threat indicator of `v` mirrors the element of the array at the same position.
pub open spec fn threat_indicator_list_mirror(v: Seq<ThreatIndicator>, j: JsonView) -> bool {
    &&& j is Array
    &&& j->Array_0.len() == v.len()
    &&& forall|i: int| 0 <= i < v.len() ==> (#[trigger] v[i]).mirrors(j->Array_0[i])
}

/// Reads an array of threat indicators.
pub fn threat_indicator_list_from_json(v: &serde_json::Value) -> (r: Option<Vec<ThreatIndicator>>)
    ensures
        r is Some <==> threat_indicator_list_shape(json_view(*v)),
        r is Some ==> threat_indicator_list_mirror(r->0@, json_view(*v)),
{
    let items = match list_of(v) {
        Some(items) => items,
        None => return None,
    };
    let ghost js = json_view(*v)->Array_0;
    let mut out: Vec<ThreatIndicator> = Vec::new();
    let mut i: usize = 0;
    while i < items.len()
        invariant
            json_view(*v) is Array,
            js == json_view(*v)->Array_0,
            items@.len() == js.len(),
            forall|k: int| 0 <= k < items@.len() ==> json_view(#[trigger] items@[k]) == js[k],
            i <= items@.len(),
            out@.len() == i,
            forall|k: int| 0 <= k < i ==> threat_indicator_shape(#[trigger] js[k]),
            forall|k: int| 0 <= k < i ==> (#[trigger] out@[k]).mirrors(js[k]),
        decreases items@.len() - i,
    {
        match ThreatIndicator::from_json(&items[i]) {
            Some(p) => {
                let ghost before = out@;
                out.push(p);
                assert forall|k: int| 0 <= k < i + 1 implies (#[trigger] out@[k]).mirrors(js[k]) by {
                    if k < i {
                        assert(before[k] == out@[k]);
                    }
                }
            },
            None => return None,
        }
        i = i + 1;
    }
    Some(out)
}

/// The document is a well-formed NGAV alert: every field is present with the right kind of value.
pub open spec fn ngav_shape(j: JsonView) -> bool {
    &&& text_field(j, "type"@) is Some
    &&& text_field(j, "id"@) is Some
    &&& text_field(j, "legacy_alert_id"@) is Some
    &&& text_field(j, "org_key"@) is Some
    &&& text_field(j, "threat_id"@) is Some
    &&& unsigned_field(j, "severity"@, u8::MAX as nat) is Some
    &&& text_field(j, "category"@) is Some
    &&& unsigned_field(j, "device_id"@, u64::MAX as nat) is Some
    &&& text_field(j, "device_os"@) is Some
    &&& text_field(j, "device_os_version"@) is Some
    &&& text_field(j, "device_name"@) is Some
    &&& text_field(j, "device_username"@) is Some
    &&& unsigned_field(j, "policy_id"@, u64::MAX as nat) is Some
    &&& text_field(j, "policy_name"@) is Some
    &&& text_field(j, "target_value"@) is Some
    &&& (field(j, "workflow"@) is Some && workflow_shape(field(j, "workflow"@)->0))
    &&& text_field(j, "device_internal_ip"@) is Some
    &&& text_field(j, "device_external_ip"@) is Some
    &&& text_field(j, "alert_url"@) is Some
    &&& text_field(j, "reason"@) is Some
    &&& text_field(j, "reason_code"@) is Some
    &&& text_field(j, "process_name"@) is Some
    &&& text_field(j, "device_location"@) is Some
    &&& text_field(j, "created_by_event_id"@) is Some
    &&& (field(j, "threat_indicators"@) is Some && threat_indicator_list_shape(field(j, "threat_indicators"@)->0))
    &&& text_field(j, "threat_cause_actor_sha256"@) is Some
    &&& text_field(j, "threat_cause_actor_name"@) is Some
    &&& text_field(j, "threat_cause_actor_process_pid"@) is Some
    &&& text_field(j, "threat_cause_reputation"@) is Some
    &&& text_field(j, "threat_cause_threat_category"@) is Some
    &&& text_field(j, "threat_cause_vector"@) is Some
    &&& text_field(j, "threat_cause_cause_event_id"@) is Some
    &&& text_field(j, "blocked_threat_category"@) is Some
    &&& text_field(j, "not_blocked_threat_category"@) is Some
    &&& text_list_field(j, "kill_chain_status"@) is Some
    &&& text_field(j, "run_state"@) is Some
    &&& text_field(j, "policy_applied"@) is Some
}

impl NgavAlert {
    /// Every field holds what the document holds under its key.
    pub open spec fn mirrors(&self, j: JsonView) -> bool {
        &&& text_field(j, "type"@) == Some(self.alert_type@)
        &&& text_field(j, "id"@) == Some(self.id@)
        &&& text_field(j, "legacy_alert_id"@) == Some(self.legacy_alert_id@)
        &&& text_field(j, "org_key"@) == Some(self.org_key@)
        &&& self.create_time@ == time_field(j, "create_time"@)
        &&& self.last_update_time@ == time_field(j, "last_update_time"@)
        &&& self.first_event_time@ == time_field(j, "first_event_time"@)
        &&& self.last_event_time@ == time_field(j, "last_event_time"@)
        &&& text_field(j, "threat_id"@) == Some(self.threat_id@)
        &&& unsigned_field(j, "severity"@, u8::MAX as nat) == Some(self.severity as nat)
        &&& text_field(j, "category"@) == Some(self.category@)
        &&& unsigned_field(j, "device_id"@, u64::MAX as nat) == Some(self.device_id as nat)
        &&& text_field(j, "device_os"@) == Some(self.device_os@)
        &&& text_field(j, "device_os_version"@) == Some(self.device_os_version@)
        &&& text_field(j, "device_name"@) == Some(self.device_name@)
        &&& text_field(j, "device_username"@) == Some(self.device_username@)
        &&& unsigned_field(j, "policy_id"@, u64::MAX as nat) == Some(self.policy_id as nat)
        &&& text_field(j, "policy_name"@) == Some(self.policy_name@)
        &&& text_field(j, "target_value"@) == Some(self.target_value@)
        &&& (field(j, "workflow"@) is Some && self.workflow.mirrors(field(j, "workflow"@)->0))
        &&& text_field(j, "device_internal_ip"@) == Some(self.device_internal_ip@)
        &&& text_field(j, "device_external_ip"@) == Some(self.device_external_ip@)
        &&& text_field(j, "alert_url"@) == Some(self.alert_url@)
        &&& text_field(j, "reason"@) == Some(self.reason@)
        &&& text_field(j, "reason_code"@) == Some(self.reason_code@)
        &&& text_field(j, "process_name"@) == Some(self.process_name@)
        &&& text_field(j, "device_location"@) == Some(self.device_location@)
        &&& text_field(j, "created_by_event_id"@) == Some(self.created_by_event_id@)
        &&& (field(j, "threat_indicators"@) is Some && threat_indicator_list_mirror(self.threat_indicators@, field(j, "threat_indicators"@)->0))
        &&& text_field(j, "threat_cause_actor_sha256"@) == Some(self.threat_cause_actor_sha256@)
        &&& text_field(j, "threat_cause_actor_name"@) == Some(self.threat_cause_actor_name@)
        &&& text_field(j, "threat_cause_actor_process_pid"@) == Some(self.threat_cause_actor_process_pid@)
        &&& text_field(j, "threat_cause_reputation"@) == Some(self.threat_cause_reputation@)
        &&& text_field(j, "threat_cause_threat_category"@) == Some(self.threat_cause_threat_category@)
        &&& text_field(j, "threat_cause_vector"@) == Some(self.threat_cause_vector@)
        &&& text_field(j, "threat_cause_cause_event_id"@) == Some(self.threat_cause_cause_event_id@)
        &&& text_field(j, "blocked_threat_category"@) == Some(self.blocked_threat_category@)
        &&& text_field(j, "not_blocked_threat_category"@) == Some(self.not_blocked_threat_category@)
        &&& text_list_field(j, "kill_chain_status"@) == Some(texts_view(self.kill_chain_status@))
        &&& text_field(j, "run_state"@) == Some(self.run_state@)
        &&& text_field(j, "policy_applied"@) == Some(self.policy_applied@)
    }

    /// Reads an NGAV alert from a document; nothing unless every field is present and well-typed.
    #[verifier::rlimit(50)]
    pub fn from_json(v: &serde_json::Value) -> (r: Option<NgavAlert>)
        ensures
            r is Some <==> ngav_shape(json_view(*v)),
            r is Some ==> r->0.mirrors(json_view(*v)),
    {
        let alert_type = match text_at(v, "type") {
            Some(x) => x,
            None => return None,
        };
        let id = match text_at(v, "id") {
            Some(x) => x,
            None => return None,
        };
        let legacy_alert_id = match text_at(v, "legacy_alert_id") {
            Some(x) => x,
            None => return None,
        };
        let org_key = match text_at(v, "org_key") {
            Some(x) => x,
            None => return None,
        };
        let create_time = time_text_at(v, "create_time");
        let last_update_time = time_text_at(v, "last_update_time");
        let first_event_time = time_text_at(v, "first_event_time");
        let last_event_time = time_text_at(v, "last_event_time");
        let threat_id = match text_at(v, "threat_id") {
            Some(x) => x,
            None => return None,
        };
        let severity = match u8_at(v, "severity") {
            Some(x) => x,
            None => return None,
        };
        let category = match text_at(v, "category") {
            Some(x) => x,
            None => return None,
        };
        let device_id = match u64_at(v, "device_id") {
            Some(x) => x,
            None => return None,
        };
        let device_os = match text_at(v, "device_os") {
            Some(x) => x,
            None => return None,
        };
        let device_os_version = match text_at(v, "device_os_version") {
            Some(x) => x,
            None => return None,
        };
        let device_name = match text_at(v, "device_name") {
            Some(x) => x,
            None => return None,
        };
        let device_username = match text_at(v, "device_username") {
            Some(x) => x,
            None => return None,
        };
        let policy_id = match u64_at(v, "policy_id") {
            Some(x) => x,
            None => return None,
        };
        let policy_name = match text_at(v, "policy_name") {
            Some(x) => x,
            None => return None,
        };
        let target_value = match text_at(v, "target_value") {
            Some(x) => x,
            None => return None,
        };
        let workflow = match member_of(v, "workflow") {
            Some(m) => match Workflow::from_json(m) {
                Some(x) => x,
                None => return None,
            },
            None => return None,
        };
        let device_internal_ip = match text_at(v, "device_internal_ip") {
            Some(x) => x,
            None => return None,
        };
        let device_external_ip = match text_at(v, "device_external_ip") {
            Some(x) => x,
            None => return None,
        };
        let alert_url = match text_at(v, "alert_url") {
            Some(x) => x,
            None => return None,
        };
        let reason = match text_at(v, "reason") {
            Some(x) => x,
            None => return None,
        };
        let reason_code = match text_at(v, "reason_code") {
            Some(x) => x,
            None => return None,
        };
        let process_name = match text_at(v, "process_name") {
            Some(x) => x,
            None => return None,
        };
        let device_location = match text_at(v, "device_location") {
            Some(x) => x,
            None => return None,
        };
        let created_by_event_id = match text_at(v, "created_by_event_id") {
            Some(x) => x,
            None => return None,
        };
        let threat_indicators = match member_of(v, "threat_indicators") {
            Some(m) => match threat_indicator_list_from_json(m) {
                Some(x) => x,
                None => return None,
            },
            None => return None,
        };
        let threat_cause_actor_sha256 = match text_at(v, "threat_cause_actor_sha256") {
            Some(x) => x,
            None => return None,
        };
        let threat_cause_actor_name = match text_at(v, "threat_cause_actor_name") {
            Some(x) => x,
            None => return None,
        };
        let threat_cause_actor_process_pid = match text_at(v, "threat_cause_actor_process_pid") {
            Some(x) => x,
            None => return None,
        };
        let threat_cause_reputation = match text_at(v, "threat_cause_reputation") {
            Some(x) => x,
            None => return None,
        };
        let threat_cause_threat_category = match text_at(v, "threat_cause_threat_category") {
            Some(x) => x,
            None => return None,
        };
        let threat_cause_vector = match text_at(v, "threat_cause_vector") {
            Some(x) => x,
            None => return None,
        };
        let threat_cause_cause_event_id = match text_at(v, "threat_cause_cause_event_id") {
            Some(x) => x,
            None => return None,
        };
        let blocked_threat_category = match text_at(v, "blocked_threat_category") {
            Some(x) => x,
            None => return None,
        };
        let not_blocked_threat_category = match text_at(v, "not_blocked_threat_category") {
            Some(x) => x,
            None => return None,
        };
        let kill_chain_status = match text_list_at(v, "kill_chain_status") {
            Some(x) => x,
            None => return None,
        };
        let run_state = match text_at(v, "run_state") {
            Some(x) => x,
            None => return None,
        };
        let policy_applied = match text_at(v, "policy_applied") {
            Some(x) => x,
            None => return None,
        };
        Some(NgavAlert {
            alert_type,
            id,
            legacy_alert_id,
            org_key,
            create_time,
            last_update_time,
            first_event_time,
            last_event_time,
            threat_id,
            severity,
            category,
            device_id,
            device_os,
            device_os_version,
            device_name,
            device_username,
            policy_id,
            policy_name,
            target_value,
            workflow,
            device_internal_ip,
            device_external_ip,
            alert_url,
            reason,
            reason_code,
            process_name,
            device_location,
            created_by_event_id,
            threat_indicators,
            threat_cause_actor_sha256,
            threat_cause_actor_name,
            threat_cause_actor_process_pid,
            threat_cause_reputation,
            threat_cause_threat_category,
            threat_cause_vector,
            threat_cause_cause_event_id,
            blocked_threat_category,
            not_blocked_threat_category,
            kill_chain_status,
            run_state,
            policy_applied,
        })
    }
}


} // verus!
