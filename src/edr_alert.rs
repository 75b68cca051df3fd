//! Endpoint-detection (EDR) alerts: the record, its schema, and its queries.

use vstd::prelude::*;
use crate::json::{
    time_field, time_text_at,
    field, i32_at, json_view, list_of, member_of, signed_field, text_at, text_field, text_list_at,
    text_list_field, texts_view, u32_at, u64_at, u8_at, unsigned_field, JsonView,
};
use crate::text::{contains_str, contains_text, decimal, decimal_string};

verus! {

/// The publisher of a signed binary.
#[derive(Debug, Clone)]
pub struct Publisher {
    pub name: String,
    pub state: String,
}

/// A watchlist that an alert hit.
#[derive(Debug, Clone)]
pub struct Watchlist {
    pub id: String,
    pub name: String,
}

/// An endpoint-detection alert as the sensor reports it.
#[derive(Debug, Clone)]
pub struct EdrAlert {
    pub schema: i32,
    pub create_time: String,
    pub device_external_ip: String,
    pub device_id: u64,
    pub device_internal_ip: String,
    pub device_name: String,
    pub device_os: String,
    pub ioc_hit: String,
    pub ioc_id: String,
    pub org_key: String,
    pub parent_cmdline: String,
    pub parent_guid: String,
    pub parent_hash: Vec<String>,
    pub parent_path: String,
    pub parent_pid: u32,
    pub parent_publisher: Vec<Publisher>,
    pub parent_reputation: String,
    pub parent_username: String,
    pub process_cmdline: String,
    pub process_guid: String,
    pub process_hash: Vec<String>,
    pub process_path: String,
    pub process_pid: u32,
    pub process_publisher: Vec<Publisher>,
    pub process_reputation: String,
    pub process_username: String,
    pub report_id: String,
    pub report_name: String,
    pub report_tags: Vec<String>,
    pub severity: u8,
    /// Serialized under the key `type`.
    pub alert_type: String,
    pub watchlists: Vec<Watchlist>,
}

/// The label of a numeric severity: 1 is the most severe.
pub open spec fn severity_label(severity: u8) -> Seq<char> {
    if severity == 1 {
        "critical"@
    } else if severity == 2 {
        "high"@
    } else if severity == 3 {
        "medium"@
    } else if severity == 4 {
        "low"@
    } else {
        "unknown"@
    }
}

/// The label of a numeric severity.
pub fn severity_level(severity: u8) -> (r: &'static str)
    ensures
        r@ == severity_label(severity),
{
    match severity {
        1 => "critical",
        2 => "high",
        3 => "medium",
        4 => "low",
        _ => "unknown",
    }
}

/// `device` and `id` joined by an underscore.
pub open spec fn alert_key_of(device: Seq<char>, id: Seq<char>) -> Seq<char> {
    device + "_"@ + id
}

/// Joins `device` and `id` with an underscore.
pub fn join_key(device: &String, id: &String) -> (r: String)
    ensures
        r@ == alert_key_of(device@, id@),
{
    let mut k = device.clone();
    k.append("_");
    k.append(id.as_str());
    k
}

impl EdrAlert {
    /// Some tag of the report contains `tag`.
    pub open spec fn has_tag_containing(&self, tag: Seq<char>) -> bool {
        exists|i: int| 0 <= i < self.report_tags@.len() && contains_text(#[trigger] self.report_tags@[i]@, tag)
    }

    /// `path[pid] - cmdline` of the alerting process.
    pub open spec fn process_info_text(&self) -> Seq<char> {
        self.process_path@ + "["@ + decimal(self.process_pid as nat) + "] - "@ + self.process_cmdline@
    }

    /// The label of the alert's severity.
    pub fn get_severity_level(&self) -> (r: &'static str)
        ensures
            r@ == severity_label(self.severity),
    {
        severity_level(self.severity)
    }

    /// The key that identifies the alert at its source: device name and report id.
    pub fn get_alert_key(&self) -> (r: String)
        ensures
            r@ == alert_key_of(self.device_name@, self.report_id@),
    {
        join_key(&self.device_name, &self.report_id)
    }

    /// Severity 1 or 2 (and the unused 0) counts as critical.
    pub fn is_critical(&self) -> (r: bool)
        ensures
            r == (self.severity <= 2),
    {
        self.severity <= 2
    }

    /// Whether some report tag contains `tag`.
    pub fn contains_tag(&self, tag: &str) -> (r: bool)
        ensures
            r == self.has_tag_containing(tag@),
    {
        let mut i: usize = 0;
        while i < self.report_tags.len()
            invariant
                i <= self.report_tags@.len(),
                forall|k: int| 0 <= k < i ==> !contains_text(#[trigger] self.report_tags@[k]@, tag@),
            decreases self.report_tags@.len() - i,
        {
            if contains_str(self.report_tags[i].as_str(), tag) {
                return true;
            }
            i = i + 1;
        }
        false
    }

    /// A one-line description of the alerting process.
    pub fn get_process_info(&self) -> (r: String)
        ensures
            r@ == self.process_info_text(),
    {
        let mut s = self.process_path.clone();
        s.append("[");
        let pid = decimal_string(self.process_pid as u64);
        s.append(pid.as_str());
        s.append("] - ");
        s.append(self.process_cmdline.as_str());
        s
    }
}

/// The document is a well-formed publisher.
pub open spec fn publisher_shape(j: JsonView) -> bool {
    &&& text_field(j, "name"@) is Some
    &&& text_field(j, "state"@) is Some
}

impl Publisher {
    /// Every field holds what the document holds under its key.
    pub open spec fn mirrors(&self, j: JsonView) -> bool {
        &&& text_field(j, "name"@) == Some(self.name@)
        &&& text_field(j, "state"@) == Some(self.state@)
    }

    /// Reads a publisher from a document.
    pub fn from_json(v: &serde_json::Value) -> (r: Option<Publisher>)
        ensures
            r is Some <==> publisher_shape(json_view(*v)),
            r is Some ==> r->0.mirrors(json_view(*v)),
    {
        let name = match text_at(v, "name") {
            Some(x) => x,
            None => return None,
        };
        let state = match text_at(v, "state") {
            Some(x) => x,
            None => return None,
        };
        Some(Publisher { name, state })
    }
}

/// Every element of the array is a well-formed publisher.
pub open spec fn publisher_list_shape(j: JsonView) -> bool {
    &&& j is Array
    &&& forall|i: int| 0 <= i < j->Array_0.len() ==> publisher_shape(#[trigger] j->Array_0[i])
}

/// Each publisher of `v` mirrors the element of the array at the same position.
pub open spec fn publisher_list_mirror(v: Seq<Publisher>, j: JsonView) -> bool {
    &&& j is Array
    &&& j->Array_0.len() == v.len()
    &&& forall|i: int| 0 <= i < v.len() ==> (#[trigger] v[i]).mirrors(j->Array_0[i])
}

/// Reads an array of publishers.
pub fn publisher_list_from_json(v: &serde_json::Value) -> (r: Option<Vec<Publisher>>)
    ensures
        r is Some <==> publisher_list_shape(json_view(*v)),
        r is Some ==> publisher_list_mirror(r->0@, json_view(*v)),
{
    let items = match list_of(v) {
        Some(items) => items,
        None => return None,
    };
    let ghost js = json_view(*v)->Array_0;
    let mut out: Vec<Publisher> = Vec::new();
    let mut i: usize = 0;
    while i < items.len()
        invariant
            json_view(*v) is Array,
            js == json_view(*v)->Array_0,
            items@.len() == js.len(),
            forall|k: int| 0 <= k < items@.len() ==> json_view(#[trigger] items@[k]) == js[k],
            i <= items@.len(),
            out@.len() == i,
            forall|k: int| 0 <= k < i ==> publisher_shape(#[trigger] js[k]),
            forall|k: int| 0 <= k < i ==> (#[trigger] out@[k]).mirrors(js[k]),
        decreases items@.len() - i,
    {
        match Publisher::from_json(&items[i]) {
            Some(p) => {
                let ghost before = out@;
                out.push(p);
                assert forall|k: int| 0 <= k < i + 1 implies (#[trigger] out@[k]).mirrors(js[k]) by {
                    if k < i {
                        assert(before[k] == out@[k]);
                    }
                }
            },
            None => return None,
        }
        i = i + 1;
    }
    Some(out)
}

/// The document is a well-formed watchlist.
pub open spec fn watchlist_shape(j: JsonView) -> bool {
    &&& text_field(j, "id"@) is Some
    &&& text_field(j, "name"@) is Some
}

impl Watchlist {
    /// Every field holds what the document holds under its key.
    pub open spec fn mirrors(&self, j: JsonView) -> bool {
        &&& text_field(j, "id"@) == Some(self.id@)
        &&& text_field(j, "name"@) == Some(self.name@)
    }

    /// Reads a watchlist from a document.
    pub fn from_json(v: &serde_json::Value) -> (r: Option<Watchlist>)
        ensures
            r is Some <==> watchlist_shape(json_view(*v)),
            r is Some ==> r->0.mirrors(json_view(*v)),
    {
        let id = match text_at(v, "id") {
            Some(x) => x,
            None => return None,
        };
        let name = match text_at(v, "name") {
            Some(x) => x,
            None => return None,
        };
        Some(Watchlist { id, name })
    }
}

/// Every element of the array is a well-formed watchlist.
pub open spec fn watchlist_list_shape(j: JsonView) -> bool {
    &&& j is Array
    &&& forall|i: int| 0 <= i < j->Array_0.len() ==> watchlist_shape(#[trigger] j->Array_0[i])
}

/// Each watchlist of `v` mirrors the element of the array at the same position.
pub open spec fn watchlist_list_mirror(v: Seq<Watchlist>, j: JsonView) -> bool {
    &&& j is Array
    &&& j->Array_0.len() == v.len()
    &&& forall|i: int| 0 <= i < v.len() ==> (#[trigger] v[i]).mirrors(j->Array_0[i])
}

/// Reads an array of watchlists.
pub fn watchlist_list_from_json(v: &serde_json::Value) -> (r: Option<Vec<Watchlist>>)
    ensures
        r is Some <==> watchlist_list_shape(json_view(*v)),
        r is Some ==> watchlist_list_mirror(r->0@, json_view(*v)),
{
    let items = match list_of(v) {
        Some(items) => items,
        None => return None,
    };
    let ghost js = json_view(*v)->Array_0;
    let mut out: Vec<Watchlist> = Vec::new();
    let mut i: usize = 0;
    while i < items.len()
        invariant
            json_view(*v) is Array,
            js == json_view(*v)->Array_0,
            items@.len() == js.len(),
            forall|k: int| 0 <= k < items@.len() ==> json_view(#[trigger] items@[k]) == js[k],
            i <= items@.len(),
            out@.len() == i,
            forall|k: int| 0 <= k < i ==> watchlist_shape(#[trigger] js[k]),
            forall|k: int| 0 <= k < i ==> (#[trigger] out@[k]).mirrors(js[k]),
        decreases items@.len() - i,
    {
        match Watchlist::from_json(&items[i]) {
            Some(p) => {
                let ghost before = out@;
                out.push(p);
                assert forall|k: int| 0 <= k < i + 1 implies (#[trigger] out@[k]).mirrors(js[k]) by {
                    if k < i {
                        assert(before[k] == out@[k]);
                    }
                }
            },
            None => return None,
        }
        i = i + 1;
    }
    Some(out)
}

/// The document is a well-formed EDR alert: every field is present with the right kind of value.
pub open spec fn edr_shape(j: JsonView) -> bool {
    &&& signed_field(j, "schema"@, i32::MIN as int, i32::MAX as int) is Some
    &&& text_field(j, "device_external_ip"@) is Some
    &&& unsigned_field(j, "device_id"@, u64::MAX as nat) is Some
    &&& text_field(j, "device_internal_ip"@) is Some
    &&& text_field(j, "device_name"@) is Some
    &&& text_field(j, "device_os"@) is Some
    &&& text_field(j, "ioc_hit"@) is Some
    &&& text_field(j, "ioc_id"@) is Some
    &&& text_field(j, "org_key"@) is Some
    &&& text_field(j, "parent_cmdline"@) is Some
    &&& text_field(j, "parent_guid"@) is Some
    &&& text_list_field(j, "parent_hash"@) is Some
    &&& text_field(j, "parent_path"@) is Some
    &&& unsigned_field(j, "parent_pid"@, u32::MAX as nat) is Some
    &&& (field(j, "parent_publisher"@) is Some && publisher_list_shape(field(j, "parent_publisher"@)->0))
    &&& text_field(j, "parent_reputation"@) is Some
    &&& text_field(j, "parent_username"@) is Some
    &&& text_field(j, "process_cmdline"@) is Some
    &&& text_field(j, "process_guid"@) is Some
    &&& text_list_field(j, "process_hash"@) is Some
    &&& text_field(j, "process_path"@) is Some
    &&& unsigned_field(j, "process_pid"@, u32::MAX as nat) is Some
    &&& (field(j, "process_publisher"@) is Some && publisher_list_shape(field(j, "process_publisher"@)->0))
    &&& text_field(j, "process_reputation"@) is Some
    &&& text_field(j, "process_username"@) is Some
    &&& text_field(j, "report_id"@) is Some
    &&& text_field(j, "report_name"@) is Some
    &&& text_list_field(j, "report_tags"@) is Some
    &&& unsigned_field(j, "severity"@, u8::MAX as nat) is Some
    &&& text_field(j, "type"@) is Some
    &&& (field(j, "watchlists"@) is Some && watchlist_list_shape(field(j, "watchlists"@)->0))
}

impl EdrAlert {
    /// Every field holds what the document holds under its key.
    pub open spec fn mirrors(&self, j: JsonView) -> bool {
        &&& signed_field(j, "schema"@, i32::MIN as int, i32::MAX as int) == Some(self.schema as int)
        &&& self.create_time@ == time_field(j, "create_time"@)
        &&& text_field(j, "device_external_ip"@) == Some(self.device_external_ip@)
        &&& unsigned_field(j, "device_id"@, u64::MAX as nat) == Some(self.device_id as nat)
        &&& text_field(j, "device_internal_ip"@) == Some(self.device_internal_ip@)
        &&& text_field(j, "device_name"@) == Some(self.device_name@)
        &&& text_field(j, "device_os"@) == Some(self.device_os@)
        &&& text_field(j, "ioc_hit"@) == Some(self.ioc_hit@)
        &&& text_field(j, "ioc_id"@) == Some(self.ioc_id@)
        &&& text_field(j, "org_key"@) == Some(self.org_key@)
        &&& text_field(j, "parent_cmdline"@) == Some(self.parent_cmdline@)
        &&& text_field(j, "parent_guid"@) == Some(self.parent_guid@)
        &&& text_list_field(j, "parent_hash"@) == Some(texts_view(self.parent_hash@))
        &&& text_field(j, "parent_path"@) == Some(self.parent_path@)
        &&& unsigned_field(j, "parent_pid"@, u32::MAX as nat) == Some(self.parent_pid as nat)
        &&& (field(j, "parent_publisher"@) is Some && publisher_list_mirror(self.parent_publisher@, field(j, "parent_publisher"@)->0))
        &&& text_field(j, "parent_reputation"@) == Some(self.parent_reputation@)
        &&& text_field(j, "parent_username"@) == Some(self.parent_username@)
        &&& text_field(j, "process_cmdline"@) == Some(self.process_cmdline@)
        &&& text_field(j, "process_guid"@) == Some(self.process_guid@)
        &&& text_list_field(j, "process_hash"@) == Some(texts_view(self.process_hash@))
        &&& text_field(j, "process_path"@) == Some(self.process_path@)
        &&& unsigned_field(j, "process_pid"@, u32::MAX as nat) == Some(self.process_pid as nat)
        &&& (field(j, "process_publisher"@) is Some && publisher_list_mirror(self.process_publisher@, field(j, "process_publisher"@)->0))
        &&& text_field(j, "process_reputation"@) == Some(self.process_reputation@)
        &&& text_field(j, "process_username"@) == Some(self.process_username@)
        &&& text_field(j, "report_id"@) == Some(self.report_id@)
        &&& text_field(j, "report_name"@) == Some(self.report_name@)
        &&& text_list_field(j, "report_tags"@) == Some(texts_view(self.report_tags@))
        &&& unsigned_field(j, "severity"@, u8::MAX as nat) == Some(self.severity as nat)
        &&& text_field(j, "type"@) == Some(self.alert_type@)
        &&& (field(j, "watchlists"@) is Some && watchlist_list_mirror(self.watchlists@, field(j, "watchlists"@)->0))
    }

    /// Reads an EDR alert from a document; nothing unless every field is present and well-typed.
    #[verifier::rlimit(50)]
    pub fn from_json(v: &serde_json::Value) -> (r: Option<EdrAlert>)
        ensures
            r is Some <==> edr_shape(json_view(*v)),
            r is Some ==> r->0.mirrors(json_view(*v)),
    {
        let schema = match i32_at(v, "schema") {
            Some(x) => x,
            None => return None,
        };
        let create_time = time_text_at(v, "create_time");
        let device_external_ip = match text_at(v, "device_external_ip") {
            Some(x) => x,
            None => return None,
        };
        let device_id = match u64_at(v, "device_id") {
            Some(x) => x,
            None => return None,
        };
        let device_internal_ip = match text_at(v, "device_internal_ip") {
            Some(x) => x,
            None => return None,
        };
        let device_name = match text_at(v, "device_name") {
            Some(x) => x,
            None => return None,
        };
        let device_os = match text_at(v, "device_os") {
            Some(x) => x,
            None => return None,
        };
        let ioc_hit = match text_at(v, "ioc_hit") {
            Some(x) => x,
            None => return None,
        };
        let ioc_id = match text_at(v, "ioc_id") {
            Some(x) => x,
            None => return None,
        };
        let org_key = match text_at(v, "org_key") {
            Some(x) => x,
            None => return None,
        };
        let parent_cmdline = match text_at(v, "parent_cmdline") {
            Some(x) => x,
            None => return None,
        };
        let parent_guid = match text_at(v, "parent_guid") {
            Some(x) => x,
            None => return None,
        };
        let parent_hash = match text_list_at(v, "parent_hash") {
            Some(x) => x,
            None => return None,
        };
        let parent_path = match text_at(v, "parent_path") {
            Some(x) => x,
            None => return None,
        };
        let parent_pid = match u32_at(v, "parent_pid") {
            Some(x) => x,
            None => return None,
        };
        let parent_publisher = match member_of(v, "parent_publisher") {
            Some(m) => match publisher_list_from_json(m) {
                Some(x) => x,
                None => return None,
            },
            None => return None,
        };
        let parent_reputation = match text_at(v, "parent_reputation") {
            Some(x) => x,
            None => return None,
        };
        let parent_username = match text_at(v, "parent_username") {
            Some(x) => x,
            None => return None,
        };
        let process_cmdline = match text_at(v, "process_cmdline") {
            Some(x) => x,
            None => return None,
        };
        let process_guid = match text_at(v, "process_guid") {
            Some(x) => x,
            None => return None,
        };
        let process_hash = match text_list_at(v, "process_hash") {
            Some(x) => x,
            None => return None,
        };
        let process_path = match text_at(v, "process_path") {
            Some(x) => x,
            None => return None,
        };
        let process_pid = match u32_at(v, "process_pid") {
            Some(x) => x,
            None => return None,
        };
        let process_publisher = match member_of(v, "process_publisher") {
            Some(m) => match publisher_list_from_json(m) {
                Some(x) => x,
                None => return None,
            },
            None => return None,
        };
        let process_reputation = match text_at(v, "process_reputation") {
            Some(x) => x,
            None => return None,
        };
        let process_username = match text_at(v, "process_username") {
            Some(x) => x,
            None => return None,
        };
        let report_id = match text_at(v, "report_id") {
            Some(x) => x,
            None => return None,
        };
        let report_name = match text_at(v, "report_name") {
            Some(x) => x,
            None => return None,
        };
        let report_tags = match text_list_at(v, "report_tags") {
            Some(x) => x,
            None => return None,
        };
        let severity = match u8_at(v, "severity") {
            Some(x) => x,
            None => return None,
        };
        let alert_type = match text_at(v, "type") {
            Some(x) => x,
            None => return None,
        };
        let watchlists = match member_of(v, "watchlists") {
            Some(m) => match watchlist_list_from_json(m) {
                Some(x) => x,
                None => return None,
            },
            None => return None,
        };
        Some(EdrAlert {
            schema,
            create_time,
            device_external_ip,
            device_id,
            device_internal_ip,
            device_name,
            device_os,
            ioc_hit,
            ioc_id,
            org_key,
            parent_cmdline,
            parent_guid,
            parent_hash,
            parent_path,
            parent_pid,
            parent_publisher,
            parent_reputation,
            parent_username,
            process_cmdline,
            process_guid,
            process_hash,
            process_path,
            process_pid,
            process_publisher,
            process_reputation,
            process_username,
            report_id,
            report_name,
            report_tags,
            severity,
            alert_type,
            watchlists,
        })
    }
}


} // verus!
