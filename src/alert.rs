//! Simple operational alerts: an identity, a level and a message, stamped
//! with the time they were raised.

use vstd::prelude::*;
use crate::json::{i64_at, json_view, signed_field, text_at, text_field, JsonView};

verus! {

/// An operational alert.
#[derive(Debug, Clone)]
pub struct AlertMessage {
    pub id: String,
    pub level: String,
    pub message: String,
    /// Seconds since the Unix epoch when the alert was raised.
    pub timestamp: i64,
}

/// The document is a well-formed operational alert.
pub open spec fn alert_message_shape(j: JsonView) -> bool {
    &&& text_field(j, "id"@) is Some
    &&& text_field(j, "level"@) is Some
    &&& text_field(j, "message"@) is Some
    &&& signed_field(j, "timestamp"@, i64::MIN as int, i64::MAX as int) is Some
}

impl AlertMessage {
    /// Every field holds what the document holds under its key.
    pub open spec fn mirrors(&self, j: JsonView) -> bool {
        &&& text_field(j, "id"@) == Some(self.id@)
        &&& text_field(j, "level"@) == Some(self.level@)
        &&& text_field(j, "message"@) == Some(self.message@)
        &&& signed_field(j, "timestamp"@, i64::MIN as int, i64::MAX as int) == Some(self.timestamp as int)
    }

    /// Reads an alert from a document; nothing unless every field is present and well-typed.
    pub fn from_json(v: &serde_json::Value) -> (r: Option<AlertMessage>)
        ensures
            r is Some <==> alert_message_shape(json_view(*v)),
            r is Some ==> r->0.mirrors(json_view(*v)),
    {
        let id = match text_at(v, "id") {
            Some(x) => x,
            None => return None,
        };
        let level = match text_at(v, "level") {
            Some(x) => x,
            None => return None,
        };
        let message = match text_at(v, "message") {
            Some(x) => x,
            None => return None,
        };
        let timestamp = match i64_at(v, "timestamp") {
            Some(x) => x,
            None => return None,
        };
        Some(AlertMessage { id, level, message, timestamp })
    }

    /// An alert raised at `timestamp` (seconds since the Unix epoch).
    pub fn new(id: String, level: String, message: String, timestamp: i64) -> (r: AlertMessage)
        ensures
            r.id == id,
            r.level == level,
            r.message == message,
            r.timestamp == timestamp,
    {
        AlertMessage { id, level, message, timestamp }
    }

    /// A `critical` alert raised at `timestamp`.
    pub fn critical(id: String, message: String, timestamp: i64) -> (r: AlertMessage)
        ensures
            r.id == id,
            r.level@ == "critical"@,
            r.message == message,
            r.timestamp == timestamp,
    {
        AlertMessage::new(id, String::from_str("critical"), message, timestamp)
    }

    /// A `warning` alert raised at `timestamp`.
    pub fn warning(id: String, message: String, timestamp: i64) -> (r: AlertMessage)
        ensures
            r.id == id,
            r.level@ == "warning"@,
            r.message == message,
            r.timestamp == timestamp,
    {
        AlertMessage::new(id, String::from_str("warning"), message, timestamp)
    }

    /// An `info` alert raised at `timestamp`.
    pub fn info(id: String, message: String, timestamp: i64) -> (r: AlertMessage)
        ensures
            r.id == id,
            r.level@ == "info"@,
            r.message == message,
            r.timestamp == timestamp,
    {
        AlertMessage::new(id, String::from_str("info"), message, timestamp)
    }
}

} // verus!
