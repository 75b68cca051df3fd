//! The classifier: a declared type is tried first, then structural sniffing
//! in a fixed order (EDR before NGAV).

use vstd::prelude::*;
use crate::edr_alert::{edr_shape, EdrAlert};
use crate::json::{has_field, has_member, json_view, JsonView};
use crate::ngav_alert::{ngav_shape, NgavAlert};
use crate::text::same_text;

verus! {

/// The kinds of alert that the system understands.
#[derive(Debug, Clone, Copy, PartialEq, Eq, Structural)]
pub enum DataType {
    Edr,
    Ngav,
}

/// The outcome of classifying a document.
#[derive(Debug, Clone)]
pub enum Classified {
    Edr(EdrAlert),
    Ngav(NgavAlert),
    Unrecognized,
}

impl Classified {
    /// The kind decided, if any.
    pub open spec fn kind(&self) -> Option<DataType> {
        match self {
            Classified::Edr(_) => Some(DataType::Edr),
            Classified::Ngav(_) => Some(DataType::Ngav),
            Classified::Unrecognized => None,
        }
    }

    /// The alert read is the one the document holds.
    pub open spec fn read_from(&self, j: JsonView) -> bool {
        match self {
            Classified::Edr(a) => a.mirrors(j),
            Classified::Ngav(a) => a.mirrors(j),
            Classified::Unrecognized => true,
        }
    }
}

/// The data type that a stored name declares; any other name declares none.
pub open spec fn declared_of(name: Seq<char>) -> Option<DataType> {
    if name == "edr"@ {
        Some(DataType::Edr)
    } else if name == "ngav"@ {
        Some(DataType::Ngav)
    } else {
        None
    }
}

/// The markers of an EDR alert: report, device, process path and parent path.
pub open spec fn edr_markers(j: JsonView) -> bool {
    &&& has_field(j, "report_id"@)
    &&& has_field(j, "device_id"@)
    &&& has_field(j, "process_path"@)
    &&& has_field(j, "parent_path"@)
}

/// The markers of an NGAV alert: threat, policy, workflow and reason.
pub open spec fn ngav_markers(j: JsonView) -> bool {
    &&& has_field(j, "threat_id"@)
    &&& has_field(j, "policy_id"@)
    &&& has_field(j, "workflow"@)
    &&& has_field(j, "reason"@)
}

/// Structural sniffing: EDR markers first, then NGAV markers; the first kind
/// whose markers match must then parse in full.
pub open spec fn sniffed(j: JsonView) -> Option<DataType> {
    if edr_markers(j) {
        if edr_shape(j) {
            Some(DataType::Edr)
        } else {
            None
        }
    } else if ngav_markers(j) {
        if ngav_shape(j) {
            Some(DataType::Ngav)
        } else {
            None
        }
    } else {
        None
    }
}

/// The kind a document is classified as: the declared kind when the document
/// parses as it, else what sniffing finds.
pub open spec fn classification(j: JsonView, declared: Option<DataType>) -> Option<DataType> {
    match declared {
        Some(DataType::Edr) => if edr_shape(j) {
            Some(DataType::Edr)
        } else {
            sniffed(j)
        },
        Some(DataType::Ngav) => if ngav_shape(j) {
            Some(DataType::Ngav)
        } else {
            sniffed(j)
        },
        None => sniffed(j),
    }
}

/// The data type that a stored name declares.
pub fn declared_type(name: &str) -> (r: Option<DataType>)
    ensures
        r == declared_of(name@),
{
    if same_text(name, "edr") {
        Some(DataType::Edr)
    } else if same_text(name, "ngav") {
        Some(DataType::Ngav)
    } else {
        None
    }
}

/// Whether the document carries the EDR markers.
pub fn looks_like_edr(doc: &serde_json::Value) -> (r: bool)
    ensures
        r == edr_markers(json_view(*doc)),
{
    has_member(doc, "report_id") && has_member(doc, "device_id") && has_member(doc, "process_path")
        && has_member(doc, "parent_path")
}

/// Whether the document carries the NGAV markers.
pub fn looks_like_ngav(doc: &serde_json::Value) -> (r: bool)
    ensures
        r == ngav_markers(json_view(*doc)),
{
    has_member(doc, "threat_id") && has_member(doc, "policy_id") && has_member(doc, "workflow")
        && has_member(doc, "reason")
}

/// Sniffs the document's kind from its structure alone.
pub fn sniff(doc: &serde_json::Value) -> (r: Classified)
    ensures
        r.kind() == sniffed(json_view(*doc)),
        r.read_from(json_view(*doc)),
{
    if looks_like_edr(doc) {
        match EdrAlert::from_json(doc) {
            Some(a) => Classified::Edr(a),
            None => Classified::Unrecognized,
        }
    } else if looks_like_ngav(doc) {
        match NgavAlert::from_json(doc) {
            Some(a) => Classified::Ngav(a),
            None => Classified::Unrecognized,
        }
    } else {
        Classified::Unrecognized
    }
}

/// Classifies a document: the declared kind first, falling back to sniffing
/// when the document does not parse as the declared kind.
pub fn classify(doc: &serde_json::Value, declared: Option<DataType>) -> (r: Classified)
    ensures
        r.kind() == classification(json_view(*doc), declared),
        r.read_from(json_view(*doc)),
{
    match declared {
        Some(DataType::Edr) => match EdrAlert::from_json(doc) {
            Some(a) => Classified::Edr(a),
            None => sniff(doc),
        },
        Some(DataType::Ngav) => match NgavAlert::from_json(doc) {
            Some(a) => Classified::Ngav(a),
            None => sniff(doc),
        },
        None => sniff(doc),
    }
}

/// A well-formed alert document carries its kind's markers.
pub proof fn lemma_shapes_carry_markers(j: JsonView)
    ensures
        edr_shape(j) ==> edr_markers(j),
        ngav_shape(j) ==> ngav_markers(j),
{
}

/// A well-formed EDR document is classified as EDR whether no type is
/// declared, EDR is declared, or NGAV is declared and the document is not
/// also a well-formed NGAV alert: a wrong declaration does not hide it.
pub proof fn law_edr_documents_classify_as_edr(j: JsonView, declared: Option<DataType>)
    requires
        edr_shape(j),
        declared == Some(DataType::Ngav) ==> !ngav_shape(j),
    ensures
        classification(j, declared) == Some(DataType::Edr),
{
    lemma_shapes_carry_markers(j);
}

/// A document that carries neither kind's markers is unrecognized, whatever
/// type is declared.
pub proof fn law_unmarked_documents_are_unrecognized(j: JsonView, declared: Option<DataType>)
    requires
        !edr_markers(j),
        !ngav_markers(j),
    ensures
        classification(j, declared) is None,
{
    lemma_shapes_carry_markers(j);
}

} // verus!
