//! The ingestion core: per-message processing (decode, parse, classify,
//! normalize), the receive-loop decisions of one consumer worker, and the
//! orchestrator that owns the set of live workers and the source mapping.

use vstd::prelude::*;
use vstd::utf8::{decode_utf8, valid_utf8};
use std::collections::HashMap;
use crate::classify::{classification, classify, declared_of, declared_type, Classified, DataType};
use crate::clickhouse::{CommonAlert, EdrAlertRow, NgavAlertRow, Provenance, TypeSpecificRecord};
use crate::database::KafkaConfigRow;
use crate::datetime::DateParts;
use crate::edr_alert::EdrAlert;
use crate::ids::{parse_uuid, uuid_value};
use crate::json::{json_text_document, json_view, parse_document, text_at, text_field, JsonView};
use crate::ngav_alert::NgavAlert;

verus! {

broadcast use vstd::std_specs::hash::group_hash_axioms;

/// How long a worker waits after a receive error before it tries again.
pub const RETRY_BACKOFF_MS: u64 = 1000;

/// The text that `String::from_utf8_lossy` makes of some bytes.
pub uninterp spec fn lossy_text(b: Seq<u8>) -> Seq<char>;

/// Relies on `String::from_utf8_lossy`: invalid sequences become U+FFFD, and
/// valid UTF-8 decodes unchanged.
#[verifier::external_body]
pub(crate) fn decode_lossy(bytes: &Vec<u8>) -> (r: String)
    ensures
        r@ == lossy_text(bytes@),
        valid_utf8(bytes@) ==> r@ == decode_utf8(bytes@),
{
    String::from_utf8_lossy(bytes.as_slice()).into_owned()
}

/// A record as the broker delivered it.
#[derive(Debug, Clone)]
pub struct RawMessage {
    pub topic: String,
    pub partition: i32,
    pub offset: i64,
    pub timestamp: Option<i64>,
    pub payload: Option<Vec<u8>>,
}

/// A decoded message, as it is handed to live observers.
#[derive(Debug, Clone)]
pub struct KafkaMessage {
    pub topic: String,
    pub partition: i32,
    pub offset: i64,
    pub payload: String,
    pub timestamp: Option<i64>,
    /// The identity of the source it was read for.
    pub kafka_config_id: u128,
    /// The type declared for that source, if any.
    pub data_type: Option<String>,
}

/// What became of one message.
#[derive(Debug, Clone)]
pub enum Ingested {
    /// The payload is not well-formed JSON.
    Malformed,
    /// Neither the declared type nor sniffing recognized the document.
    Unrecognized,
    /// An EDR alert, with the two records to store.
    Edr { alert: EdrAlert, common: CommonAlert, row: EdrAlertRow },
    /// An NGAV alert, with the two records to store.
    Ngav { alert: NgavAlert, common: CommonAlert, row: NgavAlertRow },
}

/// The type declared by a mapping entry, if any.
pub open spec fn declared_in(data_type: Option<String>) -> Option<DataType> {
    match data_type {
        Some(s) => declared_of(s@),
        None => None,
    }
}

/// Where a message came from.
pub open spec fn provenance_of(msg: KafkaMessage, source_name: String) -> Provenance {
    Provenance {
        topic: msg.topic,
        partition: msg.partition,
        offset: msg.offset,
        source_name: source_name,
    }
}

impl Ingested {
    /// The outcome that a document `doc` (if the payload parsed) calls for.
    pub open spec fn ingests(
        &self,
        doc: Option<JsonView>,
        declared: Option<DataType>,
        id: Seq<char>,
        raw: Seq<char>,
        prov: Provenance,
        now: DateParts,
    ) -> bool {
        match doc {
            None => self is Malformed,
            Some(j) => match classification(j, declared) {
                None => self is Unrecognized,
                Some(DataType::Edr) => match self {
                    Ingested::Edr { alert, common, row } => {
                        &&& alert.mirrors(j)
                        &&& common.normalizes_edr(*alert, id, raw, prov, now)
                        &&& row.normalizes(*alert, prov, now)
                    },
                    _ => false,
                },
                Some(DataType::Ngav) => match self {
                    Ingested::Ngav { alert, common, row } => {
                        &&& alert.mirrors(j)
                        &&& common.normalizes_ngav(*alert, id, raw, prov, now)
                        &&& row.normalizes(*alert, prov, now)
                    },
                    _ => false,
                },
            },
        }
    }

    /// Whether the message was recognized, and so has records to store.
    pub open spec fn is_classified(&self) -> bool {
        self is Edr || self is Ngav
    }

    /// The records to store: the common record first, then the type-specific one.
    pub fn records(self) -> (r: Option<(CommonAlert, TypeSpecificRecord)>)
        ensures
            r == (match self {
                Ingested::Edr { common, row, .. } => Some((common, TypeSpecificRecord::Edr(row))),
                Ingested::Ngav { common, row, .. } => Some((common, TypeSpecificRecord::Ngav(row))),
                _ => None,
            }),
            r is Some <==> self.is_classified(),
    {
        match self {
            Ingested::Edr { common, row, .. } => Some((common, TypeSpecificRecord::Edr(row))),
            Ingested::Ngav { common, row, .. } => Some((common, TypeSpecificRecord::Ngav(row))),
            _ => None,
        }
    }
}

/// Parses, classifies and normalizes one decoded message. `id` is the
/// identity of the common record and `now` stands in for unreadable times.
pub fn process_message(msg: &KafkaMessage, source_name: &String, id: String, now: &DateParts) -> (r: Ingested)
    ensures
        r.ingests(
            json_text_document(msg.payload@),
            declared_in(msg.data_type),
            id@,
            msg.payload@,
            provenance_of(*msg, *source_name),
            *now,
        ),
{
    let doc = match parse_document(msg.payload.as_str()) {
        Some(doc) => doc,
        None => return Ingested::Malformed,
    };
    let declared = match &msg.data_type {
        Some(name) => declared_type(name.as_str()),
        None => None,
    };
    let prov = Provenance {
        topic: msg.topic.clone(),
        partition: msg.partition,
        offset: msg.offset,
        source_name: source_name.clone(),
    };
    match classify(&doc, declared) {
        Classified::Edr(alert) => {
            let common = CommonAlert::from_edr(&alert, id, msg.payload.clone(), &prov, now);
            let row = EdrAlertRow::from_edr(&alert, &prov, now);
            Ingested::Edr { alert, common, row }
        },
        Classified::Ngav(alert) => {
            let common = CommonAlert::from_ngav(&alert, id, msg.payload.clone(), &prov, now);
            let row = NgavAlertRow::from_ngav(&alert, &prov, now);
            Ingested::Ngav { alert, common, row }
        },
        Classified::Unrecognized => Ingested::Unrecognized,
    }
}

/// What a worker's receive loop observed.
#[derive(Debug, Clone)]
pub enum WorkerEvent {
    /// The worker was told to stop.
    Cancelled,
    /// The broker reported a (transient) error.
    ReceiveError,
    /// A record arrived.
    Received(RawMessage),
}

/// What a worker's receive loop must do next.
#[derive(Debug, Clone)]
pub enum WorkerAction {
    /// Leave the loop and release the subscription.
    Exit,
    /// Wait, then receive again.
    Backoff { millis: u64 },
    /// Nothing to do for this record (it had no payload).
    Skip,
    /// Hand `message` to live observers when `publish` holds, and store the
    /// outcome's records.
    Deliver { message: KafkaMessage, publish: bool, outcome: Ingested },
}

/// The state of one consumer worker: the source it reads and whether it runs.
#[derive(Debug, Clone)]
pub struct ConsumerWorker {
    pub config_id: u128,
    pub topic: String,
    pub source_name: String,
    /// The type declared for the source when the worker was started.
    pub data_type: Option<String>,
    pub running: bool,
    /// Receive errors since the last record arrived.
    pub consecutive_errors: u64,
}

/// The worker after one more receive error.
pub open spec fn after_error(w: ConsumerWorker) -> ConsumerWorker {
    ConsumerWorker {
        consecutive_errors: if w.consecutive_errors < u64::MAX {
            (w.consecutive_errors + 1) as u64
        } else {
            u64::MAX
        },
        ..w
    }
}

/// The worker after a record arrived.
pub open spec fn after_record(w: ConsumerWorker) -> ConsumerWorker {
    ConsumerWorker { consecutive_errors: 0, ..w }
}

/// The worker after it was told to stop.
pub open spec fn after_cancel(w: ConsumerWorker) -> ConsumerWorker {
    ConsumerWorker { running: false, ..w }
}

/// The worker after `n` receive errors in a row.
pub open spec fn after_errors(w: ConsumerWorker, n: nat) -> ConsumerWorker
    decreases n,
{
    if n == 0 {
        w
    } else {
        after_error(after_errors(w, (n - 1) as nat))
    }
}

/// The envelope of a record whose payload decoded to `payload`.
pub open spec fn envelope_of(w: ConsumerWorker, raw: RawMessage, payload: String) -> KafkaMessage {
    KafkaMessage {
        topic: raw.topic,
        partition: raw.partition,
        offset: raw.offset,
        payload: payload,
        timestamp: raw.timestamp,
        kafka_config_id: w.config_id,
        data_type: w.data_type,
    }
}

/// A copy of an optional name.
pub fn clone_name(name: &Option<String>) -> (r: Option<String>)
    ensures
        r == *name,
{
    match name {
        Some(s) => Some(s.clone()),
        None => None,
    }
}

impl ConsumerWorker {
    /// A running worker for a source, with the type declared for it.
    pub fn new(config: &KafkaConfigRow, data_type: Option<String>) -> (r: ConsumerWorker)
        ensures
            r.config_id == config.id,
            r.topic == config.topic,
            r.source_name == config.name,
            r.data_type == data_type,
            r.running,
            r.consecutive_errors == 0,
    {
        ConsumerWorker {
            config_id: config.id,
            topic: config.topic.clone(),
            source_name: config.name.clone(),
            data_type,
            running: true,
            consecutive_errors: 0,
        }
    }

    /// Decides what to do with one event. `id` names the common record of a
    /// classified message and `now` stands in for its unreadable times.
    pub fn step(&mut self, event: WorkerEvent, id: String, now: &DateParts) -> (r: WorkerAction)
        ensures
            !old(self).running ==> r is Exit && *final(self) == *old(self),
            old(self).running ==> match event {
                WorkerEvent::Cancelled => r is Exit && *final(self) == after_cancel(*old(self)),
                WorkerEvent::ReceiveError => r == (WorkerAction::Backoff { millis: RETRY_BACKOFF_MS })
                    && *final(self) == after_error(*old(self)),
                WorkerEvent::Received(raw) => {
                    &&& *final(self) == after_record(*old(self))
                    &&& match raw.payload {
                        None => r is Skip,
                        Some(bytes) => match r {
                            WorkerAction::Deliver { message, publish, outcome } => {
                                &&& message == envelope_of(*old(self), raw, message.payload)
                                &&& message.payload@ == lossy_text(bytes@)
                                &&& outcome.ingests(
                                    json_text_document(lossy_text(bytes@)),
                                    declared_in(old(self).data_type),
                                    id@,
                                    lossy_text(bytes@),
                                    provenance_of(message, old(self).source_name),
                                    *now,
                                )
                                &&& publish == outcome.is_classified()
                            },
                            _ => false,
                        },
                    }
                },
            },
    {
        if !self.running {
            return WorkerAction::Exit;
        }
        match event {
            WorkerEvent::Cancelled => {
                self.running = false;
                WorkerAction::Exit
            },
            WorkerEvent::ReceiveError => {
                if self.consecutive_errors < u64::MAX {
                    self.consecutive_errors = self.consecutive_errors + 1;
                }
                WorkerAction::Backoff { millis: RETRY_BACKOFF_MS }
            },
            WorkerEvent::Received(raw) => {
                self.consecutive_errors = 0;
                match &raw.payload {
                    None => WorkerAction::Skip,
                    Some(bytes) => {
                        let payload = decode_lossy(bytes);
                        let msg = KafkaMessage {
                            topic: raw.topic.clone(),
                            partition: raw.partition,
                            offset: raw.offset,
                            payload,
                            timestamp: raw.timestamp,
                            kafka_config_id: self.config_id,
                            data_type: clone_name(&self.data_type),
                        };
                        let outcome = process_message(&msg, &self.source_name, id, now);
                        let publish = match &outcome {
                            Ingested::Edr { .. } => true,
                            Ingested::Ngav { .. } => true,
                            _ => false,
                        };
                        WorkerAction::Deliver { message: msg, publish, outcome }
                    },
                }
            },
        }
    }
}


/// A live worker as the orchestrator tracks it.
pub struct ConsumerInstance<H> {
    /// The handle of the worker's task, once it was launched.
    pub handle: Option<H>,
    pub config_id: u128,
    pub topic: String,
    pub running: bool,
}

/// What `get_consumer_status` reports of one worker.
#[derive(Debug, Clone)]
pub struct ConsumerStatus {
    pub config_id: u128,
    pub topic: String,
    /// The declared type of the source, or `unknown`.
    pub data_type: String,
    pub running: bool,
}

/// The owner of the live set of workers and of the source-to-type mapping.
/// `H` is the handle of a launched worker task.
pub struct ConsumerService<H> {
    consumers: Vec<ConsumerInstance<H>>,
    data_source_mapping: HashMap<u128, String>,
}

/// The source identities of known workers, in order.
pub open spec fn ids_of<H>(s: Seq<ConsumerInstance<H>>) -> Seq<u128> {
    s.map_values(|c: ConsumerInstance<H>| c.config_id)
}

/// No identity occurs twice.
pub open spec fn distinct(ids: Seq<u128>) -> bool {
    forall|i: int, j: int| 0 <= i < j < ids.len() ==> ids[i] != ids[j]
}

/// The sources that a start launches, given the identities already known:
/// each active source not known yet, the first of any repeated identity.
pub open spec fn planned(known: Seq<u128>, configs: Seq<KafkaConfigRow>) -> Seq<KafkaConfigRow>
    decreases configs.len(),
{
    if configs.len() == 0 {
        seq![]
    } else {
        let p = planned(known, configs.drop_last());
        let c = configs.last();
        if c.is_active && !(known + p.map_values(|x: KafkaConfigRow| x.id)).contains(c.id) {
            p.push(c)
        } else {
            p
        }
    }
}

/// A freshly started, not yet launched worker for a source.
pub open spec fn fresh_instance<H>(c: KafkaConfigRow) -> ConsumerInstance<H> {
    ConsumerInstance { handle: None, config_id: c.id, topic: c.topic, running: true }
}

/// The workers on record after starting `configs` on top of `known`.
pub open spec fn started<H>(known: Seq<ConsumerInstance<H>>, configs: Seq<KafkaConfigRow>) -> Seq<ConsumerInstance<H>> {
    known + planned(ids_of(known), configs).map_values(|c: KafkaConfigRow| fresh_instance::<H>(c))
}

/// The type declared for a source, if any.
pub open spec fn declared_for(m: Map<u128, String>, id: u128) -> Option<String> {
    if m.contains_key(id) {
        Some(m[id])
    } else {
        None
    }
}

/// The type reported for a source: its declared type, or `unknown`.
pub open spec fn reported_type(m: Map<u128, String>, id: u128) -> Seq<char> {
    if m.contains_key(id) {
        m[id]@
    } else {
        "unknown"@
    }
}

/// The handles of the launched workers, in order.
pub open spec fn attached<H>(s: Seq<ConsumerInstance<H>>) -> Seq<H>
    decreases s.len(),
{
    if s.len() == 0 {
        seq![]
    } else {
        let rest = attached(s.drop_last());
        match s.last().handle {
            Some(h) => rest.push(h),
            None => rest,
        }
    }
}

/// The mapping entry that a registry row gives: a source identity and a type name.
pub open spec fn mapping_entry(j: JsonView) -> Option<(u128, Seq<char>)> {
    match text_field(j, "kafka_config_id"@) {
        Some(id_text) => match uuid_value(id_text) {
            Some(id) => match text_field(j, "data_type"@) {
                Some(t) => Some((id, t)),
                None => None,
            },
            None => None,
        },
        None => None,
    }
}

/// The mapping that registry rows give; a later row for a source wins.
pub open spec fn mapping_from(rows: Seq<JsonView>) -> Map<u128, Seq<char>>
    decreases rows.len(),
{
    if rows.len() == 0 {
        Map::empty()
    } else {
        let m = mapping_from(rows.drop_last());
        match mapping_entry(rows.last()) {
            Some((id, t)) => m.insert(id, t),
            None => m,
        }
    }
}

/// The documents of a list of rows.
pub open spec fn row_views(rows: Seq<serde_json::Value>) -> Seq<JsonView> {
    rows.map_values(|v: serde_json::Value| json_view(v))
}

/// The worker launched for a source, with the type declared for it.
pub open spec fn worker_for(c: KafkaConfigRow, m: Map<u128, String>) -> ConsumerWorker {
    ConsumerWorker {
        config_id: c.id,
        topic: c.topic,
        source_name: c.name,
        data_type: declared_for(m, c.id),
        running: true,
        consecutive_errors: 0,
    }
}

impl<H> ConsumerService<H> {
    /// The workers on record, in the order they were started.
    pub closed spec fn instances(&self) -> Seq<ConsumerInstance<H>> {
        self.consumers@
    }

    /// The source-to-type mapping.
    pub closed spec fn mapping(&self) -> Map<u128, String> {
        self.data_source_mapping@
    }

    /// Each source has at most one worker on record.
    pub open spec fn wf(&self) -> bool {
        distinct(ids_of(self.instances()))
    }

    /// An idle service with an empty mapping.
    pub fn new() -> (r: Self)
        ensures
            r.wf(),
            r.instances() == Seq::<ConsumerInstance<H>>::empty(),
            r.mapping() == Map::<u128, String>::empty(),
    {
        ConsumerService { consumers: Vec::new(), data_source_mapping: HashMap::new() }
    }

    /// The number of workers on record.
    pub fn consumer_count(&self) -> (r: usize)
        ensures
            r == self.instances().len(),
    {
        self.consumers.len()
    }

    /// Whether a worker for the source is known.
    pub fn is_tracked(&self, config_id: u128) -> (r: bool)
        ensures
            r == ids_of(self.instances()).contains(config_id),
    {
        let mut i: usize = 0;
        while i < self.consumers.len()
            invariant
                i <= self.consumers@.len(),
                forall|k: int| 0 <= k < i ==> (#[trigger] self.consumers@[k]).config_id != config_id,
            decreases self.consumers@.len() - i,
        {
            if self.consumers[i].config_id == config_id {
                assert(ids_of(self.instances())[i as int] == config_id);
                return true;
            }
            i = i + 1;
        }
        assert(!ids_of(self.instances()).contains(config_id)) by {
            if ids_of(self.instances()).contains(config_id) {
                let k = choose|k: int| 0 <= k < ids_of(self.instances()).len() && ids_of(self.instances())[k] == config_id;
                assert(self.consumers@[k].config_id == config_id);
            }
        }
        false
    }

    /// The type declared for a source, if any.
    pub fn declared_type_for(&self, config_id: u128) -> (r: Option<String>)
        ensures
            r == declared_for(self.mapping(), config_id),
    {
        match self.data_source_mapping.get(&config_id) {
            Some(t) => Some(t.clone()),
            None => None,
        }
    }

    /// Starts a worker for each active source that is not running yet (the
    /// first row of a repeated identity counts), and returns the workers to
    /// launch, in order, each with the type declared for its source.
    pub fn start(&mut self, configs: &Vec<KafkaConfigRow>) -> (r: Vec<ConsumerWorker>)
        requires
            old(self).wf(),
        ensures
            final(self).wf(),
            final(self).mapping() == old(self).mapping(),
            final(self).instances() == started(old(self).instances(), configs@),
            r@ == planned(ids_of(old(self).instances()), configs@).map_values(
                |c: KafkaConfigRow| worker_for(c, old(self).mapping()),
            ),
    {
        let ghost before = self.consumers@;
        let ghost m = self.data_source_mapping@;
        let mut workers: Vec<ConsumerWorker> = Vec::new();
        let mut i: usize = 0;
        while i < configs.len()
            invariant
                i <= configs@.len(),
                self.data_source_mapping@ == m,
                self.consumers@ == started(before, configs@.subrange(0, i as int)),
                distinct(ids_of(self.consumers@)),
                workers@ == planned(ids_of(before), configs@.subrange(0, i as int)).map_values(
                    |c: KafkaConfigRow| worker_for(c, m),
                ),
            decreases configs@.len() - i,
        {
            let c = &configs[i];
            let ghost p = planned(ids_of(before), configs@.subrange(0, i as int));
            assert(configs@.subrange(0, i + 1).drop_last() =~= configs@.subrange(0, i as int));
            assert(ids_of(self.consumers@) =~= ids_of(before) + p.map_values(|x: KafkaConfigRow| x.id));
            if c.is_active && !self.is_tracked(c.id) {
                let ghost cs = self.consumers@;
                let declared = self.declared_type_for(c.id);
                workers.push(ConsumerWorker {
                    config_id: c.id,
                    topic: c.topic.clone(),
                    source_name: c.name.clone(),
                    data_type: declared,
                    running: true,
                    consecutive_errors: 0,
                });
                self.consumers.push(ConsumerInstance {
                    handle: None,
                    config_id: c.id,
                    topic: c.topic.clone(),
                    running: true,
                });
                assert(ids_of(self.consumers@) =~= ids_of(cs).push(c.id));
                assert(planned(ids_of(before), configs@.subrange(0, i + 1)) == p.push(*c));
                assert(self.consumers@ =~= started(before, configs@.subrange(0, i + 1)));
            } else {
                assert(planned(ids_of(before), configs@.subrange(0, i + 1)) == p);
            }
            i = i + 1;
        }
        assert(configs@.subrange(0, i as int) =~= configs@);
        workers
    }

    /// The position of the worker for a source, if one is known.
    fn position(&self, config_id: u128) -> (r: Option<usize>)
        ensures
            r is Some <==> ids_of(self.instances()).contains(config_id),
            r is Some ==> r->0 < self.instances().len() && self.instances()[r->0 as int].config_id == config_id,
    {
        let mut i: usize = 0;
        while i < self.consumers.len()
            invariant
                i <= self.consumers@.len(),
                forall|k: int| 0 <= k < i ==> (#[trigger] self.consumers@[k]).config_id != config_id,
            decreases self.consumers@.len() - i,
        {
            if self.consumers[i].config_id == config_id {
                assert(ids_of(self.instances())[i as int] == config_id);
                return Some(i);
            }
            i = i + 1;
        }
        assert(!ids_of(self.instances()).contains(config_id)) by {
            if ids_of(self.instances()).contains(config_id) {
                let k = choose|k: int| 0 <= k < ids_of(self.instances()).len() && ids_of(self.instances())[k] == config_id;
                assert(self.consumers@[k].config_id == config_id);
            }
        }
        None
    }

    /// Records the task handle of a started worker. The handle is handed back
    /// when no worker for the source is known or its handle is already set.
    pub fn attach(&mut self, config_id: u128, handle: H) -> (r: Option<H>)
        requires
            old(self).wf(),
        ensures
            final(self).wf(),
            final(self).mapping() == old(self).mapping(),
            ids_of(final(self).instances()) == ids_of(old(self).instances()),
            match r {
                Some(h) => h == handle && final(self).instances() == old(self).instances(),
                None => exists|i: int|
                    0 <= i < old(self).instances().len() && old(self).instances()[i].config_id == config_id
                        && old(self).instances()[i].handle is None && final(self).instances()
                        == old(self).instances().update(
                        i,
                        ConsumerInstance { handle: Some(handle), ..old(self).instances()[i] },
                    ),
            },
            r is None <==> exists|i: int|
                0 <= i < old(self).instances().len() && old(self).instances()[i].config_id == config_id
                    && old(self).instances()[i].handle is None,
    {
        match self.position(config_id) {
            Some(i) => {
                if self.consumers[i].handle.is_some() {
                    proof {
                        assert forall|k: int|
                            0 <= k < self.instances().len() && self.instances()[k].config_id == config_id
                                implies !(self.instances()[k].handle is None) by {
                            assert(ids_of(self.instances())[k] == ids_of(self.instances())[i as int]);
                        }
                    }
                    return Some(handle);
                }
                let ghost before = self.consumers@;
                let old_inst = self.consumers.remove(i);
                self.consumers.insert(
                    i,
                    ConsumerInstance {
                        handle: Some(handle),
                        config_id: old_inst.config_id,
                        topic: old_inst.topic,
                        running: old_inst.running,
                    },
                );
                assert(self.consumers@ =~= before.update(
                    i as int,
                    ConsumerInstance { handle: Some(handle), ..before[i as int] },
                ));
                assert(ids_of(self.consumers@) =~= ids_of(before));
                None
            },
            None => {
                assert forall|k: int|
                    0 <= k < self.instances().len() implies #[trigger] self.instances()[k].config_id != config_id by {
                    assert(ids_of(self.instances())[k] == self.instances()[k].config_id);
                }
                Some(handle)
            },
        }
    }

    /// Marks the worker for a source as no longer running (its task ended);
    /// false when no worker for the source is known.
    pub fn mark_finished(&mut self, config_id: u128) -> (r: bool)
        requires
            old(self).wf(),
        ensures
            final(self).wf(),
            final(self).mapping() == old(self).mapping(),
            r == ids_of(old(self).instances()).contains(config_id),
            !r ==> final(self).instances() == old(self).instances(),
            r ==> exists|i: int|
                0 <= i < old(self).instances().len() && old(self).instances()[i].config_id == config_id
                    && final(self).instances() == old(self).instances().update(
                    i,
                    ConsumerInstance { running: false, ..old(self).instances()[i] },
                ),
    {
        match self.position(config_id) {
            Some(i) => {
                let ghost before = self.consumers@;
                let old_inst = self.consumers.remove(i);
                self.consumers.insert(
                    i,
                    ConsumerInstance {
                        handle: old_inst.handle,
                        config_id: old_inst.config_id,
                        topic: old_inst.topic,
                        running: false,
                    },
                );
                assert(self.consumers@ =~= before.update(
                    i as int,
                    ConsumerInstance { running: false, ..before[i as int] },
                ));
                assert(ids_of(self.consumers@) =~= ids_of(before));
                true
            },
            None => false,
        }
    }

    /// Cancels every worker: forgets all of them and returns the handles of
    /// the launched ones, in order, for the caller to abort.
    pub fn stop(&mut self) -> (r: Vec<H>)
        requires
            old(self).wf(),
        ensures
            final(self).wf(),
            final(self).mapping() == old(self).mapping(),
            final(self).instances() == Seq::<ConsumerInstance<H>>::empty(),
            r@ == attached(old(self).instances()),
    {
        let mut rest: Vec<ConsumerInstance<H>> = Vec::new();
        std::mem::swap(&mut rest, &mut self.consumers);
        let ghost all = rest@;
        let total = rest.len();
        let mut handles: Vec<H> = Vec::new();
        let mut k: usize = 0;
        while rest.len() > 0
            invariant
                all.len() == total,
                k <= all.len(),
                rest@ == all.subrange(k as int, all.len() as int),
                handles@ == attached(all.subrange(0, k as int)),
                self.consumers@ == Seq::<ConsumerInstance<H>>::empty(),
            decreases rest@.len(),
        {
            let inst = rest.remove(0);
            assert(inst == all[k as int]);
            assert(all.subrange(0, k + 1).drop_last() =~= all.subrange(0, k as int));
            match inst.handle {
                Some(h) => handles.push(h),
                None => {},
            }
            k = k + 1;
            assert(rest@ =~= all.subrange(k as int, all.len() as int));
        }
        assert(all.subrange(0, k as int) =~= all);
        handles
    }

    /// The state of every worker on record, in order, with its declared type.
    pub fn get_consumer_status(&self) -> (r: Vec<ConsumerStatus>)
        ensures
            r@.len() == self.instances().len(),
            forall|i: int|
                0 <= i < r@.len() ==> {
                    &&& (#[trigger] r@[i]).config_id == self.instances()[i].config_id
                    &&& r@[i].topic == self.instances()[i].topic
                    &&& r@[i].running == self.instances()[i].running
                    &&& r@[i].data_type@ == reported_type(self.mapping(), self.instances()[i].config_id)
                },
    {
        let mut out: Vec<ConsumerStatus> = Vec::new();
        let mut i: usize = 0;
        while i < self.consumers.len()
            invariant
                i <= self.consumers@.len(),
                out@.len() == i,
                forall|k: int|
                    0 <= k < i ==> {
                        &&& (#[trigger] out@[k]).config_id == self.consumers@[k].config_id
                        &&& out@[k].topic == self.consumers@[k].topic
                        &&& out@[k].running == self.consumers@[k].running
                        &&& out@[k].data_type@ == reported_type(self.data_source_mapping@, self.consumers@[k].config_id)
                    },
            decreases self.consumers@.len() - i,
        {
            let inst = &self.consumers[i];
            let data_type = match self.data_source_mapping.get(&inst.config_id) {
                Some(t) => t.clone(),
                None => String::from_str("unknown"),
            };
            out.push(ConsumerStatus {
                config_id: inst.config_id,
                topic: inst.topic.clone(),
                data_type,
                running: inst.running,
            });
            i = i + 1;
        }
        out
    }

    /// Rebuilds the source-to-type mapping from the registry's rows. A row
    /// gives an entry when its `kafka_config_id` is a UUID text and its
    /// `data_type` a string; a later row for a source wins.
    pub fn refresh_data_source_mapping(&mut self, rows: &Vec<serde_json::Value>)
        requires
            old(self).wf(),
        ensures
            final(self).wf(),
            final(self).instances() == old(self).instances(),
            final(self).mapping().map_values(|t: String| t@) == mapping_from(row_views(rows@)),
    {
        self.data_source_mapping.clear();
        let mut i: usize = 0;
        while i < rows.len()
            invariant
                i <= rows@.len(),
                distinct(ids_of(self.consumers@)),
                self.consumers@ == old(self).consumers@,
                self.data_source_mapping@.map_values(|t: String| t@) == mapping_from(
                    row_views(rows@.subrange(0, i as int)),
                ),
            decreases rows@.len() - i,
        {
            let row = &rows[i];
            let ghost prev = self.data_source_mapping@;
            assert(row_views(rows@.subrange(0, i + 1)).drop_last() =~= row_views(rows@.subrange(0, i as int)));
            assert(row_views(rows@.subrange(0, i + 1)).last() == json_view(*row));
            match text_at(row, "kafka_config_id") {
                Some(id_text) => match parse_uuid(id_text.as_str()) {
                    Some(id) => match text_at(row, "data_type") {
                        Some(t) => {
                            self.data_source_mapping.insert(id, t);
                            assert(self.data_source_mapping@.map_values(|t: String| t@) =~= prev.map_values(
                                |t: String| t@,
                            ).insert(id, t@));
                        },
                        None => {},
                    },
                    None => {},
                },
                None => {},
            }
            i = i + 1;
        }
        assert(rows@.subrange(0, i as int) =~= rows@);
    }

    /// Stops every worker, rebuilds the mapping from `rows`, and starts a
    /// worker for each active source of `configs`. Returns the handles to
    /// abort and the workers to launch.
    pub fn refresh_consumers(
        &mut self,
        rows: &Vec<serde_json::Value>,
        configs: &Vec<KafkaConfigRow>,
    ) -> (r: (Vec<H>, Vec<ConsumerWorker>))
        requires
            old(self).wf(),
        ensures
            final(self).wf(),
            r.0@ == attached(old(self).instances()),
            final(self).mapping().map_values(|t: String| t@) == mapping_from(row_views(rows@)),
            final(self).instances() == started(Seq::<ConsumerInstance<H>>::empty(), configs@),
            r.1@ == planned(Seq::<u128>::empty(), configs@).map_values(
                |c: KafkaConfigRow| worker_for(c, final(self).mapping()),
            ),
    {
        let handles = self.stop();
        self.refresh_data_source_mapping(rows);
        assert(ids_of(self.instances()) =~= Seq::<u128>::empty());
        let workers = self.start(configs);
        (handles, workers)
    }
}

/// The active sources, in order.
pub open spec fn active_in(configs: Seq<KafkaConfigRow>) -> Seq<KafkaConfigRow>
    decreases configs.len(),
{
    if configs.len() == 0 {
        seq![]
    } else if configs.last().is_active {
        active_in(configs.drop_last()).push(configs.last())
    } else {
        active_in(configs.drop_last())
    }
}

/// The identities of source rows, in order.
pub open spec fn config_ids(configs: Seq<KafkaConfigRow>) -> Seq<u128> {
    configs.map_values(|c: KafkaConfigRow| c.id)
}

/// With distinct identities, an idle start launches exactly the active sources.
proof fn lemma_idle_plan(configs: Seq<KafkaConfigRow>)
    requires
        distinct(config_ids(configs)),
    ensures
        planned(Seq::<u128>::empty(), configs) == active_in(configs),
        forall|k: int|
            0 <= k < planned(Seq::<u128>::empty(), configs).len() ==> config_ids(configs).contains(
                #[trigger] planned(Seq::<u128>::empty(), configs)[k].id,
            ),
    decreases configs.len(),
{
    if configs.len() > 0 {
        let prefix = configs.drop_last();
        let c = configs.last();
        let n = configs.len() - 1;
        assert(config_ids(prefix) =~= config_ids(configs).drop_last());
        lemma_idle_plan(prefix);
        let p = planned(Seq::<u128>::empty(), prefix);
        let pids = p.map_values(|x: KafkaConfigRow| x.id);
        assert(Seq::<u128>::empty() + pids =~= pids);
        if pids.contains(c.id) {
            let k = choose|k: int| 0 <= k < pids.len() && pids[k] == c.id;
            assert(config_ids(prefix).contains(p[k].id));
            let j = choose|j: int| 0 <= j < config_ids(prefix).len() && config_ids(prefix)[j] == p[k].id;
            assert(config_ids(configs)[j] == config_ids(configs)[n]);
        }
        let q = planned(Seq::<u128>::empty(), configs);
        assert forall|k: int| 0 <= k < q.len() implies config_ids(configs).contains(#[trigger] q[k].id) by {
            if k < p.len() {
                assert(q[k] == p[k]);
                let j = choose|j: int| 0 <= j < config_ids(prefix).len() && config_ids(prefix)[j] == p[k].id;
                assert(config_ids(configs)[j] == p[k].id);
            } else {
                assert(config_ids(configs)[n] == q[k].id);
            }
        }
    }
}

/// Starting an idle service over a registry whose identities are distinct
/// tracks exactly its active sources, in order, each under its own identity
/// and topic and reported running.
pub proof fn law_start_tracks_active_sources<H>(configs: Seq<KafkaConfigRow>)
    requires
        distinct(config_ids(configs)),
    ensures
        started(Seq::<ConsumerInstance<H>>::empty(), configs).len() == active_in(configs).len(),
        forall|i: int|
            0 <= i < active_in(configs).len() ==> {
                &&& (#[trigger] started(Seq::<ConsumerInstance<H>>::empty(), configs)[i]).config_id
                    == active_in(configs)[i].id
                &&& started(Seq::<ConsumerInstance<H>>::empty(), configs)[i].topic == active_in(configs)[i].topic
                &&& started(Seq::<ConsumerInstance<H>>::empty(), configs)[i].running
            },
{
    lemma_idle_plan(configs);
    assert(ids_of(Seq::<ConsumerInstance<H>>::empty()) =~= Seq::<u128>::empty());
    assert(started(Seq::<ConsumerInstance<H>>::empty(), configs) =~= active_in(configs).map_values(
        |c: KafkaConfigRow| fresh_instance::<H>(c),
    ));
}

/// Whatever ran before, a refresh over a registry whose identities are
/// distinct leaves one worker per active source of that registry.
pub proof fn law_refresh_counts_active_sources<H>(configs: Seq<KafkaConfigRow>)
    requires
        distinct(config_ids(configs)),
    ensures
        started(Seq::<ConsumerInstance<H>>::empty(), configs).len() == active_in(configs).len(),
{
    law_start_tracks_active_sources::<H>(configs);
}

/// A message that carries neither kind's markers leads to no stored record
/// and nothing published.
pub proof fn law_unrecognized_messages_store_nothing(
    outcome: Ingested,
    j: JsonView,
    declared: Option<DataType>,
    id: Seq<char>,
    raw: Seq<char>,
    prov: Provenance,
    now: DateParts,
)
    requires
        !crate::classify::edr_markers(j),
        !crate::classify::ngav_markers(j),
        outcome.ingests(Some(j), declared, id, raw, prov, now),
    ensures
        !outcome.is_classified(),
{
    crate::classify::law_unmarked_documents_are_unrecognized(j, declared);
}

/// Decoding, classifying and normalizing an EDR alert's JSON text (with no
/// type declared, or a declaration it does not contradict) yields an `edr`
/// common record and a type-specific record whose process and parent fields
/// are the text's own.
pub proof fn law_edr_round_trip(
    text: Seq<char>,
    declared: Option<DataType>,
    outcome: Ingested,
    id: Seq<char>,
    prov: Provenance,
    now: DateParts,
)
    requires
        json_text_document(text) is Some,
        crate::edr_alert::edr_shape(json_text_document(text)->0),
        declared == Some(DataType::Ngav) ==> !crate::ngav_alert::ngav_shape(json_text_document(text)->0),
        outcome.ingests(json_text_document(text), declared, id, text, prov, now),
    ensures
        match outcome {
            Ingested::Edr { alert, common, row } => {
                let j = json_text_document(text)->0;
                &&& common.data_type@ == "edr"@
                &&& common.raw_data@ == text
                &&& text_field(j, "process_path"@) == Some(row.process_path@)
                &&& text_field(j, "process_cmdline"@) == Some(row.process_cmdline@)
                &&& text_field(j, "process_guid"@) == Some(row.process_guid@)
                &&& text_field(j, "process_reputation"@) == Some(row.process_reputation@)
                &&& text_field(j, "process_username"@) == Some(row.process_username@)
                &&& crate::json::unsigned_field(j, "process_pid"@, u32::MAX as nat) == Some(row.process_pid as nat)
                &&& crate::json::text_list_field(j, "process_hash"@) == Some(crate::json::texts_view(row.process_hash@))
                &&& text_field(j, "parent_path"@) == Some(row.parent_path@)
                &&& text_field(j, "parent_cmdline"@) == Some(row.parent_cmdline@)
                &&& text_field(j, "parent_guid"@) == Some(row.parent_guid@)
                &&& text_field(j, "parent_reputation"@) == Some(row.parent_reputation@)
                &&& text_field(j, "parent_username"@) == Some(row.parent_username@)
                &&& crate::json::unsigned_field(j, "parent_pid"@, u32::MAX as nat) == Some(row.parent_pid as nat)
                &&& crate::json::text_list_field(j, "parent_hash"@) == Some(crate::json::texts_view(row.parent_hash@))
            },
            _ => false,
        },
{
    crate::classify::law_edr_documents_classify_as_edr(json_text_document(text)->0, declared);
}

/// A running worker stays running, on the same source, through any number
/// of receive errors in a row.
pub proof fn law_transient_errors_keep_worker_running(w: ConsumerWorker, n: nat)
    requires
        w.running,
    ensures
        after_errors(w, n).running,
        after_errors(w, n).config_id == w.config_id,
        after_errors(w, n).topic == w.topic,
    decreases n,
{
    if n > 0 {
        law_transient_errors_keep_worker_running(w, (n - 1) as nat);
    }
}

} // verus!
