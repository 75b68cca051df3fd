//! Broker client settings, and their conversion to and from the rows of the
//! configuration store.

use vstd::prelude::*;
use crate::clickhouse::{unsigned_bits, unsigned_bits_of};
use crate::database::KafkaConfigRow;

verus! {

/// Producer-side settings.
#[derive(Debug, Clone)]
pub struct KafkaProducerConfig {
    pub message_timeout_ms: u32,
    pub request_timeout_ms: u32,
    pub retry_backoff_ms: u32,
    pub retries: u32,
}

/// Consumer-side settings.
#[derive(Debug, Clone)]
pub struct KafkaConsumerConfig {
    pub auto_offset_reset: String,
    pub enable_auto_commit: bool,
    pub auto_commit_interval_ms: u32,
}

/// The settings of one broker connection.
#[derive(Debug, Clone)]
pub struct KafkaConfig {
    pub bootstrap_servers: String,
    pub topic: String,
    pub group_id: String,
    pub producer: KafkaProducerConfig,
    pub consumer: KafkaConsumerConfig,
}

/// The two's-complement reading of an unsigned 32-bit value as signed.
pub open spec fn signed_bits(v: u32) -> i32 {
    if v <= i32::MAX {
        v as i32
    } else {
        (v - 0x1_0000_0000) as i32
    }
}

/// Reads an unsigned 32-bit value as signed, as a cast does.
pub fn signed_bits_of(v: u32) -> (r: i32)
    ensures
        r == signed_bits(v),
{
    if v <= i32::MAX as u32 {
        v as i32
    } else {
        (v as i64 - 0x1_0000_0000i64) as i32
    }
}

impl KafkaConfig {
    /// The settings of a local single-broker setup.
    pub open spec fn is_default(&self) -> bool {
        &&& self.bootstrap_servers@ == "localhost:9092"@
        &&& self.topic@ == "alerts"@
        &&& self.group_id@ == "alerts-consumer-group"@
        &&& self.producer.message_timeout_ms == 5000
        &&& self.producer.request_timeout_ms == 5000
        &&& self.producer.retry_backoff_ms == 100
        &&& self.producer.retries == 3
        &&& self.consumer.auto_offset_reset@ == "earliest"@
        &&& self.consumer.enable_auto_commit
        &&& self.consumer.auto_commit_interval_ms == 1000
    }
}

impl Default for KafkaConfig {
    fn default() -> (r: KafkaConfig)
        ensures
            r.is_default(),
    {
        KafkaConfig {
            bootstrap_servers: String::from_str("localhost:9092"),
            topic: String::from_str("alerts"),
            group_id: String::from_str("alerts-consumer-group"),
            producer: KafkaProducerConfig {
                message_timeout_ms: 5000,
                request_timeout_ms: 5000,
                retry_backoff_ms: 100,
                retries: 3,
            },
            consumer: KafkaConsumerConfig {
                auto_offset_reset: String::from_str("earliest"),
                enable_auto_commit: true,
                auto_commit_interval_ms: 1000,
            },
        }
    }
}

impl KafkaConfig {
    /// The settings that a stored source row describes.
    pub open spec fn describes(&self, row: KafkaConfigRow) -> bool {
        &&& self.bootstrap_servers@ == row.bootstrap_servers@
        &&& self.topic@ == row.topic@
        &&& self.group_id@ == row.group_id@
        &&& self.producer.message_timeout_ms == unsigned_bits(row.message_timeout_ms)
        &&& self.producer.request_timeout_ms == unsigned_bits(row.request_timeout_ms)
        &&& self.producer.retry_backoff_ms == unsigned_bits(row.retry_backoff_ms)
        &&& self.producer.retries == unsigned_bits(row.retries)
        &&& self.consumer.auto_offset_reset@ == row.auto_offset_reset@
        &&& self.consumer.enable_auto_commit == row.enable_auto_commit
        &&& self.consumer.auto_commit_interval_ms == unsigned_bits(row.auto_commit_interval_ms)
    }

    /// The row that stores these settings under `id`, `name` and the time `now`.
    pub open spec fn stored_as(&self, row: KafkaConfigRow, name: Seq<char>, is_active: bool, id: u128, now: i64) -> bool {
        &&& row.id == id
        &&& row.name@ == name
        &&& row.bootstrap_servers@ == self.bootstrap_servers@
        &&& row.topic@ == self.topic@
        &&& row.group_id@ == self.group_id@
        &&& row.message_timeout_ms == signed_bits(self.producer.message_timeout_ms)
        &&& row.request_timeout_ms == signed_bits(self.producer.request_timeout_ms)
        &&& row.retry_backoff_ms == signed_bits(self.producer.retry_backoff_ms)
        &&& row.retries == signed_bits(self.producer.retries)
        &&& row.auto_offset_reset@ == self.consumer.auto_offset_reset@
        &&& row.enable_auto_commit == self.consumer.enable_auto_commit
        &&& row.auto_commit_interval_ms == signed_bits(self.consumer.auto_commit_interval_ms)
        &&& row.is_active == is_active
        &&& row.created_at == now
        &&& row.updated_at == now
    }

    /// The settings of a stored source row.
    pub fn from_database_row(row: &KafkaConfigRow) -> (r: KafkaConfig)
        ensures
            r.describes(*row),
    {
        KafkaConfig {
            bootstrap_servers: row.bootstrap_servers.clone(),
            topic: row.topic.clone(),
            group_id: row.group_id.clone(),
            producer: KafkaProducerConfig {
                message_timeout_ms: unsigned_bits_of(row.message_timeout_ms),
                request_timeout_ms: unsigned_bits_of(row.request_timeout_ms),
                retry_backoff_ms: unsigned_bits_of(row.retry_backoff_ms),
                retries: unsigned_bits_of(row.retries),
            },
            consumer: KafkaConsumerConfig {
                auto_offset_reset: row.consumer_reset(),
                enable_auto_commit: row.enable_auto_commit,
                auto_commit_interval_ms: unsigned_bits_of(row.auto_commit_interval_ms),
            },
        }
    }

    /// The settings of the active stored source, or the defaults when there is none.
    pub fn from_active_row(row: Option<&KafkaConfigRow>) -> (r: KafkaConfig)
        ensures
            row is Some ==> r.describes(*row->0),
            row is None ==> r.is_default(),
    {
        match row {
            Some(row) => KafkaConfig::from_database_row(row),
            None => KafkaConfig::default(),
        }
    }

    /// The row that stores these settings under identity `id`, stamped `now`
    /// (seconds since the Unix epoch).
    pub fn to_database_row(&self, name: String, is_active: bool, id: u128, now: i64) -> (r: KafkaConfigRow)
        ensures
            self.stored_as(r, name@, is_active, id, now),
    {
        KafkaConfigRow {
            id,
            name,
            bootstrap_servers: self.bootstrap_servers.clone(),
            topic: self.topic.clone(),
            group_id: self.group_id.clone(),
            message_timeout_ms: signed_bits_of(self.producer.message_timeout_ms),
            request_timeout_ms: signed_bits_of(self.producer.request_timeout_ms),
            retry_backoff_ms: signed_bits_of(self.producer.retry_backoff_ms),
            retries: signed_bits_of(self.producer.retries),
            auto_offset_reset: self.consumer.auto_offset_reset.clone(),
            enable_auto_commit: self.consumer.enable_auto_commit,
            auto_commit_interval_ms: signed_bits_of(self.consumer.auto_commit_interval_ms),
            is_active,
            created_at: now,
            updated_at: now,
        }
    }
}

impl KafkaConfigRow {
    fn consumer_reset(&self) -> (r: String)
        ensures
            r@ == self.auto_offset_reset@,
    {
        self.auto_offset_reset.clone()
    }
}

} // verus!
