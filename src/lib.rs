//! Ingestion of endpoint-detection and antivirus alerts: schema-driven
//! classification, normalization into common and type-specific records, and
//! the bookkeeping of the per-source consumer workers.

pub mod alert;
pub mod api;
pub mod classify;
pub mod clickhouse;
pub mod consumer_service;
pub mod database;
pub mod datetime;
pub mod edr_alert;
pub mod ids;
pub mod json;
pub mod kafka_config;
pub mod ngav_alert;
pub mod sink;
pub mod text;

pub use alert::AlertMessage;
pub use clickhouse::{CommonAlert, EdrAlertRow, NgavAlertRow};
pub use consumer_service::{ConsumerService, KafkaMessage};
pub use database::{DatabaseConfig, KafkaConfigRow};
pub use edr_alert::EdrAlert;
pub use kafka_config::KafkaConfig;
pub use ngav_alert::NgavAlert;
