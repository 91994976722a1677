//! Telemetry ingestion spine: severity-filtered audit reporting, an API-key
//! tenant gate, and the shared validate/write/classify ingestion path used by
//! both the HTTP handlers and the file-polling loop.

pub mod audit;
pub mod gate;
pub mod handlers;
pub mod ingest;
pub mod pipe;
pub mod record;
pub mod response;
