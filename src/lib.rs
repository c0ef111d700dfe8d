//! Network-facing ingestion and delivery logic: framing and decoding of scraped
//! payloads, request targets with merged query strings, event enrichment, the
//! scrape and connection state machines, and the shutdown deadline rule.

pub mod event;
pub mod framing;
pub mod codec;
pub mod query;
pub mod uri;
pub mod scrape;
pub mod websocket;
pub mod lifecycle;
