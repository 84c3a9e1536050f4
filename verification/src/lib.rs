//! Verified core of ponoma, a multi-household book of record with paper trading, and of the
//! servant-rs client and documentation helpers it is served with.
//!
//! - [`roles`], [`servicing`], [`domain`], [`thesis`]: the discrete vocabulary (roles and
//!   capabilities, service-request lifecycle, account registrations, trade sides, verdicts).
//! - [`allocation`], [`selfimprove`], [`agent`]: the decisions of the agentic loop (strategy
//!   policy, tick and rebalance actions, outcome tally, improvement heuristic and resolution,
//!   recommendation ordering).
//! - [`mcp`]: the MCP tool catalog and the `tools/call` dispatch decision.
//! - [`communities`], [`prospect`]: marketplace search, unique tickers, category risk.
//! - [`db`]: the records of the persistence layer and the schema statement splitter.
//! - [`docs`]: the API documentation model, its left-biased merge and Markdown rendering.
//! - [`base_url`], [`request`], [`streaming`], [`named_api`]: client base URLs, path-segment
//!   encoding and request targets, the streaming-body state machine and head check, and
//!   derive-name casing.
//! - [`text`]: verified string utilities and the trusted wrappers over std's Unicode mappings.
pub mod agent;
pub mod allocation;
pub mod base_url;
pub mod communities;
pub mod db;
pub mod docs;
pub mod domain;
pub mod mcp;
pub mod named_api;
pub mod prospect;
pub mod request;
pub mod roles;
pub mod selfimprove;
pub mod servicing;
pub mod streaming;
pub mod text;
pub mod thesis;
