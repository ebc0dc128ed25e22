//! Core of a sports-league calendar crawler.
//!
//! The crawler fetches thousands of pages across many hosts. The hard part is
//! not reading HTML: it is bounding total and per-host concurrency, retrying
//! transient failures, collapsing concurrent requests for the same resource
//! into one, and following redirect chains while keeping each logical address
//! computed at most once and visible consistently to all waiters.
//!
//! This crate holds that decision logic with machine-checked contracts:
//! admission accounting, the retry state machine of the fetch client, the
//! single-flight address cache with redirect write-through, request metrics,
//! URL normalization, and the pure data transformations of the surrounding
//! scraping and import steps. The network calls, timers and database writes
//! themselves are performed by the program around the library, which drives
//! these state machines and hands their decisions back as plain events.

pub mod admission;
pub mod cache;
pub mod config;
pub mod extract;
pub mod fetch;
pub mod games;
pub mod import;
pub mod metrics;
pub mod resolver;
pub mod urls;
