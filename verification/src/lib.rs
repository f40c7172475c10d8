//! Catalog client logic for a streaming-show downloader: resolving which
//! episodes a command refers to, paginating through the catalog's episode
//! listings, and accounting for a batch of downloads with partial failure.
//!
//! All network and process I/O lives outside this crate; the functions here
//! compute URLs, selections, report lines and summaries from plain values.

pub mod batch;
pub mod listing;
pub mod model;
pub mod numfmt;
pub mod paginate;
pub mod resolve;
pub mod textout;
