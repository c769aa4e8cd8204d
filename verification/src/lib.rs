//! Core of a per-user game-statistics store backed by a partitioned,
//! range-sorted key-value table: an order-preserving score codec, the
//! composite-key builder, the query-to-index routing, the query parser,
//! and the storage-item decoder. All I/O stays outside this crate: the
//! storage and HTTP collaborators hand plain values in and take plain
//! values back.

pub mod add_stat_request;
pub mod codec;
pub mod db_constants;
pub mod db_item;
pub mod decimal;
pub mod error;
pub mod query_parser;
pub mod stat_query;
pub mod stat_view;
pub mod text;
pub mod time_utils;
