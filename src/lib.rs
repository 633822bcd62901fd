//! Core of a configuration-driven HTTP mock server: route table, file cache,
//! file resolution policy, dispatcher, sharded statistics and connection census.

pub mod text;
pub mod mime;
pub mod error;
pub mod buf;
pub mod config;
pub mod headers;
pub mod route;
pub mod policy;
pub mod cachemap;
pub mod router;
pub mod builder;
pub mod stats;
pub mod dispatch;
pub mod census;
