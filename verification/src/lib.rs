//! A level-gated access layer over embedded key-value stores, without the
//! stores.
//!
//! The crate holds everything the layer decides and nothing it has to ask
//! an engine for. An [`operation::Operation`] is carried out step by step:
//! each step takes the engine's answer to the last request
//! ([`engine::Event`]) and gives the next request ([`engine::Action`]).
//! Whoever owns the engine performs the requests.
//!
//! * [`codec`]: the write level in a three-byte header of a stored value.
//! * [`prefix`]: the prefix test on keys, and the order of keys.
//! * [`gate`]: the rule by which a write may replace a record.
//! * [`operation`]: the operations and their steps.
//! * [`database`]: the registry of open stores and the operations on a
//!   logical store.
//! * [`model`] and [`laws`]: what the operations come to against an
//!   engine that behaves.
//! * [`config`], [`server`], [`digest`]: settings, request handling and
//!   log helpers of the service in front of the layer.

pub mod codec;
pub mod config;
pub mod database;
pub mod digest;
pub mod engine;
pub mod error;
pub mod gate;
pub mod laws;
pub mod model;
pub mod operation;
pub mod prefix;
pub mod server;

pub use codec::DataLevel;
pub use config::RocksdbOptions;
pub use database::DbWrap;
pub use digest::bytes_to_hide_hex;
pub use digest::debug_hash_data;
pub use digest::sha2_hash256;
pub use error::DbError;
pub use prefix::is_prefix;
pub use server::DbConfig;
pub use server::HttpRequest;
pub use server::RequestType;
