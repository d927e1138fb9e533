//! An at-least-once pipeline that turns queue notifications into events fetched
//! from an object store, runs them through pluggable stages, and decides which
//! queue messages may be acknowledged.
pub mod error;
pub mod notification;
pub mod retrieval;
pub mod pipeline;
pub mod completion;
pub mod consumer;
