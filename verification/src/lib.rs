//! A flat, value-oriented facade over zenoh.
//!
//! Every operation is a free function named after the type it acts on
//! (`keyexpr_intersects`, `sample_get_payload`, …). The data zenoh hands out
//! is modelled here as plain values with stated invariants; whatever zenoh
//! alone knows how to compute (key-expression validation and matching,
//! parameter processing, encoding names, identifier rendering, configuration
//! parsing) is obtained from zenoh itself.
#![allow(unused_imports)]

pub mod error;
pub mod qos;
pub mod keyexpr;
pub mod zenoh_id;
pub mod config;
pub mod bytes;
pub mod time;
pub mod sample;
pub mod query;
pub mod scouting;
pub mod parameters;
pub mod advanced;
pub mod info;
