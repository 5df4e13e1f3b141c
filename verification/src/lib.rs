//! Coordination protocol for a broker prefetch benchmark.
//!
//! Two roles, a producer and a consumer, run against a shared message broker
//! and measure how the consumer's prefetch (QoS) limit affects delivery
//! latency. This crate holds the protocol itself: payload classification
//! against the reserved sentinel strings, the consumer's state machine with
//! its sample and acknowledgement discipline, the producer's publishing
//! schedule, the connection retry policy, and configuration parsing. The
//! broker transport is an external collaborator; the surrounding process
//! drives these state machines and performs the actual I/O.

pub mod config;
pub mod consumer;
pub mod envelope;
pub mod payload;
pub mod producer;
pub mod retry;
