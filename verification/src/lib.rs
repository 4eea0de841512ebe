//! Verified core of a simulated LC-MS (Orbitrap-class) instrument.
//!
//! The library synthesizes MS1/MS2 scan records with isotopic envelopes,
//! computes their aggregates exactly, drives the paced acquisition state machine,
//! and builds the control-surface responses. The process around it supplies
//! the async runtime, the fan-out channel and the transport.

pub mod scan;
pub mod rng;
pub mod simulator;
pub mod engine;
pub mod control;
