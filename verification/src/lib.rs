//! Synthetic traffic generator for a cargo-booking service.
//!
//! A run is driven either by replaying a pre-recorded external event log
//! against simulated time, or by stepping a pool of synthetic customer
//! agents through a booking workflow for a fixed simulated duration.
//! This crate holds the verified core: the simulation clock, the event
//! log player, the customer-agent state machine with its failure budget,
//! and the behavior policies. Network transport and file loading are left
//! to the surrounding binary, which feeds plain values in and out.

pub mod agent_laws;
pub mod behavior;
pub mod clock;
pub mod config;
pub mod customer;
pub mod eel;
pub mod events;
