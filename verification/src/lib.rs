//! Link state and link flow control of an AMQP 1.0 endpoint.
//!
//! A sending link spends credit that the receiving link grants. This crate
//! holds the state on either side, the rules by which flow frames and
//! deliveries change it, and the delivery tags that a sending link hands out.

pub mod consumer;
pub mod definitions;
pub mod delivery_tag;
pub mod endpoint;
pub mod error;
pub mod flow_state;
pub mod laws;
pub mod lock;
pub mod role;
pub mod state;
