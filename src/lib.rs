//! The "place order" workflow as a verified functional core.
//!
//! An unvalidated order is validated, priced, given shipping information and
//! acknowledged, and the workflow ends in a list of domain events. Every
//! collaborator (product and address checks, price lookup, shipping cost,
//! letter creation, sending) is outside this crate: the library decides what
//! to ask them for and what follows from what they answered.

pub mod simple_types;
pub mod order_types;
pub mod fan_in;
pub mod steps;
pub mod events;
pub mod workflow;
pub mod api;
