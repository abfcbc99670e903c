//! Capability discovery and format/parameter negotiation for the output
//! direction of a video device.
//!
//! The device is driven through fixed-layout control records. This crate
//! decides which record to send next and what the replies mean; performing
//! the exchange itself is the caller's business.
pub mod control;
pub mod enumerate;
pub mod negotiate;
pub mod output;
