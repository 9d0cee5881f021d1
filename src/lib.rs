//! A client for the instance-management REST API of a cloud compute provider.
//!
//! The library prepares requests: it assembles the zone-scoped endpoint URL,
//! the credentials and the pending body, and maps each lifecycle operation onto
//! one endpoint and one HTTP verb. Sending a request is left to the caller.

pub mod zone;
pub mod client;
pub mod lifecycle;
pub mod response;
