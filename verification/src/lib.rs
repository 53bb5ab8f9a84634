//! A verified model of a minimal screen-capture client for a compositor
//! protocol: global-registry resolution, capture/format negotiation as a
//! state machine, shared-memory buffer sizing, and the event-drain
//! discipline that ties them together. The unverified transport (socket
//! I/O, proxy objects) lives outside this crate and hands plain values in.

pub mod descriptor;
pub mod fill;
pub mod laws;
pub mod pixel;
pub mod registry;
pub mod session;
