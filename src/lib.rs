//! Radio frequency bridge between a flight simulator and a CAN-style radio panel.
//!
//! The library holds the pure part of the bridge: the device byte table, the
//! numeric frequency transforms, the nine-byte wire payload, and the decisions
//! taken on each poll tick and on each inbound packet.
pub mod codec;
pub mod device;
pub mod freq;
pub mod sim_events;
