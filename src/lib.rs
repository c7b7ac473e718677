//! Per-device audio connection lifecycle and telephony call state for a
//! Bluetooth host stack, with every decision stated and proved.
pub mod address;
pub mod addr_map;
pub mod profile;
pub mod lifecycle;
pub mod telephony;
pub mod events;
pub mod media;
