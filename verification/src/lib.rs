//! Decision logic of a source-routed drone network: packet types, routing
//! headers, and the per-packet and per-command behaviour of the drones.
//! Channels, timers, sound and configuration files are handled by callers;
//! each decision function hands back the actions to perform.
pub mod packet;
pub mod action;
pub mod routing;
pub mod command;
pub mod neighbors;
pub mod amongus;
pub mod pie;
pub mod nita;
pub mod nita_basic;
pub mod laws;
pub mod packet_laws;
