//! Commands that the simulation controller sends to a drone.
use vstd::prelude::*;
use crate::packet::NodeId;

verus! {

/// A controller command, as far as the drone's decisions read it: the
/// channel of `AddSender` and the rate of `SetPacketDropRate` stay with the
/// caller, which owns the channels and the drop rate.
#[derive(Debug, Clone, Copy, PartialEq, Eq)]
pub enum DroneCommand {
    AddSender(NodeId),
    SetPacketDropRate,
    RemoveSender(NodeId),
    Crash,
}

} // verus!
