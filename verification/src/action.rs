//! What a drone asks its caller to do after a decision.
use vstd::prelude::*;
use crate::packet::{NodeId, Packet, PacketView, DroneEvent, DroneEventView};

verus! {

/// A sound effect that marks a step of the drone's work.
#[derive(Debug, Clone, Copy, PartialEq, Eq)]
pub enum Sound {
    Received,
    Sent,
    Dropped,
    Crash,
    Success,
    Fail,
}

/// One effect, to be performed in order by the caller.
#[derive(Debug, PartialEq, Eq)]
pub enum Action {
    /// Put `packet` on the channel towards the neighbour `to`.
    Forward { to: NodeId, packet: Packet },
    /// Report an event to the simulation controller.
    Notify(DroneEvent),
    /// Play a sound effect.
    PlaySound(Sound),
}

/// Mathematical value of an action.
pub enum ActionView {
    Forward { to: NodeId, packet: PacketView },
    Notify(DroneEventView),
    PlaySound(Sound),
}

impl View for Action {
    type V = ActionView;

    open spec fn view(&self) -> ActionView {
        match self {
            Action::Forward { to, packet } => ActionView::Forward { to: *to, packet: packet@ },
            Action::Notify(e) => ActionView::Notify(e@),
            Action::PlaySound(s) => ActionView::PlaySound(*s),
        }
    }
}

/// The views of a sequence of actions.
pub open spec fn actions_view(actions: Seq<Action>) -> Seq<ActionView> {
    actions.map_values(|a: Action| a@)
}

/// Appends `more` to `actions`.
pub fn append_actions(actions: &mut Vec<Action>, more: Vec<Action>)
    ensures
        actions_view(final(actions)@) == actions_view(old(actions)@) + actions_view(more@),
{
    let mut more = more;
    let ghost a0 = actions@;
    let ghost m0 = more@;
    actions.append(&mut more);
    assert(actions_view(actions@) =~= actions_view(a0) + actions_view(m0));
}

/// Appends one action to `actions`.
pub fn push_action(actions: &mut Vec<Action>, a: Action)
    ensures
        actions_view(final(actions)@) == actions_view(old(actions)@).push(a@),
{
    let ghost a0 = actions@;
    let ghost v = a@;
    actions.push(a);
    assert(actions_view(actions@) =~= actions_view(a0).push(v));
}

} // verus!
