//! The physical panel as a four-state device. The coordinator issues the
//! commands; an outside driver performs them and must wait the settle
//! delay after each one before the next is issued.

use vstd::prelude::*;

verus! {

/// Power and refresh state of the e-paper controller.
#[derive(Clone, Copy, Debug, PartialEq, Eq, Structural)]
pub enum PanelState {
    Sleeping,
    Awake,
    Cleared,
    Displaying,
}

/// The blocking calls the coordinator can issue to the panel driver.
#[derive(Clone, Copy, Debug, PartialEq, Eq, Structural)]
pub enum PanelCommand {
    Wake,
    Clear,
    PushFrame,
    Sleep,
}

/// The device's transition relation; a command outside it is a driver
/// protocol violation and has no defined next state.
pub open spec fn next_state(s: PanelState, c: PanelCommand) -> Option<PanelState> {
    match (s, c) {
        (PanelState::Sleeping, PanelCommand::Wake) => Some(PanelState::Awake),
        (PanelState::Awake, PanelCommand::Clear) => Some(PanelState::Cleared),
        (PanelState::Cleared, PanelCommand::PushFrame) => Some(PanelState::Displaying),
        (PanelState::Displaying, PanelCommand::Sleep) => Some(PanelState::Sleeping),
        _ => None,
    }
}

/// Steps the panel model by one command; `None` marks a command the
/// device would not accept in its current state.
pub fn apply_command(s: PanelState, c: PanelCommand) -> (r: Option<PanelState>)
    ensures
        r == next_state(s, c),
{
    match (s, c) {
        (PanelState::Sleeping, PanelCommand::Wake) => Some(PanelState::Awake),
        (PanelState::Awake, PanelCommand::Clear) => Some(PanelState::Cleared),
        (PanelState::Cleared, PanelCommand::PushFrame) => Some(PanelState::Displaying),
        (PanelState::Displaying, PanelCommand::Sleep) => Some(PanelState::Sleeping),
        _ => None,
    }
}

/// The states visited while running a command sequence from `s`; `None`
/// as soon as one command is not accepted.
pub open spec fn trace(s: PanelState, cmds: Seq<PanelCommand>) -> Option<Seq<PanelState>>
    decreases cmds.len(),
{
    if cmds.len() == 0 {
        Some(Seq::empty())
    } else {
        match next_state(s, cmds[0]) {
            None => None,
            Some(s2) => match trace(s2, cmds.drop_first()) {
                None => None,
                Some(rest) => Some(seq![s2] + rest),
            },
        }
    }
}

/// The one command sequence a successful refresh cycle issues.
pub open spec fn cycle_commands() -> Seq<PanelCommand> {
    seq![PanelCommand::Wake, PanelCommand::Clear, PanelCommand::PushFrame, PanelCommand::Sleep]
}

/// Law: from `Sleeping` the cycle's command sequence is accepted in full
/// and visits Awake, Cleared, Displaying and Sleeping exactly once each,
/// in that order, with no command repeated.
pub proof fn lemma_cycle_visits_each_state_once()
    ensures
        trace(PanelState::Sleeping, cycle_commands()) == Some(
            seq![PanelState::Awake, PanelState::Cleared, PanelState::Displaying, PanelState::Sleeping],
        ),
        cycle_commands().no_duplicates(),
{
    reveal_with_fuel(trace, 6);
    let c = cycle_commands();
    let c1 = c.drop_first();
    let c2 = c1.drop_first();
    let c3 = c2.drop_first();
    let c4 = c3.drop_first();
    assert(c4.len() == 0);
    assert(trace(PanelState::Sleeping, c4) == Some(Seq::<PanelState>::empty()));
    assert(c3[0] == PanelCommand::Sleep && c3.len() == 1);
    assert(trace(PanelState::Displaying, c3) == Some(seq![PanelState::Sleeping] + Seq::<
        PanelState,
    >::empty()));
    assert(c2[0] == PanelCommand::PushFrame && c2.len() == 2);
    assert(trace(PanelState::Cleared, c2) == Some(seq![PanelState::Displaying] + (seq![
        PanelState::Sleeping,
    ] + Seq::<PanelState>::empty())));
    assert(c1[0] == PanelCommand::Clear && c1.len() == 3);
    assert(trace(PanelState::Awake, c1) == Some(seq![PanelState::Cleared] + (seq![
        PanelState::Displaying,
    ] + (seq![PanelState::Sleeping] + Seq::<PanelState>::empty()))));
    assert(c[0] == PanelCommand::Wake && c.len() == 4);
    assert(trace(PanelState::Sleeping, c) == Some(seq![PanelState::Awake] + (seq![
        PanelState::Cleared,
    ] + (seq![PanelState::Displaying] + (seq![PanelState::Sleeping] + Seq::<
        PanelState,
    >::empty())))));
    assert(seq![PanelState::Awake] + (seq![PanelState::Cleared] + (seq![PanelState::Displaying]
        + (seq![PanelState::Sleeping] + Seq::<PanelState>::empty()))) =~= seq![
        PanelState::Awake,
        PanelState::Cleared,
        PanelState::Displaying,
        PanelState::Sleeping,
    ]);
    assert(c.no_duplicates()) by {
        assert(c[0] == PanelCommand::Wake && c[1] == PanelCommand::Clear && c[2]
            == PanelCommand::PushFrame && c[3] == PanelCommand::Sleep);
    }
}

} // verus!
