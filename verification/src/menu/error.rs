//! What the menu reports instead of going on with a broken screen.

use crate::menu::state::GameState;
use crate::menu::state::Screen;
use vstd::prelude::*;

verus! {

/// Why the host refused a change of state.
#[derive(Clone, Copy, Debug, PartialEq, Eq, Hash, Structural)]
pub enum Rejection {
    /// The state asked for is the active one.
    AlreadyInState,
    /// Another change is scheduled or under way.
    AlreadyQueued,
    /// The host has no state to go back to.
    StackEmpty,
}

/// What the host answered to a request for a change of state.
#[derive(Clone, Copy, Debug, PartialEq, Eq, Hash, Structural)]
pub enum HostReply {
    Accepted,
    Rejected(Rejection),
}

/// A failure of one of the menu's operations.
#[derive(Clone, Copy, Debug, PartialEq, Eq, Hash, Structural)]
pub enum MenuError {
    /// The host refused the change to `target`.
    InvalidTransition { target: GameState, reason: Rejection },
    /// The font was not there when a screen was to be built.
    MissingResource,
    /// The screen was to be built while a screen was alive.
    DoubleEnter(Screen),
    /// The screen was to be torn down while it was not alive.
    DoubleExit(Screen),
}

/// What a request for `target` comes to, once the host has answered.
pub open spec fn spec_transition_outcome(target: GameState, reply: HostReply) -> Result<(), MenuError> {
    match reply {
        HostReply::Accepted => Ok(()),
        HostReply::Rejected(reason) => Err(MenuError::InvalidTransition { target, reason }),
    }
}

/// Turns the host's answer to a request for `target` into the menu's result:
/// a refusal is reported, with the state asked for and the host's reason.
#[verifier::when_used_as_spec(spec_transition_outcome)]
pub fn transition_outcome(target: GameState, reply: HostReply) -> (outcome: Result<(), MenuError>)
    ensures
        outcome == spec_transition_outcome(target, reply),
{
    match reply {
        HostReply::Accepted => Ok(()),
        HostReply::Rejected(reason) => Err(MenuError::InvalidTransition { target, reason }),
    }
}

/// What a frame comes to that asked for `request`, where `reply` is what the
/// host answered: the state asked for, or the refusal; nothing where the
/// frame asked for nothing.
pub open spec fn frame_outcome(request: Option<GameState>, reply: HostReply) -> Result<
    Option<GameState>,
    MenuError,
> {
    match request {
        Some(target) => match spec_transition_outcome(target, reply) {
            Ok(()) => Ok(Some(target)),
            Err(error) => Err(error),
        },
        None => Ok(None),
    }
}

} // verus!
