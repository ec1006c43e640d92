//! The main menu and the options menu.
//!
//! The host runs a per-frame loop with an enter, an update and an exit phase
//! for each game state. [`MenuPlugin`] says which of the menu's operations
//! belongs in which of those slots; [`controller::MenuController`] holds the
//! operations themselves.

pub mod controller;
pub mod error;
pub mod laws;
pub mod model;
pub mod state;
pub mod widget;

use crate::menu::state::GameState;
use crate::menu::state::Screen;
use vstd::prelude::*;

verus! {

/// The phases of the host's loop in which a state's callbacks run.
#[derive(Clone, Copy, Debug, PartialEq, Eq, Hash, Structural)]
pub enum Phase {
    /// Once, when the state becomes active.
    Enter,
    /// Every frame while the state is active.
    Update,
    /// Once, when the state stops being active.
    Exit,
}

/// An operation of the menu that the host is to call.
#[derive(Clone, Copy, Debug, PartialEq, Eq, Hash, Structural)]
pub enum Hook {
    /// Build the screen.
    Setup(Screen),
    /// Take the frame's interactions of the screen's buttons.
    Interact(Screen),
    /// Tear the screen down.
    Close(Screen),
}

/// One callback slot: the hook that runs in a phase of a state.
#[derive(Clone, Copy, Debug, PartialEq, Eq, Hash, Structural)]
pub struct Registration {
    pub state: GameState,
    pub phase: Phase,
    pub hook: Hook,
}

/// The menu as the host sees it: a table of callbacks.
#[derive(Clone, Copy, Debug, PartialEq, Eq, Hash, Structural)]
pub struct MenuPlugin;

impl MenuPlugin {
    /// The hook that runs in `phase` of `state`: the state's screen is built
    /// on enter, takes interactions on update and is torn down on exit; a
    /// state without a screen has no hook.
    pub open spec fn spec_hook(state: GameState, phase: Phase) -> Option<Hook> {
        match state.spec_screen() {
            Some(screen) => Some(
                match phase {
                    Phase::Enter => Hook::Setup(screen),
                    Phase::Update => Hook::Interact(screen),
                    Phase::Exit => Hook::Close(screen),
                },
            ),
            None => None,
        }
    }

    /// The hook that runs in `phase` of `state`, if one does.
    #[verifier::when_used_as_spec(spec_hook)]
    pub fn hook(state: GameState, phase: Phase) -> (hook: Option<Hook>)
        ensures
            hook == Self::spec_hook(state, phase),
    {
        match state.screen() {
            Some(screen) => Some(
                match phase {
                    Phase::Enter => Hook::Setup(screen),
                    Phase::Update => Hook::Interact(screen),
                    Phase::Exit => Hook::Close(screen),
                },
            ),
            None => None,
        }
    }

    /// The slot of `phase` of the state that owns `screen`.
    pub open spec fn slot(screen: Screen, phase: Phase) -> Registration {
        Registration {
            state: screen.spec_owner(),
            phase,
            hook: Self::spec_hook(screen.spec_owner(), phase).unwrap(),
        }
    }

    /// The slots that the menu fills, in the order in which it registers
    /// them: enter, update and exit of the main menu, then of the options menu.
    pub open spec fn registrations() -> Seq<Registration> {
        seq![
            Self::slot(Screen::MainMenu, Phase::Enter),
            Self::slot(Screen::MainMenu, Phase::Update),
            Self::slot(Screen::MainMenu, Phase::Exit),
            Self::slot(Screen::OptionsMenu, Phase::Enter),
            Self::slot(Screen::OptionsMenu, Phase::Update),
            Self::slot(Screen::OptionsMenu, Phase::Exit),
        ]
    }

    /// The slots that the menu fills, for the host to register.
    pub fn build(&self) -> (slots: Vec<Registration>)
        ensures
            slots@ == Self::registrations(),
    {
        let mut slots: Vec<Registration> = Vec::new();
        push_slots(&mut slots, Screen::MainMenu);
        push_slots(&mut slots, Screen::OptionsMenu);
        slots
    }
}

/// Adds the three slots of `screen`.
fn push_slots(slots: &mut Vec<Registration>, screen: Screen)
    ensures
        final(slots)@ == old(slots)@.push(MenuPlugin::slot(screen, Phase::Enter)).push(
            MenuPlugin::slot(screen, Phase::Update),
        ).push(MenuPlugin::slot(screen, Phase::Exit)),
{
    let state = screen.owner();
    slots.push(Registration { state, phase: Phase::Enter, hook: Hook::Setup(screen) });
    slots.push(Registration { state, phase: Phase::Update, hook: Hook::Interact(screen) });
    slots.push(Registration { state, phase: Phase::Exit, hook: Hook::Close(screen) });
}

} // verus!
