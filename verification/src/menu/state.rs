//! The closed enumerations that the menu speaks in.

use vstd::prelude::*;

verus! {

/// The global mode of the game. The host owns it; the menu only asks for changes.
#[derive(Clone, Copy, Debug, PartialEq, Eq, Hash, Structural)]
pub enum GameState {
    Menu,
    Options,
    Playing,
}

/// A menu page. It is alive exactly while the state that owns it is active.
#[derive(Clone, Copy, Debug, PartialEq, Eq, Hash, Structural)]
pub enum Screen {
    MainMenu,
    OptionsMenu,
}

/// What a button is for.
#[derive(Clone, Copy, Debug, PartialEq, Eq, Hash, Structural)]
pub enum ButtonRole {
    Play,
    Options,
    Back,
}

/// How the pointer stands to a button in one frame.
#[derive(Clone, Copy, Debug, PartialEq, Eq, Hash, Structural)]
pub enum Interaction {
    /// The pointer is pressed on the button.
    Clicked,
    /// The pointer is over the button.
    Hovered,
    /// The pointer is elsewhere.
    Idle,
}

/// The look of a button.
#[derive(Clone, Copy, Debug, PartialEq, Eq, Hash, Structural)]
pub enum VisualStyle {
    Normal,
    Hovered,
}

/// One button's interaction in one frame.
#[derive(Clone, Copy, Debug, PartialEq, Eq, Hash, Structural)]
pub struct Snapshot {
    pub role: ButtonRole,
    pub interaction: Interaction,
}

impl GameState {
    /// The screen that is alive while this state is active, if it has one.
    pub open spec fn spec_screen(self) -> Option<Screen> {
        match self {
            GameState::Menu => Some(Screen::MainMenu),
            GameState::Options => Some(Screen::OptionsMenu),
            GameState::Playing => None,
        }
    }

    /// The screen that is alive while this state is active, if it has one.
    #[verifier::when_used_as_spec(spec_screen)]
    pub fn screen(self) -> (screen: Option<Screen>)
        ensures
            screen == self.spec_screen(),
    {
        match self {
            GameState::Menu => Some(Screen::MainMenu),
            GameState::Options => Some(Screen::OptionsMenu),
            GameState::Playing => None,
        }
    }
}

impl Screen {
    /// The state that owns this screen.
    pub open spec fn spec_owner(self) -> GameState {
        match self {
            Screen::MainMenu => GameState::Menu,
            Screen::OptionsMenu => GameState::Options,
        }
    }

    /// The state that owns this screen.
    #[verifier::when_used_as_spec(spec_owner)]
    pub fn owner(self) -> (state: GameState)
        ensures
            state == self.spec_owner(),
    {
        match self {
            Screen::MainMenu => GameState::Menu,
            Screen::OptionsMenu => GameState::Options,
        }
    }
}

impl ButtonRole {
    /// The state that a click on a button of this role asks for.
    pub open spec fn spec_target(self) -> GameState {
        match self {
            ButtonRole::Play => GameState::Playing,
            ButtonRole::Options => GameState::Options,
            ButtonRole::Back => GameState::Menu,
        }
    }

    /// The state that a click on a button of this role asks for.
    #[verifier::when_used_as_spec(spec_target)]
    pub fn target(self) -> (state: GameState)
        ensures
            state == self.spec_target(),
    {
        match self {
            ButtonRole::Play => GameState::Playing,
            ButtonRole::Options => GameState::Options,
            ButtonRole::Back => GameState::Menu,
        }
    }

    /// The screen on which the button of this role stands.
    pub open spec fn spec_screen(self) -> Screen {
        match self {
            ButtonRole::Play => Screen::MainMenu,
            ButtonRole::Options => Screen::MainMenu,
            ButtonRole::Back => Screen::OptionsMenu,
        }
    }

    /// The screen on which the button of this role stands.
    #[verifier::when_used_as_spec(spec_screen)]
    pub fn screen(self) -> (screen: Screen)
        ensures
            screen == self.spec_screen(),
    {
        match self {
            ButtonRole::Play => Screen::MainMenu,
            ButtonRole::Options => Screen::MainMenu,
            ButtonRole::Back => Screen::OptionsMenu,
        }
    }
}

impl Interaction {
    /// The look that a button takes under this interaction. A click changes
    /// nothing: the request it makes comes before the feedback.
    pub open spec fn spec_feedback(self) -> Option<VisualStyle> {
        match self {
            Interaction::Clicked => None,
            Interaction::Hovered => Some(VisualStyle::Hovered),
            Interaction::Idle => Some(VisualStyle::Normal),
        }
    }

    /// The look that a button takes under this interaction, if it takes one.
    #[verifier::when_used_as_spec(spec_feedback)]
    pub fn feedback(self) -> (style: Option<VisualStyle>)
        ensures
            style == self.spec_feedback(),
    {
        match self {
            Interaction::Clicked => None,
            Interaction::Hovered => Some(VisualStyle::Hovered),
            Interaction::Idle => Some(VisualStyle::Normal),
        }
    }
}

} // verus!
