use game_plugin::menu::controller::MenuController;
use game_plugin::menu::error::{transition_outcome, HostReply, MenuError, Rejection};
use game_plugin::menu::state::{ButtonRole, GameState, Interaction, Screen, VisualStyle};

#[test]
fn new_controller_is_empty() {
    let menu = MenuController::new();
    assert_eq!(menu.screen(), None);
    assert_eq!(menu.widget_count(), 0);
    assert!(menu.widgets().is_empty());
    assert_eq!(menu.widget(0), None);
}

#[test]
fn enter_twice_is_reported_and_changes_nothing() {
    let mut menu = MenuController::new();
    assert_eq!(menu.enter_main_menu(true), Ok(()));
    menu.on_button_interaction(ButtonRole::Play, Interaction::Hovered);
    let before = menu.widgets();
    assert_eq!(menu.enter_main_menu(true), Err(MenuError::DoubleEnter(Screen::MainMenu)));
    assert_eq!(menu.enter_options_menu(true), Err(MenuError::DoubleEnter(Screen::OptionsMenu)));
    assert_eq!(menu.widgets(), before);
    assert_eq!(menu.screen(), Some(Screen::MainMenu));
    assert_eq!(menu.style_of(ButtonRole::Play), Some(VisualStyle::Hovered));
}

#[test]
fn missing_font_fails_the_enter_and_builds_nothing() {
    let mut menu = MenuController::new();
    assert_eq!(menu.enter_main_menu(false), Err(MenuError::MissingResource));
    assert_eq!(menu.screen(), None);
    assert_eq!(menu.widget_count(), 0);
    assert_eq!(menu.enter_options_menu(false), Err(MenuError::MissingResource));
    assert_eq!(menu.widget_count(), 0);
    assert_eq!(menu.enter_options_menu(true), Ok(()));
}

#[test]
fn alive_screen_is_reported_before_missing_font() {
    let mut menu = MenuController::new();
    assert_eq!(menu.enter(Screen::OptionsMenu, true), Ok(()));
    assert_eq!(menu.enter(Screen::MainMenu, false), Err(MenuError::DoubleEnter(Screen::MainMenu)));
}

#[test]
fn exit_of_absent_screen_is_reported_and_changes_nothing() {
    let mut menu = MenuController::new();
    assert_eq!(menu.exit_main_menu(), Err(MenuError::DoubleExit(Screen::MainMenu)));
    assert_eq!(menu.exit_options_menu(), Err(MenuError::DoubleExit(Screen::OptionsMenu)));
    assert_eq!(menu.enter_main_menu(true), Ok(()));
    assert_eq!(menu.exit_options_menu(), Err(MenuError::DoubleExit(Screen::OptionsMenu)));
    assert_eq!(menu.widget_count(), 5);
    assert_eq!(menu.exit_main_menu(), Ok(()));
    assert_eq!(menu.exit_main_menu(), Err(MenuError::DoubleExit(Screen::MainMenu)));
    assert_eq!(menu.widget_count(), 0);
}

#[test]
fn refused_transition_is_reported_with_target_and_reason() {
    assert_eq!(transition_outcome(GameState::Playing, HostReply::Accepted), Ok(()));
    for reason in [Rejection::AlreadyInState, Rejection::AlreadyQueued, Rejection::StackEmpty] {
        for target in [GameState::Menu, GameState::Options, GameState::Playing] {
            assert_eq!(
                transition_outcome(target, HostReply::Rejected(reason)),
                Err(MenuError::InvalidTransition { target, reason })
            );
        }
    }
}

#[test]
fn states_and_their_screens() {
    assert_eq!(GameState::Menu.screen(), Some(Screen::MainMenu));
    assert_eq!(GameState::Options.screen(), Some(Screen::OptionsMenu));
    assert_eq!(GameState::Playing.screen(), None);
    assert_eq!(Screen::MainMenu.owner(), GameState::Menu);
    assert_eq!(Screen::OptionsMenu.owner(), GameState::Options);
    assert_eq!(ButtonRole::Play.screen(), Screen::MainMenu);
    assert_eq!(ButtonRole::Options.screen(), Screen::MainMenu);
    assert_eq!(ButtonRole::Back.screen(), Screen::OptionsMenu);
}
