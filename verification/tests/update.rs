use game_plugin::menu::controller::MenuController;
use game_plugin::menu::error::{HostReply, MenuError, Rejection};
use game_plugin::menu::state::{ButtonRole, GameState, Interaction, Snapshot, VisualStyle};

fn main_menu() -> MenuController {
    let mut menu = MenuController::new();
    assert_eq!(menu.enter_main_menu(true), Ok(()));
    menu
}

#[test]
fn update_asks_the_host_once_for_the_clicked_state() {
    let mut menu = main_menu();
    let mut asked: Vec<GameState> = Vec::new();
    let frame = vec![
        Snapshot { role: ButtonRole::Options, interaction: Interaction::Hovered },
        Snapshot { role: ButtonRole::Play, interaction: Interaction::Clicked },
    ];
    let result = menu.update(&frame, |target| {
        asked.push(target);
        HostReply::Accepted
    });
    assert_eq!(result, Ok(Some(GameState::Playing)));
    assert_eq!(asked, vec![GameState::Playing]);
    assert_eq!(menu.style_of(ButtonRole::Options), Some(VisualStyle::Hovered));
    assert_eq!(menu.style_of(ButtonRole::Play), Some(VisualStyle::Normal));
}

#[test]
fn update_without_a_click_does_not_ask() {
    let mut menu = main_menu();
    let mut asked = 0;
    let frame = vec![
        Snapshot { role: ButtonRole::Play, interaction: Interaction::Hovered },
        Snapshot { role: ButtonRole::Back, interaction: Interaction::Clicked },
    ];
    let result = menu.update(&frame, |_| {
        asked += 1;
        HostReply::Accepted
    });
    assert_eq!(result, Ok(None));
    assert_eq!(asked, 0);
    assert_eq!(menu.style_of(ButtonRole::Play), Some(VisualStyle::Hovered));
}

#[test]
fn update_reports_each_refusal_and_still_gives_the_looks() {
    for reason in [Rejection::AlreadyInState, Rejection::AlreadyQueued, Rejection::StackEmpty] {
        let mut menu = main_menu();
        let frame = vec![
            Snapshot { role: ButtonRole::Options, interaction: Interaction::Clicked },
            Snapshot { role: ButtonRole::Play, interaction: Interaction::Hovered },
        ];
        let result = menu.update(&frame, |_| HostReply::Rejected(reason));
        assert_eq!(result, Err(MenuError::InvalidTransition { target: GameState::Options, reason }));
        assert_eq!(menu.style_of(ButtonRole::Play), Some(VisualStyle::Hovered));
        assert_eq!(menu.widget_count(), 5);
    }
}

#[test]
fn update_asks_only_for_the_first_of_two_clicks() {
    let mut menu = main_menu();
    let mut asked: Vec<GameState> = Vec::new();
    let frame = vec![
        Snapshot { role: ButtonRole::Options, interaction: Interaction::Clicked },
        Snapshot { role: ButtonRole::Play, interaction: Interaction::Clicked },
    ];
    let result = menu.update(&frame, |target| {
        asked.push(target);
        HostReply::Accepted
    });
    assert_eq!(result, Ok(Some(GameState::Options)));
    assert_eq!(asked, vec![GameState::Options]);
}
