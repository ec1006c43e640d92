use game_plugin::menu::controller::MenuController;
use game_plugin::menu::error::{transition_outcome, HostReply};
use game_plugin::menu::state::{ButtonRole, GameState, Interaction, Screen, Snapshot, VisualStyle};
use game_plugin::menu::widget::{Label, Widget};

fn count_buttons(menu: &MenuController) -> usize {
    menu.widgets().iter().filter(|node| matches!(node.widget, Widget::Button { .. })).count()
}

#[test]
fn menu_to_options_and_back() {
    let mut state = GameState::Menu;
    let mut menu = MenuController::new();

    assert_eq!(menu.enter_main_menu(true), Ok(()));
    assert_eq!(menu.screen(), Some(Screen::MainMenu));
    assert_eq!(count_buttons(&menu), 2);

    let hovered = vec![Snapshot { role: ButtonRole::Options, interaction: Interaction::Hovered }];
    assert_eq!(menu.on_frame(&hovered), None);
    assert_eq!(menu.style_of(ButtonRole::Options), Some(VisualStyle::Hovered));
    assert_eq!(menu.style_of(ButtonRole::Play), Some(VisualStyle::Normal));

    let before = menu.widgets();
    let clicked = vec![Snapshot { role: ButtonRole::Options, interaction: Interaction::Clicked }];
    let request = menu.on_frame(&clicked);
    assert_eq!(request, Some(GameState::Options));
    assert_eq!(menu.widgets(), before);
    assert_eq!(menu.style_of(ButtonRole::Options), Some(VisualStyle::Hovered));
    assert_eq!(transition_outcome(GameState::Options, HostReply::Accepted), Ok(()));
    state = request.unwrap_or(state);

    assert_eq!(menu.exit_main_menu(), Ok(()));
    assert_eq!(menu.widget_count(), 0);
    assert_eq!(menu.screen(), None);

    assert_eq!(state, GameState::Options);
    assert_eq!(menu.enter_options_menu(true), Ok(()));
    assert_eq!(menu.screen(), Some(Screen::OptionsMenu));
    assert_eq!(count_buttons(&menu), 1);
    assert_eq!(menu.widget(1).map(|node| node.widget), Some(Widget::Text { label: Label::OptionsTitle }));
    assert_eq!(
        menu.widget(2).map(|node| node.widget),
        Some(Widget::Button { role: ButtonRole::Back, style: VisualStyle::Normal })
    );

    let request = menu.on_button_interaction(ButtonRole::Back, Interaction::Clicked);
    assert_eq!(request, Some(GameState::Menu));
    state = request.unwrap_or(state);

    assert_eq!(menu.exit_options_menu(), Ok(()));
    assert_eq!(menu.widget_count(), 0);
    assert_eq!(state, GameState::Menu);
}

#[test]
fn exit_after_any_frames_leaves_no_widget() {
    let all = [Interaction::Clicked, Interaction::Hovered, Interaction::Idle];
    let roles = [ButtonRole::Play, ButtonRole::Options, ButtonRole::Back];
    for screen in [Screen::MainMenu, Screen::OptionsMenu] {
        for frames in 0..4usize {
            let mut menu = MenuController::new();
            assert_eq!(menu.enter(screen, true), Ok(()));
            assert!(menu.widget_count() > 0);
            for frame in 0..frames {
                let mut snapshots = Vec::new();
                for (at, role) in roles.iter().enumerate() {
                    snapshots.push(Snapshot { role: *role, interaction: all[(at + frame) % 3] });
                }
                menu.on_frame(&snapshots);
            }
            assert_eq!(menu.exit(screen), Ok(()));
            assert_eq!(menu.widget_count(), 0);
            assert_eq!(menu.screen(), None);
            assert!(menu.widgets().is_empty());
        }
    }
}

#[test]
fn screens_can_be_entered_again_after_exit() {
    let mut menu = MenuController::new();
    for _ in 0..3 {
        assert_eq!(menu.enter_main_menu(true), Ok(()));
        assert_eq!(menu.widget_count(), 5);
        assert_eq!(menu.exit_main_menu(), Ok(()));
        assert_eq!(menu.enter_options_menu(true), Ok(()));
        assert_eq!(menu.widget_count(), 4);
        assert_eq!(menu.exit_options_menu(), Ok(()));
        assert_eq!(menu.widget_count(), 0);
    }
}
