use game_plugin::menu::controller::MenuController;
use game_plugin::menu::state::{ButtonRole, Screen, VisualStyle};
use game_plugin::menu::widget::{
    BoxStyle, Label, Length, Node, Widget, BUTTON_HEIGHT, BUTTON_MARGIN, FONT_SIZE, TEXT_SHADE,
};

fn button(role: ButtonRole, parent: usize) -> Node {
    Node { widget: Widget::Button { role, style: VisualStyle::Normal }, parent: Some(parent) }
}

fn text(label: Label, parent: usize) -> Node {
    Node { widget: Widget::Text { label }, parent: Some(parent) }
}

#[test]
fn main_menu_is_a_root_with_play_and_options() {
    let expected = vec![
        Node { widget: Widget::Container, parent: None },
        button(ButtonRole::Play, 0),
        text(Label::Play, 1),
        button(ButtonRole::Options, 0),
        text(Label::Options, 3),
    ];
    assert_eq!(Screen::MainMenu.build(), expected);
    let mut menu = MenuController::new();
    assert_eq!(menu.enter_main_menu(true), Ok(()));
    assert_eq!(menu.widgets(), expected);
    assert_eq!(menu.widget_count(), 5);
    assert_eq!(menu.widget(3), Some(button(ButtonRole::Options, 0)));
    assert_eq!(menu.widget(5), None);
}

#[test]
fn options_menu_is_a_root_with_one_title_and_one_back_button() {
    let expected = vec![
        Node { widget: Widget::Container, parent: None },
        text(Label::OptionsTitle, 0),
        button(ButtonRole::Back, 0),
        text(Label::Back, 2),
    ];
    assert_eq!(Screen::OptionsMenu.build(), expected);
    let mut menu = MenuController::new();
    assert_eq!(menu.enter_options_menu(true), Ok(()));
    let nodes = menu.widgets();
    assert_eq!(nodes, expected);
    let titles = nodes.iter().filter(|n| n.widget == Widget::Text { label: Label::OptionsTitle }).count();
    let buttons = nodes.iter().filter(|n| matches!(n.widget, Widget::Button { .. })).count();
    assert_eq!(titles, 1);
    assert_eq!(buttons, 1);
}

#[test]
fn every_node_comes_after_its_parent() {
    for screen in [Screen::MainMenu, Screen::OptionsMenu] {
        let nodes = screen.build();
        assert_eq!(nodes[0].parent, None);
        for (at, node) in nodes.iter().enumerate().skip(1) {
            assert!(node.parent.unwrap() < at);
        }
    }
}

#[test]
fn label_texts() {
    assert_eq!(Label::Play.text(), "Play");
    assert_eq!(Label::Options.text(), "Options");
    assert_eq!(Label::Back.text(), "Back");
    assert_eq!(Label::OptionsTitle.text(), "This is Options");
    assert_eq!(ButtonRole::Play.label(), Label::Play);
    assert_eq!(ButtonRole::Options.label(), Label::Options);
    assert_eq!(ButtonRole::Back.label(), Label::Back);
}

#[test]
fn measures() {
    assert_eq!(ButtonRole::Play.width(), 120);
    assert_eq!(ButtonRole::Options.width(), 140);
    assert_eq!(ButtonRole::Back.width(), 100);
    assert_eq!(BUTTON_HEIGHT, 50);
    assert_eq!(BUTTON_MARGIN, 10);
    assert_eq!(FONT_SIZE, 40);
    assert_eq!(TEXT_SHADE, 90);
    assert_eq!(VisualStyle::Normal.shade(), 15);
    assert_eq!(VisualStyle::Hovered.shade(), 25);
}

#[test]
fn boxes_by_kind_of_widget() {
    assert_eq!(
        Widget::Container.box_style(),
        BoxStyle {
            width: Length::Percent(100),
            height: Length::Percent(100),
            margin: Length::Unset,
            centered: true,
            column_reverse: true,
        }
    );
    for (role, width) in [(ButtonRole::Play, 120), (ButtonRole::Options, 140), (ButtonRole::Back, 100)] {
        for style in [VisualStyle::Normal, VisualStyle::Hovered] {
            assert_eq!(
                Widget::Button { role, style }.box_style(),
                BoxStyle {
                    width: Length::Px(width),
                    height: Length::Px(50),
                    margin: Length::Px(10),
                    centered: true,
                    column_reverse: false,
                }
            );
        }
    }
    assert_eq!(
        Widget::Text { label: Label::OptionsTitle }.box_style(),
        BoxStyle {
            width: Length::Unset,
            height: Length::Unset,
            margin: Length::Unset,
            centered: false,
            column_reverse: false,
        }
    );
}
