//! What a screen is made of: a tree of containers, buttons and texts, held as
//! plain values that the engine's widget builder turns into nodes.

use crate::menu::state::ButtonRole;
use crate::menu::state::Screen;
use crate::menu::state::VisualStyle;
use vstd::prelude::*;

verus! {

/// The height of every button, in pixels.
pub const BUTTON_HEIGHT: u32 = 50;

/// The margin on each side of every button, in pixels.
pub const BUTTON_MARGIN: u32 = 10;

/// The size of every text, in pixels.
pub const FONT_SIZE: u32 = 40;

/// The grey of every text, in hundredths of white.
pub const TEXT_SHADE: u8 = 90;

/// A length of the layout.
#[derive(Clone, Copy, Debug, PartialEq, Eq, Hash, Structural)]
pub enum Length {
    /// Left to the engine.
    Unset,
    /// In pixels.
    Px(u32),
    /// In hundredths of the parent's length.
    Percent(u32),
}

/// Where a node stands and how it places its children.
#[derive(Clone, Copy, Debug, PartialEq, Eq, Hash, Structural)]
pub struct BoxStyle {
    pub width: Length,
    pub height: Length,
    /// The margin on each of the four sides.
    pub margin: Length,
    /// Whether the children are centred on both axes.
    pub centered: bool,
    /// Whether the children are stacked in a column, the first at the bottom.
    pub column_reverse: bool,
}

/// The texts that the menu shows.
#[derive(Clone, Copy, Debug, PartialEq, Eq, Hash, Structural)]
pub enum Label {
    Play,
    Options,
    Back,
    OptionsTitle,
}

/// A node of the interface.
#[derive(Clone, Copy, Debug, PartialEq, Eq, Hash, Structural)]
pub enum Widget {
    /// A transparent box that fills its parent.
    Container,
    /// A button with its role and its present look.
    Button { role: ButtonRole, style: VisualStyle },
    /// A line of text in the default font.
    Text { label: Label },
}

/// A widget and its place in the tree.
#[derive(Clone, Copy, Debug, PartialEq, Eq, Hash, Structural)]
pub struct Node {
    pub widget: Widget,
    /// The index of the parent among the screen's nodes; `None` for the root.
    pub parent: Option<usize>,
}

impl VisualStyle {
    /// The grey of a button with this look, in hundredths of white.
    pub open spec fn spec_shade(self) -> u8 {
        match self {
            VisualStyle::Normal => 15,
            VisualStyle::Hovered => 25,
        }
    }

    /// The grey of a button with this look, in hundredths of white.
    #[verifier::when_used_as_spec(spec_shade)]
    pub fn shade(self) -> (shade: u8)
        ensures
            shade == self.spec_shade(),
    {
        match self {
            VisualStyle::Normal => 15,
            VisualStyle::Hovered => 25,
        }
    }
}

impl ButtonRole {
    /// The width of the button of this role, in pixels.
    pub open spec fn spec_width(self) -> u32 {
        match self {
            ButtonRole::Play => 120,
            ButtonRole::Options => 140,
            ButtonRole::Back => 100,
        }
    }

    /// The width of the button of this role, in pixels.
    #[verifier::when_used_as_spec(spec_width)]
    pub fn width(self) -> (width: u32)
        ensures
            width == self.spec_width(),
    {
        match self {
            ButtonRole::Play => 120,
            ButtonRole::Options => 140,
            ButtonRole::Back => 100,
        }
    }

    /// Where the button of this role stands among the nodes of its screen.
    pub open spec fn spec_place(self) -> usize {
        match self {
            ButtonRole::Play => 1,
            ButtonRole::Options => 3,
            ButtonRole::Back => 2,
        }
    }

    /// Where the button of this role stands among the nodes of its screen.
    #[verifier::when_used_as_spec(spec_place)]
    pub fn place(self) -> (place: usize)
        ensures
            place == self.spec_place(),
            place < self.spec_screen().layout().len(),
            self.spec_screen().layout()[place as int] == button_node(self, 0),
    {
        match self {
            ButtonRole::Play => 1,
            ButtonRole::Options => 3,
            ButtonRole::Back => 2,
        }
    }

    /// The text on the button of this role.
    pub open spec fn spec_label(self) -> Label {
        match self {
            ButtonRole::Play => Label::Play,
            ButtonRole::Options => Label::Options,
            ButtonRole::Back => Label::Back,
        }
    }

    /// The text on the button of this role.
    #[verifier::when_used_as_spec(spec_label)]
    pub fn label(self) -> (label: Label)
        ensures
            label == self.spec_label(),
    {
        match self {
            ButtonRole::Play => Label::Play,
            ButtonRole::Options => Label::Options,
            ButtonRole::Back => Label::Back,
        }
    }
}

impl Label {
    /// The characters of the text.
    pub open spec fn spec_text(self) -> Seq<char> {
        match self {
            Label::Play => "Play"@,
            Label::Options => "Options"@,
            Label::Back => "Back"@,
            Label::OptionsTitle => "This is Options"@,
        }
    }

    /// The text as the engine is to show it.
    pub fn text(self) -> (text: &'static str)
        ensures
            text@ == self.spec_text(),
    {
        match self {
            Label::Play => "Play",
            Label::Options => "Options",
            Label::Back => "Back",
            Label::OptionsTitle => "This is Options",
        }
    }
}

impl Widget {
    /// The box of the widget: a container fills its parent and stacks its
    /// children, centred, from the bottom; a button has its role's width and
    /// centres its text; a text is left to the engine.
    pub open spec fn spec_box_style(self) -> BoxStyle {
        match self {
            Widget::Container => BoxStyle {
                width: Length::Percent(100),
                height: Length::Percent(100),
                margin: Length::Unset,
                centered: true,
                column_reverse: true,
            },
            Widget::Button { role, style } => BoxStyle {
                width: Length::Px(role.spec_width()),
                height: Length::Px(BUTTON_HEIGHT),
                margin: Length::Px(BUTTON_MARGIN),
                centered: true,
                column_reverse: false,
            },
            Widget::Text { label } => BoxStyle {
                width: Length::Unset,
                height: Length::Unset,
                margin: Length::Unset,
                centered: false,
                column_reverse: false,
            },
        }
    }

    /// The box of the widget.
    #[verifier::when_used_as_spec(spec_box_style)]
    pub fn box_style(self) -> (style: BoxStyle)
        ensures
            style == self.spec_box_style(),
    {
        match self {
            Widget::Container => BoxStyle {
                width: Length::Percent(100),
                height: Length::Percent(100),
                margin: Length::Unset,
                centered: true,
                column_reverse: true,
            },
            Widget::Button { role, style: _ } => BoxStyle {
                width: Length::Px(role.width()),
                height: Length::Px(BUTTON_HEIGHT),
                margin: Length::Px(BUTTON_MARGIN),
                centered: true,
                column_reverse: false,
            },
            Widget::Text { label: _ } => BoxStyle {
                width: Length::Unset,
                height: Length::Unset,
                margin: Length::Unset,
                centered: false,
                column_reverse: false,
            },
        }
    }

    /// The widget with the look `style`, if it is the button of `role`;
    /// the widget itself, if it is anything else.
    pub open spec fn restyled(self, role: ButtonRole, style: VisualStyle) -> Widget {
        match self {
            Widget::Button { role: own, style: _ } if own == role => Widget::Button { role, style },
            _ => self,
        }
    }

    /// Whether two widgets differ at most in the look of a button.
    pub open spec fn same_but_style(self, other: Widget) -> bool {
        match (self, other) {
            (Widget::Button { role: a, style: _ }, Widget::Button { role: b, style: _ }) => a == b,
            _ => self == other,
        }
    }
}

impl Node {
    /// The node with its widget restyled.
    pub open spec fn restyled(self, role: ButtonRole, style: VisualStyle) -> Node {
        Node { widget: self.widget.restyled(role, style), parent: self.parent }
    }

    /// Whether two nodes differ at most in the look of a button.
    pub open spec fn same_but_style(self, other: Node) -> bool {
        self.parent == other.parent && self.widget.same_but_style(other.widget)
    }
}

/// A button in its normal look, under the node at `parent`.
pub open spec fn button_node(role: ButtonRole, parent: usize) -> Node {
    Node { widget: Widget::Button { role, style: VisualStyle::Normal }, parent: Some(parent) }
}

/// A text under the node at `parent`.
pub open spec fn text_node(label: Label, parent: usize) -> Node {
    Node { widget: Widget::Text { label }, parent: Some(parent) }
}

/// The root of a screen.
pub open spec fn root_node() -> Node {
    Node { widget: Widget::Container, parent: None }
}

impl Screen {
    /// The nodes of the screen as it is built, each after its parent: the
    /// main menu is a root with the Play and the Options button, the options
    /// menu a root with a title and the Back button; every button holds its text.
    pub open spec fn layout(self) -> Seq<Node> {
        match self {
            Screen::MainMenu => seq![
                root_node(),
                button_node(ButtonRole::Play, 0),
                text_node(Label::Play, 1),
                button_node(ButtonRole::Options, 0),
                text_node(Label::Options, 3),
            ],
            Screen::OptionsMenu => seq![
                root_node(),
                text_node(Label::OptionsTitle, 0),
                button_node(ButtonRole::Back, 0),
                text_node(Label::Back, 2),
            ],
        }
    }

    /// Builds the nodes of the screen.
    pub fn build(self) -> (nodes: Vec<Node>)
        ensures
            nodes@ == self.layout(),
    {
        let mut nodes: Vec<Node> = Vec::new();
        nodes.push(Node { widget: Widget::Container, parent: None });
        match self {
            Screen::MainMenu => {
                push_button(&mut nodes, ButtonRole::Play);
                push_button(&mut nodes, ButtonRole::Options);
            },
            Screen::OptionsMenu => {
                nodes.push(Node { widget: Widget::Text { label: Label::OptionsTitle }, parent: Some(0) });
                push_button(&mut nodes, ButtonRole::Back);
            },
        }
        nodes
    }
}

/// Adds the button of `role` under the root, and its text under the button.
fn push_button(nodes: &mut Vec<Node>, role: ButtonRole)
    requires
        0 < old(nodes).len() < usize::MAX - 1,
    ensures
        final(nodes)@ == old(nodes)@.push(button_node(role, 0)).push(
            text_node(role.spec_label(), old(nodes)@.len() as usize),
        ),
{
    let at: usize = nodes.len();
    nodes.push(Node { widget: Widget::Button { role, style: VisualStyle::Normal }, parent: Some(0) });
    nodes.push(Node { widget: Widget::Text { label: role.label() }, parent: Some(at) });
}

} // verus!
