//! The menu as a mathematical value: which screen is alive, and its nodes.
//! The controller's contracts and the laws are stated over this model.

use crate::menu::error::MenuError;
use crate::menu::state::ButtonRole;
use crate::menu::state::GameState;
use crate::menu::state::Interaction;
use crate::menu::state::Screen;
use crate::menu::state::Snapshot;
use crate::menu::state::VisualStyle;
use crate::menu::widget::Node;
use crate::menu::widget::Widget;
use vstd::prelude::*;

verus! {

/// The screen that is alive, if one is, and the nodes it owns.
pub struct MenuView {
    pub screen: Option<Screen>,
    pub nodes: Seq<Node>,
}


impl MenuView {
    /// The menu with no screen alive.
    pub open spec fn empty() -> MenuView {
        MenuView { screen: None, nodes: Seq::empty() }
    }

    /// The nodes are those of the screen that is alive, in the order in which
    /// it was built, whatever the look of its buttons; with no screen alive
    /// there is no node.
    pub open spec fn wf(self) -> bool {
        match self.screen {
            None => self.nodes.len() == 0,
            Some(screen) => {
                &&& self.nodes.len() == screen.layout().len()
                &&& forall|i: int|
                    0 <= i < self.nodes.len() ==> (#[trigger] self.nodes[i]).same_but_style(
                        screen.layout()[i],
                    )
            },
        }
    }

    /// How many widgets there are.
    pub open spec fn widget_count(self) -> nat {
        self.nodes.len()
    }

    /// Whether the button of `role` is there.
    pub open spec fn alive(self, role: ButtonRole) -> bool {
        self.screen == Some(role.spec_screen())
    }

    /// The look of the button of `role`, if the button is there.
    pub open spec fn style_of(self, role: ButtonRole) -> Option<VisualStyle> {
        if self.alive(role) {
            match self.nodes[role.spec_place() as int].widget {
                Widget::Button { role: _, style } => Some(style),
                _ => None,
            }
        } else {
            None
        }
    }

    /// Why `screen` cannot be built now, if it cannot: a screen is alive, or
    /// else the font is missing.
    pub open spec fn enter_error(self, screen: Screen, font_ready: bool) -> Option<MenuError> {
        if self.screen is Some {
            Some(MenuError::DoubleEnter(screen))
        } else if !font_ready {
            Some(MenuError::MissingResource)
        } else {
            None
        }
    }

    /// The menu after `screen` was to be built: with the screen as it is laid
    /// out, or unchanged where that fails.
    pub open spec fn enter(self, screen: Screen, font_ready: bool) -> MenuView {
        if self.enter_error(screen, font_ready) is None {
            MenuView { screen: Some(screen), nodes: screen.layout() }
        } else {
            self
        }
    }

    /// Why `screen` cannot be torn down now, if it cannot: it is not alive.
    pub open spec fn exit_error(self, screen: Screen) -> Option<MenuError> {
        if self.screen == Some(screen) {
            None
        } else {
            Some(MenuError::DoubleExit(screen))
        }
    }

    /// The menu after `screen` was to be torn down: empty, or unchanged where
    /// that fails.
    pub open spec fn exit(self, screen: Screen) -> MenuView {
        if self.screen == Some(screen) {
            MenuView::empty()
        } else {
            self
        }
    }

    /// The menu with the button of `role` in the look `style`.
    pub open spec fn restyle(self, role: ButtonRole, style: VisualStyle) -> MenuView {
        MenuView {
            screen: self.screen,
            nodes: Seq::new(self.nodes.len(), |i: int| self.nodes[i].restyled(role, style)),
        }
    }

    /// The menu after one button's interaction: hovered, the button looks
    /// hovered; left alone, normal; clicked, it keeps its look.
    pub open spec fn interact(self, role: ButtonRole, interaction: Interaction) -> MenuView {
        match interaction.spec_feedback() {
            Some(style) => self.restyle(role, style),
            None => self,
        }
    }

    /// The change of state that one button's interaction asks for: the role's
    /// target where the button is there and clicked, none otherwise.
    pub open spec fn request(self, role: ButtonRole, interaction: Interaction) -> Option<GameState> {
        if interaction == Interaction::Clicked && self.alive(role) {
            Some(role.spec_target())
        } else {
            None
        }
    }

    /// The menu after the interactions of one frame, taken in order.
    pub open spec fn frame(self, snapshots: Seq<Snapshot>) -> MenuView
        decreases snapshots.len(),
    {
        if snapshots.len() == 0 {
            self
        } else {
            self.frame(snapshots.drop_last()).interact(
                snapshots.last().role,
                snapshots.last().interaction,
            )
        }
    }

    /// The menu after several frames, taken in order.
    pub open spec fn frames(self, frames: Seq<Seq<Snapshot>>) -> MenuView
        decreases frames.len(),
    {
        if frames.len() == 0 {
            self
        } else {
            self.frames(frames.drop_last()).frame(frames.last())
        }
    }

    /// The change of state that one frame asks for: that of the first
    /// interaction that asks for one. Later ones in the same frame are dropped.
    pub open spec fn frame_request(self, snapshots: Seq<Snapshot>) -> Option<GameState>
        decreases snapshots.len(),
    {
        if snapshots.len() == 0 {
            None
        } else {
            match self.frame_request(snapshots.drop_last()) {
                Some(target) => Some(target),
                None => self.request(snapshots.last().role, snapshots.last().interaction),
            }
        }
    }
}

/// Whether no button has more than one snapshot among `snapshots`.
pub open spec fn one_snapshot_per_button(snapshots: Seq<Snapshot>) -> bool {
    forall|i: int, j: int|
        0 <= i < j < snapshots.len() ==> (#[trigger] snapshots[i]).role != (#[trigger] snapshots[j]).role
}

} // verus!
