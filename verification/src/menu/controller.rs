//! The menu controller: it builds and tears down the two screens and turns
//! each button's interaction into a look or a request for a change of state.

use crate::menu::error::frame_outcome;
use crate::menu::error::transition_outcome;
use crate::menu::error::HostReply;
use crate::menu::error::MenuError;
use crate::menu::model::MenuView;
use crate::menu::state::ButtonRole;
use crate::menu::state::GameState;
use crate::menu::state::Interaction;
use crate::menu::state::Screen;
use crate::menu::state::Snapshot;
use crate::menu::state::VisualStyle;
use crate::menu::widget::Node;
use crate::menu::widget::Widget;
use vstd::prelude::*;

verus! {

/// The menu's own record of the screen that is alive and of its widgets.
pub struct MenuController {
    screen: Option<Screen>,
    nodes: Vec<Node>,
}

impl View for MenuController {
    type V = MenuView;

    closed spec fn view(&self) -> MenuView {
        MenuView { screen: self.screen, nodes: self.nodes@ }
    }
}

impl MenuController {
    /// Every controller is well formed, at every moment.
    #[verifier::type_invariant]
    spec fn inv(self) -> bool {
        self@.wf()
    }

    /// A controller with no screen alive.
    pub fn new() -> (controller: Self)
        ensures
            controller@ == MenuView::empty(),
            controller@.wf(),
    {
        MenuController { screen: None, nodes: Vec::new() }
    }

    /// The screen that is alive, if one is.
    pub fn screen(&self) -> (screen: Option<Screen>)
        ensures
            screen == self@.screen,
            self@.wf(),
    {
        proof {
            use_type_invariant(self);
        }
        self.screen
    }

    /// How many widgets there are.
    pub fn widget_count(&self) -> (count: usize)
        ensures
            count == self@.widget_count(),
    {
        self.nodes.len()
    }

    /// The node at `index`, if there is one.
    pub fn widget(&self, index: usize) -> (node: Option<Node>)
        ensures
            node == (if index < self@.nodes.len() {
                Some(self@.nodes[index as int])
            } else {
                None
            }),
    {
        if index < self.nodes.len() {
            Some(self.nodes[index])
        } else {
            None
        }
    }

    /// The nodes, each after its parent.
    pub fn widgets(&self) -> (nodes: Vec<Node>)
        ensures
            nodes@ == self@.nodes,
    {
        let mut nodes: Vec<Node> = Vec::new();
        let mut i: usize = 0;
        while i < self.nodes.len()
            invariant
                i <= self.nodes.len(),
                nodes@ == self.nodes@.take(i as int),
            decreases self.nodes.len() - i,
        {
            nodes.push(self.nodes[i]);
            i += 1;
        }
        nodes
    }

    /// The look of the button of `role`, if the button is there.
    pub fn style_of(&self, role: ButtonRole) -> (style: Option<VisualStyle>)
        ensures
            style == self@.style_of(role),
            style is Some <==> self@.alive(role),
    {
        proof {
            use_type_invariant(self);
        }
        if self.screen == Some(role.screen()) {
            let place: usize = role.place();
            assert(self.nodes@[place as int].same_but_style(role.spec_screen().layout()[place as int]));
            match self.nodes[place].widget {
                Widget::Button { role: _, style } => Some(style),
                _ => None,
            }
        } else {
            None
        }
    }

    /// Builds `screen`. Fails, and changes nothing, where a screen is alive
    /// (`DoubleEnter`) or else the font is missing (`MissingResource`).
    pub fn enter(&mut self, screen: Screen, font_ready: bool) -> (result: Result<(), MenuError>)
        ensures
            final(self)@ == old(self)@.enter(screen, font_ready),
            result == match old(self)@.enter_error(screen, font_ready) {
                Some(error) => Err::<(), MenuError>(error),
                None => Ok(()),
            },
            final(self)@.wf(),
    {
        proof {
            use_type_invariant(&*self);
        }
        if self.screen.is_some() {
            return Err(MenuError::DoubleEnter(screen));
        }
        if !font_ready {
            return Err(MenuError::MissingResource);
        }
        let nodes = screen.build();
        *self = MenuController { screen: Some(screen), nodes };
        Ok(())
    }

    /// Tears `screen` down with all its widgets. Fails, and changes nothing,
    /// where that screen is not alive (`DoubleExit`).
    pub fn exit(&mut self, screen: Screen) -> (result: Result<(), MenuError>)
        ensures
            final(self)@ == old(self)@.exit(screen),
            result == match old(self)@.exit_error(screen) {
                Some(error) => Err::<(), MenuError>(error),
                None => Ok(()),
            },
            final(self)@.wf(),
    {
        proof {
            use_type_invariant(&*self);
        }
        if self.screen == Some(screen) {
            *self = MenuController { screen: None, nodes: Vec::new() };
            Ok(())
        } else {
            Err(MenuError::DoubleExit(screen))
        }
    }

    /// Builds the main menu: a root with the Play and the Options button.
    pub fn enter_main_menu(&mut self, font_ready: bool) -> (result: Result<(), MenuError>)
        ensures
            final(self)@ == old(self)@.enter(Screen::MainMenu, font_ready),
            result == match old(self)@.enter_error(Screen::MainMenu, font_ready) {
                Some(error) => Err::<(), MenuError>(error),
                None => Ok(()),
            },
            final(self)@.wf(),
    {
        self.enter(Screen::MainMenu, font_ready)
    }

    /// Tears the main menu down with all its widgets.
    pub fn exit_main_menu(&mut self) -> (result: Result<(), MenuError>)
        ensures
            final(self)@ == old(self)@.exit(Screen::MainMenu),
            result == match old(self)@.exit_error(Screen::MainMenu) {
                Some(error) => Err::<(), MenuError>(error),
                None => Ok(()),
            },
            final(self)@.wf(),
    {
        self.exit(Screen::MainMenu)
    }

    /// Builds the options menu: a root with a title and the Back button.
    pub fn enter_options_menu(&mut self, font_ready: bool) -> (result: Result<(), MenuError>)
        ensures
            final(self)@ == old(self)@.enter(Screen::OptionsMenu, font_ready),
            result == match old(self)@.enter_error(Screen::OptionsMenu, font_ready) {
                Some(error) => Err::<(), MenuError>(error),
                None => Ok(()),
            },
            final(self)@.wf(),
    {
        self.enter(Screen::OptionsMenu, font_ready)
    }

    /// Tears the options menu down with all its widgets.
    pub fn exit_options_menu(&mut self) -> (result: Result<(), MenuError>)
        ensures
            final(self)@ == old(self)@.exit(Screen::OptionsMenu),
            result == match old(self)@.exit_error(Screen::OptionsMenu) {
                Some(error) => Err::<(), MenuError>(error),
                None => Ok(()),
            },
            final(self)@.wf(),
    {
        self.exit(Screen::OptionsMenu)
    }

    /// Gives the button of `role` the look `style`.
    fn restyle(&mut self, role: ButtonRole, style: VisualStyle)
        ensures
            final(self)@ == old(self)@.restyle(role, style),
    {
        proof {
            use_type_invariant(&*self);
        }
        let mut nodes: Vec<Node> = Vec::new();
        let mut i: usize = 0;
        while i < self.nodes.len()
            invariant
                i <= self.nodes.len(),
                nodes@.len() == i,
                forall|j: int| 0 <= j < i ==> nodes@[j] == self.nodes@[j].restyled(role, style),
            decreases self.nodes.len() - i,
        {
            let node = self.nodes[i];
            let widget = match node.widget {
                Widget::Button { role: own, style: _ } if own == role => Widget::Button { role, style },
                other => other,
            };
            nodes.push(Node { widget, parent: node.parent });
            i += 1;
        }
        assert(nodes@ =~= self@.restyle(role, style).nodes);
        *self = MenuController { screen: self.screen, nodes };
    }

    /// Takes one button's interaction in one frame. Clicked, the button asks
    /// for its target state and keeps its look; hovered, it looks hovered;
    /// left alone, normal. A button that is not there asks for nothing.
    pub fn on_button_interaction(&mut self, role: ButtonRole, interaction: Interaction) -> (request:
        Option<GameState>)
        ensures
            final(self)@ == old(self)@.interact(role, interaction),
            request == old(self)@.request(role, interaction),
            final(self)@.wf(),
    {
        proof {
            use_type_invariant(&*self);
        }
        match interaction.feedback() {
            Some(style) => {
                self.restyle(role, style);
                proof {
                    use_type_invariant(&*self);
                }
                None
            },
            None => {
                if self.screen == Some(role.screen()) {
                    Some(role.target())
                } else {
                    None
                }
            },
        }
    }

    /// Takes the interactions of one frame, in order. Every button gets the
    /// look that its interaction gives it; the frame asks for the change of
    /// state of the first click in it, and for none where nothing is clicked.
    pub fn on_frame(&mut self, snapshots: &Vec<Snapshot>) -> (request: Option<GameState>)
        ensures
            final(self)@ == old(self)@.frame(snapshots@),
            request == old(self)@.frame_request(snapshots@),
            final(self)@.wf(),
    {
        proof {
            use_type_invariant(&*self);
        }
        let ghost start = self@;
        let mut request: Option<GameState> = None;
        let mut i: usize = 0;
        while i < snapshots.len()
            invariant
                i <= snapshots.len(),
                self@ == start.frame(snapshots@.take(i as int)),
                self@.screen == start.screen,
                self@.wf(),
                request == start.frame_request(snapshots@.take(i as int)),
            decreases snapshots.len() - i,
        {
            let snapshot = snapshots[i];
            assert(snapshots@.take(i + 1).drop_last() =~= snapshots@.take(i as int));
            let asked = self.on_button_interaction(snapshot.role, snapshot.interaction);
            if request.is_none() {
                request = asked;
            }
            i += 1;
        }
        assert(snapshots@.take(i as int) =~= snapshots@);
        request
    }

    /// Takes the interactions of one frame as `on_frame` does and hands the
    /// frame's request, if it has one, to the host through `ask`, once. The
    /// result is the state that the host accepted, `None` where nothing was
    /// asked, or `InvalidTransition` where the host refused. The looks change
    /// as the interactions say, whatever the host answers.
    pub fn update<F: FnOnce(GameState) -> HostReply>(&mut self, snapshots: &Vec<Snapshot>, ask: F) -> (result:
        Result<Option<GameState>, MenuError>)
        requires
            old(self)@.frame_request(snapshots@) matches Some(target) ==> call_requires(ask, (target,)),
        ensures
            final(self)@ == old(self)@.frame(snapshots@),
            final(self)@.wf(),
            match old(self)@.frame_request(snapshots@) {
                Some(target) => exists|reply: HostReply|
                    #[trigger] call_ensures(ask, (target,), reply) && result == frame_outcome(
                        Some(target),
                        reply,
                    ),
                None => result == Ok::<Option<GameState>, MenuError>(None),
            },
    {
        match self.on_frame(snapshots) {
            Some(target) => {
                let reply = ask(target);
                assert(call_ensures(ask, (target,), reply));
                match transition_outcome(target, reply) {
                    Ok(()) => Ok(Some(target)),
                    Err(error) => Err(error),
                }
            },
            None => Ok(None),
        }
    }
}

} // verus!
