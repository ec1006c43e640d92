//! What holds of the menu whatever the host does with it.

use crate::menu::model::one_snapshot_per_button;
use crate::menu::model::MenuView;
use crate::menu::state::ButtonRole;
use crate::menu::state::GameState;
use crate::menu::state::Interaction;
use crate::menu::state::Screen;
use crate::menu::state::Snapshot;
use crate::menu::state::VisualStyle;
use crate::menu::widget::Label;
use crate::menu::widget::Node;
use crate::menu::widget::Widget;
use crate::menu::MenuPlugin;
use crate::menu::Phase;
use crate::menu::Registration;
use vstd::prelude::*;

verus! {

/// The node after the interactions of one frame, taken in order.
spec fn node_after(node: Node, snapshots: Seq<Snapshot>) -> Node
    decreases snapshots.len(),
{
    if snapshots.len() == 0 {
        node
    } else {
        let before = node_after(node, snapshots.drop_last());
        match snapshots.last().interaction.spec_feedback() {
            Some(style) => before.restyled(snapshots.last().role, style),
            None => before,
        }
    }
}

/// The look that the last snapshot of `role` that gives one gives.
spec fn last_feedback(snapshots: Seq<Snapshot>, role: ButtonRole) -> Option<VisualStyle>
    decreases snapshots.len(),
{
    if snapshots.len() == 0 {
        None
    } else if snapshots.last().role == role && snapshots.last().interaction.spec_feedback() is Some {
        snapshots.last().interaction.spec_feedback()
    } else {
        last_feedback(snapshots.drop_last(), role)
    }
}

/// The node with the look `style`, where it is a button and a look is given.
spec fn with_look(node: Node, style: Option<VisualStyle>) -> Node {
    match (node.widget, style) {
        (Widget::Button { role, style: _ }, Some(style)) => Node {
            widget: Widget::Button { role, style },
            parent: node.parent,
        },
        _ => node,
    }
}

/// The role of the node's button; for another node, a role at will.
spec fn role_of(node: Node) -> ButtonRole {
    match node.widget {
        Widget::Button { role, style: _ } => role,
        _ => ButtonRole::Play,
    }
}

proof fn lemma_frame_nodes(menu: MenuView, snapshots: Seq<Snapshot>)
    ensures
        menu.frame(snapshots).screen == menu.screen,
        menu.frame(snapshots).nodes.len() == menu.nodes.len(),
        forall|n: int|
            0 <= n < menu.nodes.len() ==> #[trigger] menu.frame(snapshots).nodes[n] == node_after(
                menu.nodes[n],
                snapshots,
            ),
    decreases snapshots.len(),
{
    if snapshots.len() > 0 {
        lemma_frame_nodes(menu, snapshots.drop_last());
    }
}

proof fn lemma_node_after(node: Node, snapshots: Seq<Snapshot>)
    ensures
        node_after(node, snapshots) == with_look(node, last_feedback(snapshots, role_of(node))),
    decreases snapshots.len(),
{
    if snapshots.len() > 0 {
        lemma_node_after(node, snapshots.drop_last());
    }
}

proof fn lemma_last_feedback_absent(snapshots: Seq<Snapshot>, role: ButtonRole)
    requires
        forall|i: int| 0 <= i < snapshots.len() ==> (#[trigger] snapshots[i]).role != role,
    ensures
        last_feedback(snapshots, role) is None,
    decreases snapshots.len(),
{
    if snapshots.len() > 0 {
        lemma_last_feedback_absent(snapshots.drop_last(), role);
    }
}

proof fn lemma_last_feedback_single(snapshots: Seq<Snapshot>, k: int)
    requires
        one_snapshot_per_button(snapshots),
        0 <= k < snapshots.len(),
    ensures
        last_feedback(snapshots, snapshots[k].role) == snapshots[k].interaction.spec_feedback(),
    decreases snapshots.len(),
{
    let role = snapshots[k].role;
    let rest = snapshots.drop_last();
    if k == snapshots.len() - 1 {
        assert forall|i: int| 0 <= i < rest.len() implies (#[trigger] rest[i]).role != role by {
            assert(rest[i] == snapshots[i]);
        }
        lemma_last_feedback_absent(rest, role);
    } else {
        assert(one_snapshot_per_button(rest)) by {
            assert forall|i: int, j: int| 0 <= i < j < rest.len() implies (#[trigger] rest[i]).role != (
            #[trigger] rest[j]).role by {
                assert(rest[i] == snapshots[i]);
                assert(rest[j] == snapshots[j]);
            }
        }
        assert(rest[k] == snapshots[k]);
        lemma_last_feedback_single(rest, k);
    }
}

/// The look that a frame gives to the button of `role` is the same for two
/// frames that hold the same snapshots, one for a button at most.
proof fn lemma_last_feedback_same(a: Seq<Snapshot>, b: Seq<Snapshot>, role: ButtonRole)
    requires
        one_snapshot_per_button(a),
        one_snapshot_per_button(b),
        forall|s: Snapshot| a.contains(s) <==> b.contains(s),
    ensures
        last_feedback(a, role) == last_feedback(b, role),
{
    if exists|k: int| 0 <= k < a.len() && (#[trigger] a[k]).role == role {
        let k = choose|k: int| 0 <= k < a.len() && (#[trigger] a[k]).role == role;
        assert(a.contains(a[k]));
        assert(b.contains(a[k]));
        let m = choose|m: int| 0 <= m < b.len() && b[m] == a[k];
        lemma_last_feedback_single(a, k);
        lemma_last_feedback_single(b, m);
    } else {
        assert forall|j: int| 0 <= j < b.len() implies (#[trigger] b[j]).role != role by {
            assert(b.contains(b[j]));
            assert(a.contains(b[j]));
            let i = choose|i: int| 0 <= i < a.len() && a[i] == b[j];
            assert(a[i].role != role);
        }
        lemma_last_feedback_absent(a, role);
        lemma_last_feedback_absent(b, role);
    }
}

/// The slots that the menu fills are exactly the hooks of the states that
/// own a screen: a screen is built when its state is entered, takes the
/// interactions while its state is active and is torn down when its state is
/// left, and a state without a screen has no slot.
pub proof fn law_slots_are_the_hooks(slot: Registration)
    ensures
        MenuPlugin::registrations().contains(slot) <==> MenuPlugin::spec_hook(slot.state, slot.phase)
            == Some(slot.hook),
{
    let slots = MenuPlugin::registrations();
    if MenuPlugin::spec_hook(slot.state, slot.phase) == Some(slot.hook) {
        let screen = slot.state.spec_screen().unwrap();
        let at = (if screen == Screen::MainMenu {
            0int
        } else {
            3int
        }) + (match slot.phase {
            Phase::Enter => 0int,
            Phase::Update => 1int,
            Phase::Exit => 2int,
        });
        assert(slots[at] == slot);
    }
}

/// One frame keeps the menu well formed and leaves the screen and the number
/// of widgets as they were.
pub proof fn lemma_frame_keeps_shape(menu: MenuView, snapshots: Seq<Snapshot>)
    requires
        menu.wf(),
    ensures
        menu.frame(snapshots).wf(),
        menu.frame(snapshots).screen == menu.screen,
        menu.frame(snapshots).widget_count() == menu.widget_count(),
    decreases snapshots.len(),
{
    if snapshots.len() > 0 {
        lemma_frame_keeps_shape(menu, snapshots.drop_last());
    }
}

/// Any number of frames keeps the menu well formed and leaves the screen and
/// the number of widgets as they were.
pub proof fn lemma_frames_keep_shape(menu: MenuView, frames: Seq<Seq<Snapshot>>)
    requires
        menu.wf(),
    ensures
        menu.frames(frames).wf(),
        menu.frames(frames).screen == menu.screen,
        menu.frames(frames).widget_count() == menu.widget_count(),
    decreases frames.len(),
{
    if frames.len() > 0 {
        lemma_frames_keep_shape(menu, frames.drop_last());
        lemma_frame_keeps_shape(menu.frames(frames.drop_last()), frames.last());
    }
}

/// No widget outlives its screen: where a screen can be built, then after any
/// number of frames, with any interactions, its exit succeeds and leaves the
/// menu empty.
pub proof fn law_exit_leaves_no_widget(
    menu: MenuView,
    screen: Screen,
    font_ready: bool,
    frames: Seq<Seq<Snapshot>>,
)
    requires
        menu.wf(),
        menu.enter_error(screen, font_ready) is None,
    ensures
        menu.enter(screen, font_ready).frames(frames).exit_error(screen) is None,
        menu.enter(screen, font_ready).frames(frames).exit(screen) == MenuView::empty(),
        menu.enter(screen, font_ready).frames(frames).exit(screen).widget_count() == 0,
{
    lemma_frames_keep_shape(menu.enter(screen, font_ready), frames);
}

/// At most one screen is alive, and every widget belongs to it: a screen can
/// be built only in an empty menu, and a well-formed menu without a screen
/// has no widget.
pub proof fn law_one_screen_owns_all(menu: MenuView, screen: Screen, font_ready: bool)
    requires
        menu.wf(),
    ensures
        menu.enter_error(screen, font_ready) is None ==> menu == MenuView::empty(),
        menu.screen is None <==> menu.widget_count() == 0,
        menu.enter(screen, font_ready).wf(),
        menu.exit(screen).wf(),
{
    if menu.screen is None {
        assert(menu.nodes =~= Seq::empty());
    }
}

/// A click on a button that is there asks for the state of the button's role
/// and changes no look in that frame, whatever the button looked like: on the
/// main menu, Play asks for `Playing` and Options for `Options`; on the
/// options menu, Back asks for `Menu`. A frame that holds this click alone
/// asks for exactly that.
pub proof fn law_click_requests_and_keeps_look(menu: MenuView, role: ButtonRole)
    requires
        menu.wf(),
        menu.alive(role),
    ensures
        menu.request(role, Interaction::Clicked) == Some(role.spec_target()),
        menu.interact(role, Interaction::Clicked) == menu,
        menu.frame_request(seq![Snapshot { role, interaction: Interaction::Clicked }]) == Some(
            role.spec_target(),
        ),
        menu.frame(seq![Snapshot { role, interaction: Interaction::Clicked }]) == menu,
        role == ButtonRole::Play ==> role.spec_target() == GameState::Playing,
        role == ButtonRole::Options ==> role.spec_target() == GameState::Options,
        role == ButtonRole::Back ==> role.spec_target() == GameState::Menu,
{
    let click = seq![Snapshot { role, interaction: Interaction::Clicked }];
    assert(click.drop_last() =~= Seq::<Snapshot>::empty());
    assert(click.last() == Snapshot { role, interaction: Interaction::Clicked });
    reveal_with_fuel(MenuView::frame, 2);
    reveal_with_fuel(MenuView::frame_request, 2);
}

/// Only a click on a button that is there asks for anything.
pub proof fn law_request_needs_a_click(menu: MenuView, role: ButtonRole, interaction: Interaction)
    ensures
        menu.request(role, interaction) is Some <==> interaction == Interaction::Clicked && menu.alive(
            role,
        ),
{
}

/// A hovered button looks hovered; once the pointer has left, it looks normal
/// again; a click on a hovered button asks for the role's state all the same,
/// and the button stays hovered in that frame. No other button changes.
pub proof fn law_hover_feedback(menu: MenuView, role: ButtonRole, other: ButtonRole)
    requires
        menu.wf(),
        menu.alive(role),
        other != role,
    ensures
        menu.interact(role, Interaction::Hovered).style_of(role) == Some(VisualStyle::Hovered),
        menu.interact(role, Interaction::Idle).style_of(role) == Some(VisualStyle::Normal),
        menu.interact(role, Interaction::Hovered).interact(role, Interaction::Idle).style_of(role)
            == Some(VisualStyle::Normal),
        menu.interact(role, Interaction::Hovered).request(role, Interaction::Clicked) == Some(
            role.spec_target(),
        ),
        menu.interact(role, Interaction::Hovered).interact(role, Interaction::Clicked).style_of(role)
            == Some(VisualStyle::Hovered),
        menu.interact(role, Interaction::Hovered).style_of(other) == menu.style_of(other),
        menu.interact(role, Interaction::Idle).style_of(other) == menu.style_of(other),
{
    let place = role.spec_place() as int;
    assert(menu.nodes[place].same_but_style(role.spec_screen().layout()[place]));
    if menu.alive(other) {
        let there = other.spec_place() as int;
        assert(menu.nodes[there].same_but_style(other.spec_screen().layout()[there]));
    }
}

/// The options menu, as it is built, has exactly one title and exactly one
/// button, the Back button in its normal look; a click on Back asks for
/// `Menu`, and the exit that follows leaves no widget.
pub proof fn law_options_menu(menu: MenuView, font_ready: bool)
    requires
        menu.wf(),
        menu.enter_error(Screen::OptionsMenu, font_ready) is None,
    ensures
        ({
            let built = menu.enter(Screen::OptionsMenu, font_ready);
            &&& built.screen == Some(Screen::OptionsMenu)
            &&& forall|i: int|
                0 <= i < built.nodes.len() ==> ((#[trigger] built.nodes[i]).widget == Widget::Text {
                    label: Label::OptionsTitle,
                } <==> i == 1)
            &&& forall|i: int|
                0 <= i < built.nodes.len() ==> ((#[trigger] built.nodes[i]).widget is Button <==> i
                    == 2)
            &&& built.nodes[2].widget == Widget::Button {
                role: ButtonRole::Back,
                style: VisualStyle::Normal,
            }
            &&& built.request(ButtonRole::Back, Interaction::Clicked) == Some(GameState::Menu)
            &&& built.interact(ButtonRole::Back, Interaction::Clicked).exit(Screen::OptionsMenu)
                == MenuView::empty()
            &&& built.interact(ButtonRole::Back, Interaction::Clicked).exit(
                Screen::OptionsMenu,
            ).widget_count() == 0
        }),
{
}

/// The main menu, as it is built, has exactly two buttons, Play and Options,
/// both in their normal look.
pub proof fn law_main_menu(menu: MenuView, font_ready: bool)
    requires
        menu.wf(),
        menu.enter_error(Screen::MainMenu, font_ready) is None,
    ensures
        ({
            let built = menu.enter(Screen::MainMenu, font_ready);
            &&& built.screen == Some(Screen::MainMenu)
            &&& forall|i: int|
                0 <= i < built.nodes.len() ==> ((#[trigger] built.nodes[i]).widget is Button <==> i
                    == 1 || i == 3)
            &&& built.nodes[1].widget == Widget::Button {
                role: ButtonRole::Play,
                style: VisualStyle::Normal,
            }
            &&& built.nodes[3].widget == Widget::Button {
                role: ButtonRole::Options,
                style: VisualStyle::Normal,
            }
        }),
{
}

/// Taking the same interaction of a button twice is taking it once.
pub proof fn law_interaction_is_idempotent(menu: MenuView, role: ButtonRole, interaction: Interaction)
    ensures
        menu.interact(role, interaction).interact(role, interaction) == menu.interact(
            role,
            interaction,
        ),
{
    assert(menu.interact(role, interaction).interact(role, interaction).nodes =~= menu.interact(
        role,
        interaction,
    ).nodes);
}

/// The interactions of two different buttons can be taken in either order.
pub proof fn law_interactions_commute(
    menu: MenuView,
    first: Snapshot,
    second: Snapshot,
)
    requires
        first.role != second.role,
    ensures
        menu.interact(first.role, first.interaction).interact(second.role, second.interaction)
            == menu.interact(second.role, second.interaction).interact(
            first.role,
            first.interaction,
        ),
{
    assert(menu.interact(first.role, first.interaction).interact(
        second.role,
        second.interaction,
    ).nodes =~= menu.interact(second.role, second.interaction).interact(
        first.role,
        first.interaction,
    ).nodes);
}

/// In a frame with one snapshot for a button at most, the look that a button
/// ends with depends on its own snapshot alone: it is the look that this one
/// interaction gives it, wherever in the frame the snapshot stands.
pub proof fn law_look_depends_on_own_snapshot(menu: MenuView, snapshots: Seq<Snapshot>, k: int)
    requires
        menu.wf(),
        one_snapshot_per_button(snapshots),
        0 <= k < snapshots.len(),
    ensures
        menu.frame(snapshots).style_of(snapshots[k].role) == menu.interact(
            snapshots[k].role,
            snapshots[k].interaction,
        ).style_of(snapshots[k].role),
{
    let role = snapshots[k].role;
    lemma_frame_nodes(menu, snapshots);
    if menu.alive(role) {
        let place = role.spec_place() as int;
        assert(menu.nodes[place].same_but_style(role.spec_screen().layout()[place]));
        lemma_node_after(menu.nodes[place], snapshots);
        lemma_last_feedback_single(snapshots, k);
    }
}

/// A button without a snapshot in a frame keeps its look.
pub proof fn law_look_kept_without_snapshot(menu: MenuView, snapshots: Seq<Snapshot>, role: ButtonRole)
    requires
        menu.wf(),
        forall|i: int| 0 <= i < snapshots.len() ==> (#[trigger] snapshots[i]).role != role,
    ensures
        menu.frame(snapshots).style_of(role) == menu.style_of(role),
{
    lemma_frame_nodes(menu, snapshots);
    if menu.alive(role) {
        let place = role.spec_place() as int;
        assert(menu.nodes[place].same_but_style(role.spec_screen().layout()[place]));
        lemma_node_after(menu.nodes[place], snapshots);
        lemma_last_feedback_absent(snapshots, role);
    }
}

/// The order in which the buttons of one frame are taken does not matter to
/// what the menu looks like: two frames that hold the same snapshots, one for
/// a button at most, leave the same menu.
pub proof fn law_evaluation_order_is_irrelevant(menu: MenuView, a: Seq<Snapshot>, b: Seq<Snapshot>)
    requires
        one_snapshot_per_button(a),
        one_snapshot_per_button(b),
        forall|s: Snapshot| a.contains(s) <==> b.contains(s),
    ensures
        menu.frame(a) == menu.frame(b),
{
    lemma_frame_nodes(menu, a);
    lemma_frame_nodes(menu, b);
    assert forall|n: int| 0 <= n < menu.nodes.len() implies menu.frame(a).nodes[n] == menu.frame(
        b,
    ).nodes[n] by {
        lemma_node_after(menu.nodes[n], a);
        lemma_node_after(menu.nodes[n], b);
        lemma_last_feedback_same(a, b, role_of(menu.nodes[n]));
    }
    assert(menu.frame(a).nodes =~= menu.frame(b).nodes);
}

} // verus!
