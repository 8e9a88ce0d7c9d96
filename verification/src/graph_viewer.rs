//! The gesture state machine.
//!
//! A [`GraphViewer`] owns a graph store and is its only mutator. It is fed
//! pointer and keyboard events, with the pointer's position already mapped
//! into the world, and decides from its current [`Gesture`], the node under
//! the pointer and the held hotkeys what each event means: a new node, a new
//! edge, a move, a removal, or an edit of a title.
//!
//! The map between the screen and the world is kept by whoever embeds the
//! viewer. The viewer says when that map is to change ([`ViewChange`]), and
//! is told where the pointer is in the world after it has.
//!
//! Contracts speak of a viewer through its view, a [`ViewerState`].

use crate::graph::{
    get_node_outcome, node_indices_outcome, Graph, GraphError, GraphView, Node, NodeIndex,
    NodeView, PetgraphGraph,
};
use crate::shapes::{in_circle, spec_in_circle, Circle, Point, Vec2};
use vstd::prelude::*;
use vstd::string::StrSliceExecFns;
use vstd::string::StringExecFns;

verus! {

/// The radius of a node that a gesture creates.
pub const CIRCLE_RADIUS: u32 = 40;

/// What the pointer is in the middle of doing.
#[derive(Clone, Copy, Debug, PartialEq, Eq, Structural)]
pub enum Gesture {
    /// Nothing.
    Inactive,
    /// Placing a new node where the pointer is released.
    AddingNode,
    /// Drawing an edge from `from` to wherever the pointer is released.
    AddingEdge { from: NodeIndex },
    /// Dragging the view.
    Panning,
    /// Dragging the node `node_id`, whose centre stays `initial_distance`
    /// away from the pointer.
    MovingNode { node_id: NodeIndex, initial_distance: Vec2 },
    /// About to remove the node on which the pointer is released.
    Deleting,
    /// Typing into the title of the node `node_id`.
    Editing { node_id: NodeIndex },
}

impl Default for Gesture {
    fn default() -> (gesture: Gesture)
        ensures
            gesture == Gesture::Inactive,
    {
        Gesture::Inactive
    }
}

/// A key that changes what a pointer press means while it is held.
#[derive(Clone, Copy, Debug, PartialEq, Eq, Structural)]
pub enum Hotkey {
    Control,
    Space,
}

/// Which hotkeys are held.
#[derive(Clone, Copy, Debug, PartialEq, Eq, Structural)]
pub struct HotkeyState {
    pub control: bool,
    pub space: bool,
}

impl HotkeyState {
    /// The state with `hotkey` held or not, as `pressed` says.
    pub open spec fn with(self, hotkey: Hotkey, pressed: bool) -> HotkeyState {
        match hotkey {
            Hotkey::Control => HotkeyState { control: pressed, space: self.space },
            Hotkey::Space => HotkeyState { control: self.control, space: pressed },
        }
    }

    /// Whether `hotkey` is held.
    pub fn get(&self, hotkey: Hotkey) -> (pressed: bool)
        ensures
            pressed == match hotkey {
                Hotkey::Control => self.control,
                Hotkey::Space => self.space,
            },
    {
        match hotkey {
            Hotkey::Control => self.control,
            Hotkey::Space => self.space,
        }
    }

    /// Records that `hotkey` is held, or no longer held.
    pub fn set(&mut self, hotkey: Hotkey, pressed: bool)
        ensures
            *final(self) == old(self).with(hotkey, pressed),
    {
        match hotkey {
            Hotkey::Control => {
                self.control = pressed;
            },
            Hotkey::Space => {
                self.space = pressed;
            },
        }
    }
}

impl Default for HotkeyState {
    fn default() -> (state: HotkeyState)
        ensures
            state == (HotkeyState { control: false, space: false }),
    {
        HotkeyState { control: false, space: false }
    }
}

/// The physical keys that the viewer tells apart.
#[derive(Clone, Copy, Debug, PartialEq, Eq, Structural)]
pub enum KeyCode {
    ControlLeft,
    ControlRight,
    Space,
    Escape,
    /// Any other key.
    Other,
}

/// The key of a keyboard event, by its place on the keyboard.
#[derive(Clone, Copy, Debug, PartialEq, Eq, Structural)]
pub enum PhysicalKey {
    Code(KeyCode),
    Unidentified,
}

/// Whether a key went down or came up.
#[derive(Clone, Copy, Debug, PartialEq, Eq, Structural)]
pub enum ElementState {
    Pressed,
    Released,
}

/// A keyboard event.
#[derive(Debug)]
pub struct KeyEvent {
    pub physical_key: PhysicalKey,
    /// The text that the key press produces, if any.
    pub text: Option<String>,
    pub state: ElementState,
    /// Whether the event comes from a key that is being held down.
    pub repeat: bool,
}

/// What a [`KeyEvent`] is to a contract.
pub struct KeyEventView {
    pub physical_key: PhysicalKey,
    pub text: Option<Seq<char>>,
    pub state: ElementState,
    pub repeat: bool,
}

impl View for KeyEvent {
    type V = KeyEventView;

    open spec fn view(&self) -> KeyEventView {
        KeyEventView {
            physical_key: self.physical_key,
            text: match self.text {
                Some(text) => Some(text@),
                None => None,
            },
            state: self.state,
            repeat: self.repeat,
        }
    }
}

/// An event of the text input.
#[derive(Debug)]
pub enum TextEvent {
    KeyboardKey(KeyEvent),
    /// Any other event; the viewer ignores it.
    Other,
}

/// An event of the pointer, with the place in the world where it happened.
#[derive(Clone, Copy, Debug, PartialEq, Eq, Structural)]
pub enum PointerEvent {
    PointerDown(Point),
    PointerUp(Point),
    PointerMove(Point),
}

/// The shape that the pointer should take.
#[derive(Clone, Copy, Debug, PartialEq, Eq, Structural)]
pub enum CursorIcon {
    Default,
    Grab,
    Grabbing,
}

/// An event that can change the view of the world.
#[derive(Clone, Copy, Debug, PartialEq, Eq, Structural)]
pub enum ViewEvent {
    /// The pointer moved.
    PointerMove,
    /// The wheel was turned.
    MouseWheel,
    /// Two fingers were pinched or spread.
    Pinch,
}

/// What an event does to the view of the world.
#[derive(Clone, Copy, Debug, PartialEq, Eq, Structural)]
pub enum ViewChange {
    /// The view stays as it is.
    Keep,
    /// The view follows the pointer, by the distance that the pointer moved.
    Pan,
    /// The view moves by the distance that the wheel was turned.
    Scroll,
    /// The view grows or shrinks about the point under the pointer.
    Zoom,
}

/// The hotkey that a physical key stands for, if any.
pub open spec fn spec_hotkey_of(physical_key: PhysicalKey) -> Option<Hotkey> {
    match physical_key {
        PhysicalKey::Code(KeyCode::ControlLeft) => Some(Hotkey::Control),
        PhysicalKey::Code(KeyCode::ControlRight) => Some(Hotkey::Control),
        PhysicalKey::Code(KeyCode::Space) => Some(Hotkey::Space),
        _ => None,
    }
}

impl Hotkey {
    /// The hotkey that a physical key stands for, if any.
    pub fn from_physical_key(physical_key: PhysicalKey) -> (hotkey: Option<Hotkey>)
        ensures
            hotkey == spec_hotkey_of(physical_key),
    {
        match physical_key {
            PhysicalKey::Code(KeyCode::ControlLeft) => Some(Hotkey::Control),
            PhysicalKey::Code(KeyCode::ControlRight) => Some(Hotkey::Control),
            PhysicalKey::Code(KeyCode::Space) => Some(Hotkey::Space),
            _ => None,
        }
    }
}

/// The title that typing `text` makes of `title`, or `None` where the title
/// stays as it is: a carriage return adds a line break, a backspace takes
/// the last character away, and any other text is added at the end.
pub open spec fn spec_update_title(title: Seq<char>, text: Option<Seq<char>>) -> Option<Seq<char>> {
    match text {
        None => None,
        Some(text) => if text == seq!['\r'] {
            Some(title.push('\n'))
        } else if text == seq!['\u{8}'] {
            if title.len() > 0 {
                Some(title.drop_last())
            } else {
                None
            }
        } else {
            Some(title + text)
        },
    }
}

/// The title that the key event makes of `title`, or `None` where the title
/// stays as it is.
pub fn update_title(title: &str, key: &KeyEvent) -> (updated: Option<String>)
    ensures
        match updated {
            Some(new_title) => spec_update_title(title@, key@.text) == Some(new_title@),
            None => spec_update_title(title@, key@.text) is None,
        },
{
    let Some(key_text) = &key.text else {
        return None;
    };
    let key_text: &str = key_text.as_str();
    let key_len: usize = key_text.unicode_len();
    if key_len == 1 {
        let c: char = key_text.get_char(0);
        assert(key_text@ =~= seq![c]);
        if c == '\r' {
            let mut new_title = String::from_str(title);
            proof {
                reveal_strlit("\n");
            }
            new_title.append("\n");
            assert(new_title@ =~= title@.push('\n'));
            return Some(new_title);
        }
        if c == '\u{8}' {
            let title_len: usize = title.unicode_len();
            if title_len > 0 {
                let kept: &str = title.substring_char(0, title_len - 1);
                assert(kept@ =~= title@.drop_last());
                return Some(String::from_str(kept));
            }
            return None;
        }
        assert(key_text@ != seq!['\r']) by {
            assert(key_text@[0] != '\r');
        }
        assert(key_text@ != seq!['\u{8}']) by {
            assert(key_text@[0] != '\u{8}');
        }
    } else {
        assert(key_text@ != seq!['\r']);
        assert(key_text@ != seq!['\u{8}']);
    }
    let mut new_title = String::from_str(title);
    new_title.append(key_text);
    Some(new_title)
}

/// Whether the node `index` of `graph` is hit by `point`: it is there, and
/// the point lies strictly inside its circle.
pub open spec fn node_is_hit(graph: GraphView, index: NodeIndex, point: Point) -> bool {
    graph.contains(index) && spec_in_circle(point, graph.nodes[index].circle)
}

/// `hit` is the result of a hit test that tries the nodes in `order`: the
/// first of them that `point` hits, or `None` where it hits none of them.
pub open spec fn is_first_hit(
    graph: GraphView,
    order: Seq<NodeIndex>,
    point: Point,
    hit: Option<NodeIndex>,
) -> bool {
    match hit {
        Some(index) => exists|k: int|
            {
                &&& 0 <= k < order.len()
                &&& #[trigger] order[k] == index
                &&& node_is_hit(graph, index, point)
                &&& forall|j: int| 0 <= j < k ==> !node_is_hit(graph, #[trigger] order[j], point)
            },
        None => forall|k: int|
            0 <= k < order.len() ==> !node_is_hit(graph, #[trigger] order[k], point),
    }
}

/// `index` is the node with the lowest identifier among those that `point`
/// hits: the first that the store lists.
pub open spec fn is_lowest_hit(graph: GraphView, point: Point, index: NodeIndex) -> bool {
    &&& node_is_hit(graph, index, point)
    &&& forall|other: NodeIndex| #[trigger] node_is_hit(graph, other, point) ==> index <= other
}

/// The node under the pointer: of the nodes that the pointer's position
/// hits, the first that the store lists, which is the one with the lowest
/// identifier. With no pointer position, or with no node under it, there is
/// none.
pub open spec fn hovered_node(graph: GraphView, pointer: Option<Point>) -> Option<NodeIndex> {
    match pointer {
        Some(point) => if exists|index: NodeIndex| node_is_hit(graph, index, point) {
            Some(choose|index: NodeIndex| is_lowest_hit(graph, point, index))
        } else {
            None
        },
        None => None,
    }
}

proof fn lemma_lowest_hit_exists(graph: GraphView, point: Point, index: NodeIndex)
    requires
        node_is_hit(graph, index, point),
    ensures
        exists|lowest: NodeIndex| is_lowest_hit(graph, point, lowest),
    decreases index,
{
    if exists|other: NodeIndex| node_is_hit(graph, other, point) && other < index {
        let other = choose|other: NodeIndex| node_is_hit(graph, other, point) && other < index;
        lemma_lowest_hit_exists(graph, point, other);
    } else {
        assert(is_lowest_hit(graph, point, index));
    }
}

/// The hovered node is hit by the pointer and no node with a lower
/// identifier is; where no node is hovered, the pointer hits none.
pub proof fn lemma_hovered_node(graph: GraphView, pointer: Option<Point>)
    ensures
        match hovered_node(graph, pointer) {
            Some(index) => pointer is Some && is_lowest_hit(graph, pointer->0, index),
            None => pointer is Some ==> forall|index: NodeIndex|
                !#[trigger] node_is_hit(graph, index, pointer->0),
        },
{
    if let Some(point) = pointer {
        if exists|index: NodeIndex| node_is_hit(graph, index, point) {
            let index = choose|index: NodeIndex| node_is_hit(graph, index, point);
            lemma_lowest_hit_exists(graph, point, index);
        }
    }
}

/// The lowest node that the pointer hits is the hovered node, and no other
/// is.
pub proof fn lemma_lowest_hit_is_hovered(graph: GraphView, point: Point, index: NodeIndex)
    requires
        is_lowest_hit(graph, point, index),
    ensures
        hovered_node(graph, Some(point)) == Some(index),
{
    assert(exists|hit: NodeIndex| node_is_hit(graph, hit, point)) by {
        assert(node_is_hit(graph, index, point));
    }
    assert(hovered_node(graph, Some(point)) is Some);
    lemma_hovered_node(graph, Some(point));
    let hovered = hovered_node(graph, Some(point))->0;
    assert(node_is_hit(graph, hovered, point));
}

/// Finds the node that `point` hits, trying the nodes in the given order and
/// taking the first. An index in `order` that names no node is passed over.
pub fn hit_test<G: Graph>(graph: &G, order: &Vec<NodeIndex>, point: Point) -> (result: Result<
    Option<NodeIndex>,
    GraphError,
>)
    requires
        graph.inv(),
    ensures
        match result {
            Ok(hit) => is_first_hit(graph@, order@, point, hit),
            Err(error) => error == GraphError::BackendUnavailable && !G::always_available(),
        },
{
    let mut k: usize = 0;
    while k < order.len()
        invariant
            graph.inv(),
            0 <= k <= order@.len(),
            forall|j: int| 0 <= j < k ==> !node_is_hit(graph@, #[trigger] order@[j], point),
        decreases order@.len() - k,
    {
        let index: NodeIndex = order[k];
        match graph.get_node(index) {
            Ok(node) => {
                if in_circle(&point, &node.circle) {
                    assert(order@[k as int] == index);
                    return Ok(Some(index));
                }
            },
            Err(GraphError::NotFound) => {},
            Err(GraphError::BackendUnavailable) => {
                return Err(GraphError::BackendUnavailable);
            },
        }
        k = k + 1;
    }
    Ok(None)
}

/// What a [`GraphViewer`] is to a contract: its gesture, what its graph
/// holds, the held hotkeys, and where the pointer was last seen in the world.
pub struct ViewerState {
    pub gesture: Gesture,
    pub graph: GraphView,
    pub hotkey_state: HotkeyState,
    pub mouse_position: Option<Point>,
}

/// The node that a gesture-made node is to a contract: a circle of the
/// default radius around `center`, with an empty title.
pub open spec fn new_node_at(center: Point) -> NodeView {
    NodeView { circle: Circle { center, radius: CIRCLE_RADIUS }, title: Seq::empty() }
}

/// The node `node` with its centre at `center`.
pub open spec fn node_moved_to(node: NodeView, center: Point) -> NodeView {
    NodeView { circle: Circle { center, radius: node.circle.radius }, title: node.title }
}

/// The node `node` with the title `title`.
pub open spec fn node_retitled(node: NodeView, title: Seq<char>) -> NodeView {
    NodeView { circle: node.circle, title }
}

impl ViewerState {
    /// The node that the gesture is about, if it is about one, is in the
    /// graph.
    pub open spec fn wf(self) -> bool {
        match self.gesture {
            Gesture::AddingEdge { from } => self.graph.contains(from),
            Gesture::MovingNode { node_id, .. } => self.graph.contains(node_id),
            Gesture::Editing { node_id } => self.graph.contains(node_id),
            _ => true,
        }
    }

    /// The node under the pointer, if there is one.
    pub open spec fn hovered(self) -> Option<NodeIndex> {
        hovered_node(self.graph, self.mouse_position)
    }

    /// The state with the pointer at `position`.
    pub open spec fn at(self, position: Point) -> ViewerState {
        ViewerState { mouse_position: Some(position), ..self }
    }

    /// The shape that the pointer should take: a grabbing hand while
    /// something is dragged, an open hand while the space bar announces a
    /// drag, and the default otherwise.
    pub open spec fn cursor_icon(self) -> CursorIcon {
        match self.gesture {
            Gesture::Inactive => if self.hotkey_state.space {
                CursorIcon::Grab
            } else {
                CursorIcon::Default
            },
            Gesture::MovingNode { .. } => CursorIcon::Grabbing,
            Gesture::Panning => CursorIcon::Grabbing,
            _ => CursorIcon::Default,
        }
    }

    /// What `event` does to the view: a move of the pointer pans while the
    /// view is dragged, the wheel always scrolls, and a pinch zooms. To pan
    /// or to zoom takes a pointer whose position is known.
    pub open spec fn view_change(self, event: ViewEvent) -> ViewChange {
        match event {
            ViewEvent::PointerMove => if self.gesture is Panning && self.mouse_position is Some {
                ViewChange::Pan
            } else {
                ViewChange::Keep
            },
            ViewEvent::MouseWheel => ViewChange::Scroll,
            ViewEvent::Pinch => if self.mouse_position is Some {
                ViewChange::Zoom
            } else {
                ViewChange::Keep
            },
        }
    }

    /// The gesture that a press of the pointer begins where the pointer is.
    /// A press during a gesture other than `Editing` is ignored. Space takes
    /// precedence over Control.
    pub open spec fn gesture_after_down(self) -> Gesture {
        if !(self.gesture is Inactive || self.gesture is Editing) {
            self.gesture
        } else {
            match (self.hovered(), self.mouse_position) {
                (Some(index), Some(position)) => if self.hotkey_state.space {
                    Gesture::MovingNode {
                        node_id: index,
                        initial_distance: self.graph.nodes[index].circle.center.spec_offset_from(
                            position,
                        ),
                    }
                } else if self.hotkey_state.control {
                    Gesture::Deleting
                } else {
                    Gesture::AddingEdge { from: index }
                },
                _ => if self.hotkey_state.space {
                    Gesture::Panning
                } else if self.hotkey_state.control {
                    self.gesture
                } else {
                    Gesture::AddingNode
                },
            }
        }
    }

    /// The state after a press of the pointer at `position` that went
    /// through.
    pub open spec fn pointer_down(self, position: Point) -> ViewerState {
        ViewerState { gesture: self.at(position).gesture_after_down(), ..self.at(position) }
    }

    /// The gesture after a release of the pointer where the pointer is:
    /// editing where an edge was drawn from a node to itself, and none
    /// otherwise.
    pub open spec fn gesture_after_up(self) -> Gesture {
        match (self.gesture, self.hovered()) {
            (Gesture::AddingEdge { from }, Some(to)) if from == to => Gesture::Editing {
                node_id: to,
            },
            _ => Gesture::Inactive,
        }
    }

    /// The graph after a release of the pointer where the pointer is, where
    /// `fresh` is the identifier that the store gives to a node made by the
    /// release.
    pub open spec fn graph_after_up(self, fresh: NodeIndex) -> GraphView {
        match (self.gesture, self.hovered(), self.mouse_position) {
            (Gesture::AddingNode, None, Some(position)) => self.graph.with_node(
                fresh,
                new_node_at(position),
            ),
            (Gesture::AddingEdge { from }, None, Some(position)) => self.graph.with_node(
                fresh,
                new_node_at(position),
            ).with_edge(from, fresh),
            (Gesture::AddingEdge { from }, Some(to), _) => if from == to {
                self.graph
            } else {
                self.graph.with_edge(from, to)
            },
            (Gesture::Deleting, Some(index), _) => self.graph.without_node(index),
            _ => self.graph,
        }
    }

    /// Whether a release of the pointer where the pointer is makes a node.
    pub open spec fn up_makes_node(self) -> bool {
        &&& self.gesture is AddingNode || self.gesture is AddingEdge
        &&& self.hovered() is None
        &&& self.mouse_position is Some
    }

    /// Whether a release of the pointer asks the store for anything: it
    /// does where there is something to commit.
    pub open spec fn up_asks_store(self) -> bool {
        self.gesture is AddingNode || self.gesture is AddingEdge || self.gesture is Deleting
    }

    /// The state after a release of the pointer at `position` that went
    /// through.
    pub open spec fn pointer_up(self, position: Point, fresh: NodeIndex) -> ViewerState {
        ViewerState {
            gesture: self.at(position).gesture_after_up(),
            graph: self.at(position).graph_after_up(fresh),
            ..self.at(position)
        }
    }

    /// The graph after the pointer moved to `position` and the move went
    /// through: a node that is being dragged follows the pointer.
    pub open spec fn graph_after_move(self, position: Point) -> GraphView {
        match self.gesture {
            Gesture::MovingNode { node_id, initial_distance } => self.graph.with_node(
                node_id,
                node_moved_to(self.graph.nodes[node_id], position.spec_translate(initial_distance)),
            ),
            _ => self.graph,
        }
    }

    /// The state after the pointer moved to `position` and the move went
    /// through.
    pub open spec fn pointer_move(self, position: Point) -> ViewerState {
        ViewerState { graph: self.graph_after_move(position), ..self.at(position) }
    }

    /// Whether a key event edits a title: it does while a title is edited,
    /// unless the key is Escape, which only ends the gesture.
    pub open spec fn key_edits(self, key: KeyEventView) -> bool {
        self.gesture is Editing && key.physical_key != PhysicalKey::Code(KeyCode::Escape)
    }

    /// The graph after a key event that went through: a key that edits
    /// changes the title as [`spec_update_title`] says.
    pub open spec fn graph_after_key(self, key: KeyEventView) -> GraphView {
        match self.gesture {
            Gesture::Editing { node_id } if self.key_edits(key) => match spec_update_title(
                self.graph.nodes[node_id].title,
                key.text,
            ) {
                Some(title) => self.graph.with_node(
                    node_id,
                    node_retitled(self.graph.nodes[node_id], title),
                ),
                None => self.graph,
            },
            _ => self.graph,
        }
    }

    /// The gesture after a key event: Escape ends any gesture.
    pub open spec fn gesture_after_key(self, key: KeyEventView) -> Gesture {
        if !key.repeat && key.physical_key == PhysicalKey::Code(KeyCode::Escape) {
            Gesture::Inactive
        } else {
            self.gesture
        }
    }

    /// The held hotkeys after a key event: a hotkey is held from its press
    /// to its release. An event that repeats a held key changes nothing.
    pub open spec fn hotkeys_after_key(self, key: KeyEventView) -> HotkeyState {
        if key.repeat {
            self.hotkey_state
        } else {
            match spec_hotkey_of(key.physical_key) {
                Some(hotkey) => self.hotkey_state.with(hotkey, key.state is Pressed),
                None => self.hotkey_state,
            }
        }
    }

    /// The state after a key event that went through.
    pub open spec fn key(self, key: KeyEventView) -> ViewerState {
        ViewerState {
            gesture: self.gesture_after_key(key),
            graph: self.graph_after_key(key),
            hotkey_state: self.hotkeys_after_key(key),
            ..self
        }
    }
}

/// A press of the pointer changes the gesture and the pointer's position and
/// nothing else, and the node that the new gesture is about is in the graph.
pub proof fn lemma_press_keeps_state_sound(before: ViewerState, position: Point)
    requires
        before.wf(),
    ensures
        before.pointer_down(position).wf(),
        before.pointer_down(position).graph == before.graph,
        before.pointer_down(position).hotkey_state == before.hotkey_state,
        before.pointer_down(position).mouse_position == Some(position),
{
    lemma_hovered_node(before.graph, Some(position));
}

/// A release of the pointer leaves a well-formed graph, and a gesture whose
/// node is in that graph. It adds no edge from a node to itself, and it
/// changes no node that was there before, but for the one that it removes.
pub proof fn lemma_release_keeps_state_sound(before: ViewerState, position: Point, fresh: NodeIndex)
    requires
        before.wf(),
        before.graph.wf(),
        before.at(position).up_makes_node() ==> !before.graph.contains(fresh),
    ensures
        before.pointer_up(position, fresh).wf(),
        before.pointer_up(position, fresh).graph.wf(),
        before.pointer_up(position, fresh).hotkey_state == before.hotkey_state,
        before.pointer_up(position, fresh).mouse_position == Some(position),
        forall|index: NodeIndex|
            #[trigger] before.pointer_up(position, fresh).graph.edges.contains((index, index))
                ==> before.graph.edges.contains((index, index)),
        forall|index: NodeIndex|
            before.graph.contains(index) && #[trigger] before.pointer_up(
                position,
                fresh,
            ).graph.contains(index) ==> before.pointer_up(position, fresh).graph.nodes[index]
                == before.graph.nodes[index],
{
    let after = before.pointer_up(position, fresh);
    lemma_hovered_node(before.graph, Some(position));
    assert(new_node_at(position).wf());
    match before.at(position).hovered() {
        Some(to) => {
            crate::graph::lemma_changes_keep_wf(before.graph, to, new_node_at(position), to, to);
            if let Gesture::AddingEdge { from } = before.gesture {
                crate::graph::lemma_changes_keep_wf(
                    before.graph,
                    to,
                    new_node_at(position),
                    from,
                    to,
                );
            }
        },
        None => {
            crate::graph::lemma_changes_keep_wf(
                before.graph,
                fresh,
                new_node_at(position),
                fresh,
                fresh,
            );
            if let Gesture::AddingEdge { from } = before.gesture {
                crate::graph::lemma_changes_keep_wf(
                    before.graph,
                    fresh,
                    new_node_at(position),
                    from,
                    from,
                );
            }
        },
    }
}

/// A release of the pointer over a node, after a press on that node with
/// Control held, removes that node and nothing else: the node and every edge
/// at it are gone, there is one node fewer, and the other nodes and edges
/// are as they were.
pub proof fn lemma_delete_removes_the_hovered_node(
    before: ViewerState,
    position: Point,
    fresh: NodeIndex,
    index: NodeIndex,
    found: Result<Node, GraphError>,
    listed: Result<Vec<NodeIndex>, GraphError>,
    available: bool,
)
    requires
        before.gesture is Deleting,
        before.graph.wf(),
        before.at(position).hovered() == Some(index),
        get_node_outcome(before.pointer_up(position, fresh).graph, index, found, available),
        node_indices_outcome(before.pointer_up(position, fresh).graph, listed, available),
    ensures
        before.pointer_up(position, fresh).gesture == Gesture::Inactive,
        before.pointer_up(position, fresh).graph == before.graph.without_node(index),
        before.graph.contains(index),
        !before.pointer_up(position, fresh).graph.contains(index),
        before.pointer_up(position, fresh).graph.nodes.dom().len() == before.graph.nodes.dom().len()
            - 1,
        found is Err,
        available ==> found == Err::<Node, GraphError>(GraphError::NotFound),
        listed matches Ok(indices) ==> !indices@.contains(index) && indices@.len()
            == before.graph.nodes.dom().len() - 1,
        forall|other: NodeIndex|
            other != index ==> {
                &&& before.pointer_up(position, fresh).graph.contains(other)
                    == before.graph.contains(other)
                &&& before.pointer_up(position, fresh).graph.nodes[other]
                    == before.graph.nodes[other]
            },
        forall|from: NodeIndex, to: NodeIndex|
            #[trigger] before.pointer_up(position, fresh).graph.edges.contains((from, to))
                <==> from != index && to != index && before.graph.edges.contains((from, to)),
{
    let after = before.pointer_up(position, fresh);
    lemma_hovered_node(before.graph, Some(position));
    if let Ok(indices) = listed {
        indices@.unique_seq_to_set();
        if indices@.contains(index) {
            assert(indices@.to_set().contains(index));
        }
    }
}

/// A move of the pointer keeps every node and every edge in the graph. It
/// changes no title and no radius, and no centre but that of a node that is
/// being dragged.
pub proof fn lemma_move_keeps_state_sound(before: ViewerState, position: Point)
    requires
        before.wf(),
        before.graph.wf(),
    ensures
        before.pointer_move(position).wf(),
        before.pointer_move(position).graph.wf(),
        before.pointer_move(position).gesture == before.gesture,
        before.pointer_move(position).graph.edges == before.graph.edges,
        before.pointer_move(position).graph.nodes.dom() == before.graph.nodes.dom(),
        forall|index: NodeIndex|
            {
                let moved = #[trigger] before.pointer_move(position).graph.nodes[index];
                &&& moved.title == before.graph.nodes[index].title
                &&& moved.circle.radius == before.graph.nodes[index].circle.radius
                &&& !(before.gesture matches Gesture::MovingNode { node_id, .. } && node_id
                    == index) ==> moved == before.graph.nodes[index]
            },
{
    let after = before.pointer_move(position);
    assert(after.graph.nodes.dom() =~= before.graph.nodes.dom());
    if let Gesture::MovingNode { node_id, initial_distance } = before.gesture {
        let moved = node_moved_to(
            before.graph.nodes[node_id],
            position.spec_translate(initial_distance),
        );
        assert(before.graph.nodes[node_id].wf());
        crate::graph::lemma_changes_keep_wf(before.graph, node_id, moved, node_id, node_id);
    }
}

/// A key event keeps every node and every edge in the graph. It changes no
/// circle, and no title but that of a node that is being edited.
pub proof fn lemma_key_keeps_state_sound(before: ViewerState, key: KeyEventView)
    requires
        before.wf(),
        before.graph.wf(),
    ensures
        before.key(key).wf(),
        before.key(key).graph.wf(),
        before.key(key).mouse_position == before.mouse_position,
        before.key(key).graph.edges == before.graph.edges,
        before.key(key).graph.nodes.dom() == before.graph.nodes.dom(),
        forall|index: NodeIndex|
            {
                let edited = #[trigger] before.key(key).graph.nodes[index];
                &&& edited.circle == before.graph.nodes[index].circle
                &&& !(before.gesture matches Gesture::Editing { node_id } && node_id == index)
                    ==> edited == before.graph.nodes[index]
            },
{
    let after = before.key(key);
    assert(after.graph.nodes.dom() =~= before.graph.nodes.dom());
    if let Gesture::Editing { node_id } = before.gesture {
        assert(before.graph.nodes[node_id].wf());
        if let Some(title) = spec_update_title(before.graph.nodes[node_id].title, key.text) {
            let edited = node_retitled(before.graph.nodes[node_id], title);
            crate::graph::lemma_changes_keep_wf(before.graph, node_id, edited, node_id, node_id);
        }
    }
}

/// A press or release of Escape that is no repeat ends the gesture, whatever
/// it is and whatever text the key carries, and changes nothing else: the
/// graph, the held hotkeys and the pointer's position are as they were.
pub proof fn lemma_escape_only_ends_the_gesture(before: ViewerState, key: KeyEventView)
    requires
        !key.repeat,
        key.physical_key == PhysicalKey::Code(KeyCode::Escape),
    ensures
        before.key(key) == (ViewerState { gesture: Gesture::Inactive, ..before }),
{
}

/// A node that is dragged without a move of the pointer stays where it is,
/// as long as its distance from the pointer fits an `i64`.
pub proof fn lemma_drag_starts_in_place(before: ViewerState, position: Point, hovered: NodeIndex)
    requires
        before.gesture is Inactive || before.gesture is Editing,
        before.hotkey_state.space,
        before.at(position).hovered() == Some(hovered),
        i64::MIN <= before.graph.nodes[hovered].circle.center.x - position.x <= i64::MAX,
        i64::MIN <= before.graph.nodes[hovered].circle.center.y - position.y <= i64::MAX,
    ensures
        before.pointer_down(position).gesture is MovingNode,
        before.pointer_down(position).pointer_move(position).graph == before.graph,
{
    lemma_hovered_node(before.graph, Some(position));
    let pressed = before.pointer_down(position);
    let moved = pressed.pointer_move(position);
    crate::shapes::lemma_offset_round_trip(before.graph.nodes[hovered].circle.center, position);
    assert(moved.graph.nodes =~= before.graph.nodes);
}

/// `error` reports that the store could not be reached, which a store that
/// is always available never does. A viewer that keeps its invariant fails
/// for no other reason.
pub open spec fn is_outage(error: GraphError, available: bool) -> bool {
    error == GraphError::BackendUnavailable && !available
}

/// What holds after a press of the pointer at `position`: either it went
/// through, and the gesture is the one that the node under the pointer and
/// the held hotkeys call for, or the store could not be reached, and the
/// gesture is dropped. The store is asked only where the press is not
/// ignored. The position is remembered either way.
pub open spec fn press_outcome(
    before: ViewerState,
    position: Point,
    after: ViewerState,
    result: Result<(), GraphError>,
    available: bool,
) -> bool {
    match result {
        Ok(_) => after == before.pointer_down(position),
        Err(error) => {
            &&& is_outage(error, available)
            &&& before.gesture is Inactive || before.gesture is Editing
            &&& after == ViewerState { gesture: Gesture::Inactive, ..before.at(position) }
        },
    }
}

/// What holds after a release of the pointer at `position`: either it went
/// through, and the gesture was committed as the node under the pointer
/// calls for, or the store could not be reached, and the gesture is dropped
/// with the graph as it was before the release. The store is asked only
/// where there is something to commit. The position is remembered either
/// way.
pub open spec fn release_outcome(
    before: ViewerState,
    position: Point,
    after: ViewerState,
    result: Result<(), GraphError>,
    available: bool,
) -> bool {
    match result {
        Ok(_) => exists|fresh: NodeIndex|
            {
                &&& before.at(position).up_makes_node() ==> !before.graph.contains(fresh)
                &&& after == #[trigger] before.pointer_up(position, fresh)
            },
        Err(error) => {
            &&& is_outage(error, available)
            &&& before.up_asks_store()
            &&& after == ViewerState { gesture: Gesture::Inactive, ..before.at(position) }
        },
    }
}

/// What holds after the pointer moved to `position`: either the move went
/// through, or the store could not be reached, and the gesture is dropped.
/// The position is remembered either way.
pub open spec fn move_outcome(
    before: ViewerState,
    position: Point,
    after: ViewerState,
    result: Result<(), GraphError>,
    available: bool,
) -> bool {
    match result {
        Ok(_) => after == before.pointer_move(position),
        Err(error) => {
            &&& is_outage(error, available)
            &&& before.gesture is MovingNode
            &&& after == ViewerState { gesture: Gesture::Inactive, ..before.at(position) }
        },
    }
}

/// What holds after a pointer event.
pub open spec fn pointer_event_outcome(
    before: ViewerState,
    event: PointerEvent,
    after: ViewerState,
    result: Result<(), GraphError>,
    available: bool,
) -> bool {
    match event {
        PointerEvent::PointerDown(position) => press_outcome(
            before,
            position,
            after,
            result,
            available,
        ),
        PointerEvent::PointerUp(position) => release_outcome(
            before,
            position,
            after,
            result,
            available,
        ),
        PointerEvent::PointerMove(position) => move_outcome(
            before,
            position,
            after,
            result,
            available,
        ),
    }
}

/// What holds after a key event: either it went through, or the store could
/// not be reached while the key edited a title, and the gesture is dropped
/// with the graph as it was. The hotkeys are updated either way.
pub open spec fn key_outcome(
    before: ViewerState,
    key: KeyEventView,
    after: ViewerState,
    result: Result<(), GraphError>,
    available: bool,
) -> bool {
    match result {
        Ok(_) => after == before.key(key),
        Err(error) => {
            &&& is_outage(error, available)
            &&& before.key_edits(key)
            &&& after == ViewerState {
                gesture: Gesture::Inactive,
                hotkey_state: before.hotkeys_after_key(key),
                ..before
            }
        },
    }
}

/// The interactive editor of a graph: the gesture in progress, the graph
/// store, the held hotkeys and the pointer's last position in the world.
pub struct GraphViewer<G> {
    gesture: Gesture,
    graph: G,
    hotkey_state: HotkeyState,
    mouse_position: Option<Point>,
}

impl<G: Graph> GraphViewer<G> {
    pub closed spec fn view(&self) -> ViewerState {
        ViewerState {
            gesture: self.gesture,
            graph: self.graph@,
            hotkey_state: self.hotkey_state,
            mouse_position: self.mouse_position,
        }
    }

    /// The store keeps its invariant, and the node that the gesture is about
    /// is in the graph.
    pub closed spec fn inv(&self) -> bool {
        self.graph.inv() && self@.wf()
    }

    /// A viewer that keeps its invariant holds a well-formed graph, and the
    /// node that its gesture is about is in that graph.
    pub proof fn lemma_inv_implies_wf(&self)
        requires
            self.inv(),
        ensures
            self@.wf(),
            self@.graph.wf(),
    {
        self.graph.lemma_inv_implies_wf();
    }

    /// A viewer of `graph`, with no gesture in progress, no hotkey held and
    /// no pointer seen yet.
    pub fn new(graph: G) -> (viewer: GraphViewer<G>)
        requires
            graph.inv(),
        ensures
            viewer.inv(),
            viewer@ == (ViewerState {
                gesture: Gesture::Inactive,
                graph: graph@,
                hotkey_state: HotkeyState { control: false, space: false },
                mouse_position: None,
            }),
    {
        GraphViewer {
            gesture: Gesture::Inactive,
            graph,
            hotkey_state: HotkeyState { control: false, space: false },
            mouse_position: None,
        }
    }

    /// The gesture in progress.
    pub fn gesture(&self) -> (gesture: Gesture)
        ensures
            gesture == self@.gesture,
    {
        self.gesture
    }

    /// The graph store.
    pub fn graph(&self) -> (graph: &G)
        ensures
            graph@ == self@.graph,
            self.inv() ==> graph.inv(),
    {
        &self.graph
    }

    /// The held hotkeys.
    pub fn hotkey_state(&self) -> (state: HotkeyState)
        ensures
            state == self@.hotkey_state,
    {
        self.hotkey_state
    }

    /// Where the pointer was last seen in the world.
    pub fn mouse_position(&self) -> (position: Option<Point>)
        ensures
            position == self@.mouse_position,
    {
        self.mouse_position
    }

    /// Records where the pointer is in the world, or that it is nowhere.
    /// This is for a pointer that rests while the view changes under it; a
    /// pointer that moves is reported by a `PointerMove` event.
    pub fn set_mouse_position(&mut self, position: Option<Point>)
        ensures
            old(self).inv() ==> final(self).inv(),
            final(self)@ == (ViewerState { mouse_position: position, ..old(self)@ }),
    {
        self.mouse_position = position;
    }

    /// The shape that the pointer should take.
    pub fn cursor_icon(&self) -> (icon: CursorIcon)
        ensures
            icon == self@.cursor_icon(),
    {
        match self.gesture {
            Gesture::Inactive => if self.hotkey_state.space {
                CursorIcon::Grab
            } else {
                CursorIcon::Default
            },
            Gesture::MovingNode { .. } => CursorIcon::Grabbing,
            Gesture::Panning => CursorIcon::Grabbing,
            _ => CursorIcon::Default,
        }
    }

    /// What `event` does to the view of the world. This is asked before the
    /// event is handled, since a view that changes moves the world under the
    /// pointer.
    pub fn view_change(&self, event: ViewEvent) -> (change: ViewChange)
        ensures
            change == self@.view_change(event),
    {
        match event {
            ViewEvent::PointerMove => match (self.gesture, self.mouse_position) {
                (Gesture::Panning, Some(_)) => ViewChange::Pan,
                _ => ViewChange::Keep,
            },
            ViewEvent::MouseWheel => ViewChange::Scroll,
            ViewEvent::Pinch => match self.mouse_position {
                Some(_) => ViewChange::Zoom,
                None => ViewChange::Keep,
            },
        }
    }

    /// The node under the pointer, if there is one. Where several nodes are
    /// under it, the one that the store lists first is returned, which is
    /// the one with the lowest identifier.
    pub fn hovered_circle(&self) -> (result: Result<Option<NodeIndex>, GraphError>)
        requires
            self.inv(),
        ensures
            match result {
                Ok(hovered) => hovered == self@.hovered(),
                Err(error) => {
                    &&& is_outage(error, G::always_available())
                    &&& self@.mouse_position is Some
                },
            },
    {
        let Some(mouse_position) = self.mouse_position else {
            return Ok(None);
        };
        let indices = match self.graph.node_indices() {
            Ok(indices) => indices,
            Err(error) => {
                return Err(error);
            },
        };
        let result = hit_test(&self.graph, &indices, mouse_position);
        proof {
            if let Ok(hit) = result {
                lemma_first_listed_hit_is_hovered(self@.graph, indices@, mouse_position, hit);
            }
        }
        result
    }

    /// Handles a pointer event.
    pub fn on_pointer_event(&mut self, event: &PointerEvent) -> (result: Result<(), GraphError>)
        requires
            old(self).inv(),
        ensures
            final(self).inv(),
            pointer_event_outcome(old(self)@, *event, final(self)@, result, G::always_available()),
    {
        match *event {
            PointerEvent::PointerMove(position) => self.on_pointer_move(position),
            PointerEvent::PointerDown(position) => self.on_pointer_down(position),
            PointerEvent::PointerUp(position) => self.on_pointer_up(position),
        }
    }

    fn on_pointer_move(&mut self, position: Point) -> (result: Result<(), GraphError>)
        requires
            old(self).inv(),
        ensures
            final(self).inv(),
            move_outcome(old(self)@, position, final(self)@, result, G::always_available()),
    {
        self.mouse_position = Some(position);
        if let Gesture::MovingNode { node_id, initial_distance } = self.gesture {
            proof {
                self.graph.lemma_inv_implies_wf();
            }
            let mut node = match self.graph.get_node(node_id) {
                Ok(node) => node,
                Err(error) => {
                    self.gesture = Gesture::Inactive;
                    return Err(error);
                },
            };
            node.circle.center = position.translate(initial_distance);
            match self.graph.set_node(node_id, node) {
                Ok(_) => {},
                Err(error) => {
                    self.gesture = Gesture::Inactive;
                    return Err(error);
                },
            }
        }
        Ok(())
    }

    fn on_pointer_down(&mut self, position: Point) -> (result: Result<(), GraphError>)
        requires
            old(self).inv(),
        ensures
            final(self).inv(),
            press_outcome(old(self)@, position, final(self)@, result, G::always_available()),
    {
        self.mouse_position = Some(position);
        match self.gesture {
            Gesture::Inactive | Gesture::Editing { .. } => {},
            _ => {
                return Ok(());
            },
        }
        let hovered = match self.hovered_circle() {
            Ok(hovered) => hovered,
            Err(error) => {
                self.gesture = Gesture::Inactive;
                return Err(error);
            },
        };
        proof {
            lemma_hovered_node(self@.graph, Some(position));
        }
        let space: bool = self.hotkey_state.get(Hotkey::Space);
        let control: bool = self.hotkey_state.get(Hotkey::Control);
        let gesture = match hovered {
            Some(circle) => if space {
                let node = match self.graph.get_node(circle) {
                    Ok(node) => node,
                    Err(error) => {
                        self.gesture = Gesture::Inactive;
                        return Err(error);
                    },
                };
                Gesture::MovingNode {
                    node_id: circle,
                    initial_distance: node.circle.center.offset_from(position),
                }
            } else if control {
                Gesture::Deleting
            } else {
                Gesture::AddingEdge { from: circle }
            },
            None => if space {
                Gesture::Panning
            } else if control {
                self.gesture
            } else {
                Gesture::AddingNode
            },
        };
        self.gesture = gesture;
        Ok(())
    }

    fn on_pointer_up(&mut self, position: Point) -> (result: Result<(), GraphError>)
        requires
            old(self).inv(),
        ensures
            final(self).inv(),
            release_outcome(old(self)@, position, final(self)@, result, G::always_available()),
    {
        self.mouse_position = Some(position);
        let gesture = self.gesture;
        self.gesture = Gesture::Inactive;
        let ghost mut fresh: NodeIndex = 0;
        match gesture {
            Gesture::AddingNode | Gesture::AddingEdge { .. } | Gesture::Deleting => {},
            _ => {
                proof {
                    assert(self@ == old(self)@.pointer_up(position, fresh));
                }
                return Ok(());
            },
        }
        let hovered = match self.hovered_circle() {
            Ok(hovered) => hovered,
            Err(error) => {
                return Err(error);
            },
        };
        proof {
            lemma_hovered_node(self@.graph, Some(position));
        }
        match (gesture, hovered) {
            (Gesture::AddingNode, None) => {
                let node = Node::new(Circle::new(position, CIRCLE_RADIUS), String::new());
                match self.graph.add_node(node) {
                    Ok(index) => {
                        proof {
                            fresh = index;
                        }
                    },
                    Err(error) => {
                        return Err(error);
                    },
                }
            },
            (Gesture::AddingEdge { from }, None) => {
                let node = Node::new(Circle::new(position, CIRCLE_RADIUS), String::new());
                match self.graph.add_node_with_edge(from, node) {
                    Ok(index) => {
                        proof {
                            fresh = index;
                        }
                    },
                    Err(error) => {
                        return Err(error);
                    },
                }
            },
            (Gesture::AddingEdge { from }, Some(to)) => {
                if from == to {
                    self.gesture = Gesture::Editing { node_id: to };
                } else {
                    match self.graph.add_edge(from, to) {
                        Ok(_) => {},
                        Err(error) => {
                            return Err(error);
                        },
                    }
                }
            },
            (Gesture::Deleting, Some(node_id)) => {
                match self.graph.remove_node(node_id) {
                    Ok(_) => {},
                    Err(error) => {
                        return Err(error);
                    },
                }
            },
            _ => {},
        }
        proof {
            assert(self@ == old(self)@.pointer_up(position, fresh));
        }
        Ok(())
    }

    /// Handles an event of the text input.
    pub fn on_text_event(&mut self, event: &TextEvent) -> (result: Result<(), GraphError>)
        requires
            old(self).inv(),
        ensures
            final(self).inv(),
            match *event {
                TextEvent::KeyboardKey(key) => key_outcome(
                    old(self)@,
                    key@,
                    final(self)@,
                    result,
                    G::always_available(),
                ),
                TextEvent::Other => result is Ok && final(self)@ == old(self)@,
            },
    {
        let TextEvent::KeyboardKey(key) = event else {
            return Ok(());
        };
        let escape: bool = key.physical_key == PhysicalKey::Code(KeyCode::Escape);
        let mut result: Result<(), GraphError> = Ok(());
        if !escape {
            if let Gesture::Editing { node_id } = self.gesture {
                result = self.edit_title(node_id, key);
            }
        }
        if !key.repeat {
            if escape {
                self.gesture = Gesture::Inactive;
            } else if let Some(hotkey) = Hotkey::from_physical_key(key.physical_key) {
                match key.state {
                    ElementState::Pressed => {
                        self.hotkey_state.set(hotkey, true);
                    },
                    ElementState::Released => {
                        self.hotkey_state.set(hotkey, false);
                    },
                }
            }
        }
        if result.is_err() {
            self.gesture = Gesture::Inactive;
        }
        result
    }

    /// Applies a key event, which is none of Escape, to the title of the
    /// node `node_id`.
    fn edit_title(&mut self, node_id: NodeIndex, key: &KeyEvent) -> (result: Result<(), GraphError>)
        requires
            old(self).inv(),
            old(self)@.gesture == (Gesture::Editing { node_id }),
            key@.physical_key != PhysicalKey::Code(KeyCode::Escape),
        ensures
            final(self).inv(),
            final(self)@ == (ViewerState { graph: final(self)@.graph, ..old(self)@ }),
            match result {
                Ok(_) => final(self)@.graph == old(self)@.graph_after_key(key@),
                Err(error) => {
                    &&& is_outage(error, G::always_available())
                    &&& final(self)@.graph == old(self)@.graph
                },
            },
    {
        proof {
            self.graph.lemma_inv_implies_wf();
        }
        let mut node = match self.graph.get_node(node_id) {
            Ok(node) => node,
            Err(error) => {
                return Err(error);
            },
        };
        if let Some(new_title) = update_title(node.title.as_str(), key) {
            node.title = new_title;
            match self.graph.set_node(node_id, node) {
                Ok(_) => {},
                Err(error) => {
                    return Err(error);
                },
            }
        }
        Ok(())
    }
}

/// A hit test that goes by a store's own list finds the hovered node: the
/// first hit in a list of all nodes by increasing identifier is the lowest
/// node that is hit.
pub proof fn lemma_first_listed_hit_is_hovered(
    graph: GraphView,
    listed: Seq<NodeIndex>,
    point: Point,
    hit: Option<NodeIndex>,
)
    requires
        crate::graph::is_increasing(listed),
        listed.to_set() == graph.nodes.dom(),
        is_first_hit(graph, listed, point, hit),
    ensures
        hit == hovered_node(graph, Some(point)),
{
    match hit {
        Some(index) => {
            let k = choose|k: int|
                {
                    &&& 0 <= k < listed.len()
                    &&& #[trigger] listed[k] == index
                    &&& node_is_hit(graph, index, point)
                    &&& forall|j: int|
                        0 <= j < k ==> !node_is_hit(graph, #[trigger] listed[j], point)
                };
            assert forall|other: NodeIndex| #[trigger]
                node_is_hit(graph, other, point) implies index <= other by {
                assert(listed.to_set().contains(other));
                let m = choose|m: int| 0 <= m < listed.len() && listed[m] == other;
                if m < k {
                    assert(!node_is_hit(graph, listed[m], point));
                }
            }
            lemma_lowest_hit_is_hovered(graph, point, index);
        },
        None => {
            assert forall|other: NodeIndex| !node_is_hit(graph, other, point) by {
                if node_is_hit(graph, other, point) {
                    assert(listed.to_set().contains(other));
                    let m = choose|m: int| 0 <= m < listed.len() && listed[m] == other;
                    assert(!node_is_hit(graph, listed[m], point));
                }
            }
        },
    }
}

impl Default for GraphViewer<PetgraphGraph> {
    /// A viewer of an empty in-memory graph.
    fn default() -> (viewer: GraphViewer<PetgraphGraph>)
        ensures
            viewer.inv(),
            viewer@ == (ViewerState {
                gesture: Gesture::Inactive,
                graph: GraphView::empty(),
                hotkey_state: HotkeyState { control: false, space: false },
                mouse_position: None,
            }),
    {
        GraphViewer::new(PetgraphGraph::new())
    }
}

} // verus!
