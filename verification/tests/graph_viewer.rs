use ekad::graph::{Graph, GraphError, GraphView, Node, NodeIndex, PetgraphGraph};
use ekad::graph_viewer::{
    hit_test, update_title, CursorIcon, ElementState, Gesture, GraphViewer, Hotkey, HotkeyState,
    KeyCode, KeyEvent, PhysicalKey, PointerEvent, TextEvent, ViewChange, ViewEvent,
    CIRCLE_RADIUS,
};
use ekad::shapes::{Circle, Point, Vec2};
use std::cell::Cell;

fn viewer() -> GraphViewer<PetgraphGraph> {
    GraphViewer::new(PetgraphGraph::new())
}

fn viewer_with(nodes: &[(i64, i64)]) -> (GraphViewer<PetgraphGraph>, Vec<NodeIndex>) {
    let mut graph = PetgraphGraph::new();
    let mut indices = Vec::new();
    for &(x, y) in nodes {
        let node = Node::new(Circle::new(Point::new(x, y), CIRCLE_RADIUS), String::new());
        indices.push(graph.add_node(node).unwrap());
    }
    (GraphViewer::new(graph), indices)
}

fn key(code: KeyCode, state: ElementState) -> TextEvent {
    TextEvent::KeyboardKey(KeyEvent {
        physical_key: PhysicalKey::Code(code),
        text: None,
        state,
        repeat: false,
    })
}

fn typed(text: &str) -> TextEvent {
    TextEvent::KeyboardKey(KeyEvent {
        physical_key: PhysicalKey::Code(KeyCode::Other),
        text: Some(text.to_string()),
        state: ElementState::Pressed,
        repeat: false,
    })
}

fn key_event(text: Option<&str>) -> KeyEvent {
    KeyEvent {
        physical_key: PhysicalKey::Code(KeyCode::Other),
        text: text.map(|t| t.to_string()),
        state: ElementState::Pressed,
        repeat: false,
    }
}

fn move_to<G: Graph>(viewer: &mut GraphViewer<G>, x: i64, y: i64) -> Result<(), GraphError> {
    viewer.on_pointer_event(&PointerEvent::PointerMove(Point::new(x, y)))
}

/// Presses where the pointer was last seen.
fn press<G: Graph>(viewer: &mut GraphViewer<G>) -> Result<(), GraphError> {
    let position = viewer.mouse_position().unwrap();
    viewer.on_pointer_event(&PointerEvent::PointerDown(position))
}

/// Releases where the pointer was last seen.
fn release<G: Graph>(viewer: &mut GraphViewer<G>) -> Result<(), GraphError> {
    let position = viewer.mouse_position().unwrap();
    viewer.on_pointer_event(&PointerEvent::PointerUp(position))
}

fn press_at<G: Graph>(viewer: &mut GraphViewer<G>, x: i64, y: i64) -> Result<(), GraphError> {
    viewer.on_pointer_event(&PointerEvent::PointerDown(Point::new(x, y)))
}

fn release_at<G: Graph>(viewer: &mut GraphViewer<G>, x: i64, y: i64) -> Result<(), GraphError> {
    viewer.on_pointer_event(&PointerEvent::PointerUp(Point::new(x, y)))
}

fn node_count<G: Graph>(viewer: &GraphViewer<G>) -> usize {
    viewer.graph().node_indices().unwrap().len()
}

/// A store that fails on demand: once armed, it answers `calls` more calls,
/// then reports an outage for the `outage` calls that follow, then works
/// again.
struct FlakyGraph {
    inner: PetgraphGraph,
    calls: Cell<usize>,
    outage: Cell<usize>,
}

impl FlakyGraph {
    fn new(inner: PetgraphGraph) -> Self {
        FlakyGraph { inner, calls: Cell::new(0), outage: Cell::new(0) }
    }

    fn fail_after(&self, calls: usize, outage: usize) {
        self.calls.set(calls);
        self.outage.set(outage);
    }

    fn reach(&self) -> Result<(), GraphError> {
        if self.outage.get() == 0 {
            return Ok(());
        }
        if self.calls.get() > 0 {
            self.calls.set(self.calls.get() - 1);
            return Ok(());
        }
        self.outage.set(self.outage.get() - 1);
        Err(GraphError::BackendUnavailable)
    }
}

impl Graph for FlakyGraph {
    // The first four items are read by the verifier only; nothing runs them.
    fn view(&self) -> GraphView {
        unreachable!()
    }

    fn inv(&self) -> bool {
        unreachable!()
    }

    fn always_available() -> bool {
        unreachable!()
    }

    fn lemma_inv_implies_wf(&self) {
        unreachable!()
    }

    fn add_edge(&mut self, from: NodeIndex, to: NodeIndex) -> Result<(), GraphError> {
        self.reach()?;
        self.inner.add_edge(from, to)
    }

    fn add_node(&mut self, node: Node) -> Result<NodeIndex, GraphError> {
        self.reach()?;
        self.inner.add_node(node)
    }

    fn add_node_with_edge(&mut self, from: NodeIndex, node: Node) -> Result<NodeIndex, GraphError> {
        self.reach()?;
        self.inner.add_node_with_edge(from, node)
    }

    fn get_node(&self, index: NodeIndex) -> Result<Node, GraphError> {
        self.reach()?;
        self.inner.get_node(index)
    }

    fn neighbors(&self, index: NodeIndex) -> Result<Vec<NodeIndex>, GraphError> {
        self.reach()?;
        self.inner.neighbors(index)
    }

    fn node_indices(&self) -> Result<Vec<NodeIndex>, GraphError> {
        self.reach()?;
        self.inner.node_indices()
    }

    fn remove_node(&mut self, index: NodeIndex) -> Result<(), GraphError> {
        self.reach()?;
        self.inner.remove_node(index)
    }

    fn set_node(&mut self, index: NodeIndex, node: Node) -> Result<(), GraphError> {
        self.reach()?;
        self.inner.set_node(index, node)
    }
}

fn flaky_with(nodes: &[(i64, i64)]) -> (GraphViewer<FlakyGraph>, Vec<NodeIndex>) {
    let mut graph = FlakyGraph::new(PetgraphGraph::new());
    let mut indices = Vec::new();
    for &(x, y) in nodes {
        let node = Node::new(Circle::new(Point::new(x, y), CIRCLE_RADIUS), String::new());
        indices.push(graph.add_node(node).unwrap());
    }
    (GraphViewer::new(graph), indices)
}

#[test]
fn new_viewer_is_idle() {
    let viewer = viewer();
    assert_eq!(viewer.gesture(), Gesture::Inactive);
    assert_eq!(viewer.hotkey_state(), HotkeyState { control: false, space: false });
    assert_eq!(viewer.mouse_position(), None);
    assert_eq!(viewer.hovered_circle(), Ok(None));
    assert_eq!(viewer.cursor_icon(), CursorIcon::Default);
    assert_eq!(Gesture::default(), Gesture::Inactive);
    assert_eq!(HotkeyState::default(), HotkeyState { control: false, space: false });
}

#[test]
fn click_on_empty_space_creates_one_node() {
    let mut viewer = viewer();
    assert_eq!(press_at(&mut viewer, 100, 100), Ok(()));
    assert_eq!(viewer.gesture(), Gesture::AddingNode);
    assert_eq!(viewer.mouse_position(), Some(Point::new(100, 100)));
    assert_eq!(release_at(&mut viewer, 100, 100), Ok(()));
    assert_eq!(viewer.gesture(), Gesture::Inactive);
    let indices = viewer.graph().node_indices().unwrap();
    assert_eq!(indices.len(), 1);
    let node = viewer.graph().get_node(indices[0]).unwrap();
    assert_eq!(node, Node::new(Circle::new(Point::new(100, 100), 40), String::new()));
    assert_eq!(viewer.graph().neighbors(indices[0]), Ok(vec![]));
}

#[test]
fn press_and_release_act_where_they_happen() {
    let (mut viewer, indices) = viewer_with(&[(0, 0)]);
    move_to(&mut viewer, 500, 500).unwrap();
    // the press is on the node, though the last move was far from it
    assert_eq!(press_at(&mut viewer, 3, 3), Ok(()));
    assert_eq!(viewer.gesture(), Gesture::AddingEdge { from: indices[0] });
    // and the release is on empty space, though no move led there
    assert_eq!(release_at(&mut viewer, 300, 0), Ok(()));
    assert_eq!(viewer.gesture(), Gesture::Inactive);
    assert_eq!(viewer.mouse_position(), Some(Point::new(300, 0)));
    let targets = viewer.graph().neighbors(indices[0]).unwrap();
    assert_eq!(targets.len(), 1);
    assert_eq!(
        viewer.graph().get_node(targets[0]).unwrap().circle,
        Circle::new(Point::new(300, 0), 40)
    );
}

#[test]
fn adding_node_released_over_a_node_is_discarded() {
    let (mut viewer, _) = viewer_with(&[(0, 0)]);
    move_to(&mut viewer, 200, 200).unwrap();
    press(&mut viewer).unwrap();
    assert_eq!(viewer.gesture(), Gesture::AddingNode);
    move_to(&mut viewer, 10, 10).unwrap();
    assert_eq!(release(&mut viewer), Ok(()));
    assert_eq!(viewer.gesture(), Gesture::Inactive);
    assert_eq!(node_count(&viewer), 1);
}

#[test]
fn click_on_a_node_starts_editing_and_adds_no_edge() {
    let (mut viewer, indices) = viewer_with(&[(0, 0)]);
    let a = indices[0];
    move_to(&mut viewer, 5, -5).unwrap();
    assert_eq!(viewer.hovered_circle(), Ok(Some(a)));
    assert_eq!(press(&mut viewer), Ok(()));
    assert_eq!(viewer.gesture(), Gesture::AddingEdge { from: a });
    assert_eq!(release(&mut viewer), Ok(()));
    assert_eq!(viewer.gesture(), Gesture::Editing { node_id: a });
    assert_eq!(viewer.graph().neighbors(a), Ok(vec![]));
    assert_eq!(node_count(&viewer), 1);
}

#[test]
fn drag_from_node_to_node_adds_an_edge() {
    let (mut viewer, indices) = viewer_with(&[(0, 0), (200, 0)]);
    let (a, b) = (indices[0], indices[1]);
    move_to(&mut viewer, 0, 0).unwrap();
    press(&mut viewer).unwrap();
    assert_eq!(viewer.gesture(), Gesture::AddingEdge { from: a });
    move_to(&mut viewer, 190, 10).unwrap();
    assert_eq!(viewer.gesture(), Gesture::AddingEdge { from: a });
    assert_eq!(release(&mut viewer), Ok(()));
    assert_eq!(viewer.gesture(), Gesture::Inactive);
    assert_eq!(viewer.graph().neighbors(a), Ok(vec![b]));
    assert_eq!(viewer.graph().neighbors(b), Ok(vec![]));
    assert_eq!(node_count(&viewer), 2);
}

#[test]
fn drag_from_node_to_empty_space_adds_node_and_edge() {
    let (mut viewer, indices) = viewer_with(&[(0, 0)]);
    let a = indices[0];
    move_to(&mut viewer, 0, 0).unwrap();
    press(&mut viewer).unwrap();
    move_to(&mut viewer, 300, -120).unwrap();
    assert_eq!(release(&mut viewer), Ok(()));
    assert_eq!(viewer.gesture(), Gesture::Inactive);
    assert_eq!(node_count(&viewer), 2);
    let targets = viewer.graph().neighbors(a).unwrap();
    assert_eq!(targets.len(), 1);
    let b = targets[0];
    assert_ne!(a, b);
    assert_eq!(
        viewer.graph().get_node(b),
        Ok(Node::new(Circle::new(Point::new(300, -120), 40), String::new()))
    );
    assert_eq!(viewer.graph().neighbors(b), Ok(vec![]));
}

#[test]
fn control_click_on_a_node_removes_it() {
    let (mut viewer, indices) = viewer_with(&[(0, 0), (200, 0)]);
    let (a, b) = (indices[0], indices[1]);
    {
        // an edge to the node that will go
        move_to(&mut viewer, 200, 0).unwrap();
        press(&mut viewer).unwrap();
        move_to(&mut viewer, 0, 0).unwrap();
        release(&mut viewer).unwrap();
        assert_eq!(viewer.graph().neighbors(b), Ok(vec![a]));
    }
    viewer.on_text_event(&key(KeyCode::ControlLeft, ElementState::Pressed)).unwrap();
    let before = node_count(&viewer);
    assert_eq!(press(&mut viewer), Ok(()));
    assert_eq!(viewer.gesture(), Gesture::Deleting);
    assert_eq!(release(&mut viewer), Ok(()));
    assert_eq!(viewer.gesture(), Gesture::Inactive);
    assert_eq!(node_count(&viewer), before - 1);
    assert_eq!(viewer.graph().get_node(a), Err(GraphError::NotFound));
    assert_eq!(viewer.graph().neighbors(b), Ok(vec![]));
    assert_eq!(viewer.graph().node_indices(), Ok(vec![b]));
}

#[test]
fn deleting_released_over_empty_space_removes_nothing() {
    let (mut viewer, _) = viewer_with(&[(0, 0)]);
    move_to(&mut viewer, 0, 0).unwrap();
    viewer.on_text_event(&key(KeyCode::ControlRight, ElementState::Pressed)).unwrap();
    press(&mut viewer).unwrap();
    assert_eq!(viewer.gesture(), Gesture::Deleting);
    move_to(&mut viewer, 500, 500).unwrap();
    assert_eq!(release(&mut viewer), Ok(()));
    assert_eq!(viewer.gesture(), Gesture::Inactive);
    assert_eq!(node_count(&viewer), 1);
}

#[test]
fn control_click_on_empty_space_changes_nothing() {
    let (mut viewer, indices) = viewer_with(&[(0, 0)]);
    move_to(&mut viewer, 500, 500).unwrap();
    viewer.on_text_event(&key(KeyCode::ControlLeft, ElementState::Pressed)).unwrap();
    assert_eq!(press(&mut viewer), Ok(()));
    assert_eq!(viewer.gesture(), Gesture::Inactive);

    // ... and leaves an edit in progress as it is
    viewer.on_text_event(&key(KeyCode::ControlLeft, ElementState::Released)).unwrap();
    move_to(&mut viewer, 0, 0).unwrap();
    press(&mut viewer).unwrap();
    release(&mut viewer).unwrap();
    assert_eq!(viewer.gesture(), Gesture::Editing { node_id: indices[0] });
    move_to(&mut viewer, 500, 500).unwrap();
    viewer.on_text_event(&key(KeyCode::ControlLeft, ElementState::Pressed)).unwrap();
    assert_eq!(press(&mut viewer), Ok(()));
    assert_eq!(viewer.gesture(), Gesture::Editing { node_id: indices[0] });
}

#[test]
fn space_click_on_empty_space_pans() {
    let mut viewer = viewer();
    move_to(&mut viewer, 10, 10).unwrap();
    viewer.on_text_event(&key(KeyCode::Space, ElementState::Pressed)).unwrap();
    assert_eq!(viewer.cursor_icon(), CursorIcon::Grab);
    assert_eq!(press(&mut viewer), Ok(()));
    assert_eq!(viewer.gesture(), Gesture::Panning);
    assert_eq!(viewer.cursor_icon(), CursorIcon::Grabbing);
    move_to(&mut viewer, 50, 60).unwrap();
    assert_eq!(viewer.gesture(), Gesture::Panning);
    assert_eq!(viewer.mouse_position(), Some(Point::new(50, 60)));
    assert_eq!(release(&mut viewer), Ok(()));
    assert_eq!(viewer.gesture(), Gesture::Inactive);
    assert_eq!(node_count(&viewer), 0);
}

#[test]
fn space_takes_precedence_over_control() {
    let (mut viewer, indices) = viewer_with(&[(0, 0)]);
    viewer.on_text_event(&key(KeyCode::Space, ElementState::Pressed)).unwrap();
    viewer.on_text_event(&key(KeyCode::ControlLeft, ElementState::Pressed)).unwrap();
    move_to(&mut viewer, 3, 4).unwrap();
    press(&mut viewer).unwrap();
    assert_eq!(
        viewer.gesture(),
        Gesture::MovingNode { node_id: indices[0], initial_distance: Vec2::new(-3, -4) }
    );
    release(&mut viewer).unwrap();
    move_to(&mut viewer, 500, 500).unwrap();
    press(&mut viewer).unwrap();
    assert_eq!(viewer.gesture(), Gesture::Panning);
}

#[test]
fn space_drag_moves_the_node_with_the_pointer() {
    let (mut viewer, indices) = viewer_with(&[(100, 100), (400, 400)]);
    let a = indices[0];
    viewer.on_text_event(&key(KeyCode::Space, ElementState::Pressed)).unwrap();
    move_to(&mut viewer, 110, 95).unwrap();
    press(&mut viewer).unwrap();
    assert_eq!(
        viewer.gesture(),
        Gesture::MovingNode { node_id: a, initial_distance: Vec2::new(-10, 5) }
    );
    assert_eq!(viewer.cursor_icon(), CursorIcon::Grabbing);
    move_to(&mut viewer, 210, 45).unwrap();
    assert_eq!(viewer.graph().get_node(a).unwrap().circle, Circle::new(Point::new(200, 50), 40));
    move_to(&mut viewer, -10, -5).unwrap();
    assert_eq!(viewer.graph().get_node(a).unwrap().circle, Circle::new(Point::new(-20, 0), 40));
    assert_eq!(release(&mut viewer), Ok(()));
    assert_eq!(viewer.gesture(), Gesture::Inactive);
    assert_eq!(viewer.graph().get_node(a).unwrap().circle, Circle::new(Point::new(-20, 0), 40));
    assert_eq!(
        viewer.graph().get_node(indices[1]).unwrap().circle,
        Circle::new(Point::new(400, 400), 40)
    );
}

#[test]
fn escape_during_a_move_keeps_the_node_where_it_is() {
    let (mut viewer, indices) = viewer_with(&[(0, 0)]);
    viewer.on_text_event(&key(KeyCode::Space, ElementState::Pressed)).unwrap();
    move_to(&mut viewer, 0, 0).unwrap();
    press(&mut viewer).unwrap();
    move_to(&mut viewer, 70, 80).unwrap();
    viewer.on_text_event(&key(KeyCode::Escape, ElementState::Pressed)).unwrap();
    assert_eq!(viewer.gesture(), Gesture::Inactive);
    assert_eq!(
        viewer.graph().get_node(indices[0]).unwrap().circle,
        Circle::new(Point::new(70, 80), 40)
    );
    move_to(&mut viewer, 0, 0).unwrap();
    assert_eq!(
        viewer.graph().get_node(indices[0]).unwrap().circle,
        Circle::new(Point::new(70, 80), 40)
    );
}

#[test]
fn escape_cancels_a_pending_gesture() {
    let (mut viewer, _) = viewer_with(&[(0, 0)]);
    move_to(&mut viewer, 300, 300).unwrap();
    press(&mut viewer).unwrap();
    assert_eq!(viewer.gesture(), Gesture::AddingNode);
    viewer.on_text_event(&key(KeyCode::Escape, ElementState::Pressed)).unwrap();
    assert_eq!(viewer.gesture(), Gesture::Inactive);
    release(&mut viewer).unwrap();
    assert_eq!(node_count(&viewer), 1);

    move_to(&mut viewer, 0, 0).unwrap();
    press(&mut viewer).unwrap();
    viewer.on_text_event(&key(KeyCode::Escape, ElementState::Pressed)).unwrap();
    move_to(&mut viewer, 300, 300).unwrap();
    release(&mut viewer).unwrap();
    assert_eq!(node_count(&viewer), 1);
}

#[test]
fn repeated_escape_is_ignored() {
    let mut viewer = viewer();
    press_at(&mut viewer, 0, 0).unwrap();
    let repeated = TextEvent::KeyboardKey(KeyEvent {
        physical_key: PhysicalKey::Code(KeyCode::Escape),
        text: None,
        state: ElementState::Pressed,
        repeat: true,
    });
    viewer.on_text_event(&repeated).unwrap();
    assert_eq!(viewer.gesture(), Gesture::AddingNode);
}

#[test]
fn pointer_down_during_a_gesture_is_ignored() {
    let (mut viewer, indices) = viewer_with(&[(0, 0)]);
    move_to(&mut viewer, 0, 0).unwrap();
    press(&mut viewer).unwrap();
    assert_eq!(viewer.gesture(), Gesture::AddingEdge { from: indices[0] });
    move_to(&mut viewer, 300, 300).unwrap();
    viewer.on_text_event(&key(KeyCode::Space, ElementState::Pressed)).unwrap();
    assert_eq!(press(&mut viewer), Ok(()));
    assert_eq!(viewer.gesture(), Gesture::AddingEdge { from: indices[0] });
}

#[test]
fn typing_edits_the_title() {
    let (mut viewer, indices) = viewer_with(&[(0, 0)]);
    let a = indices[0];
    move_to(&mut viewer, 0, 0).unwrap();
    press(&mut viewer).unwrap();
    release(&mut viewer).unwrap();
    assert_eq!(viewer.gesture(), Gesture::Editing { node_id: a });
    assert_eq!(viewer.graph().get_node(a).unwrap().title, "");
    viewer.on_text_event(&typed("h")).unwrap();
    viewer.on_text_event(&typed("i")).unwrap();
    assert_eq!(viewer.graph().get_node(a).unwrap().title, "hi");
    viewer.on_text_event(&typed("\u{8}")).unwrap();
    assert_eq!(viewer.graph().get_node(a).unwrap().title, "h");
    viewer.on_text_event(&typed("\r")).unwrap();
    viewer.on_text_event(&typed("é!")).unwrap();
    assert_eq!(viewer.graph().get_node(a).unwrap().title, "h\né!");
    viewer.on_text_event(&typed("\u{8}")).unwrap();
    viewer.on_text_event(&typed("\u{8}")).unwrap();
    assert_eq!(viewer.graph().get_node(a).unwrap().title, "h\n");
    assert_eq!(viewer.graph().get_node(a).unwrap().circle, Circle::new(Point::new(0, 0), 40));
    assert_eq!(viewer.gesture(), Gesture::Editing { node_id: a });
}

#[test]
fn typing_outside_an_edit_changes_no_title() {
    let (mut viewer, indices) = viewer_with(&[(0, 0)]);
    assert_eq!(viewer.on_text_event(&typed("x")), Ok(()));
    assert_eq!(viewer.graph().get_node(indices[0]).unwrap().title, "");
    assert_eq!(viewer.on_text_event(&TextEvent::Other), Ok(()));
    assert_eq!(viewer.gesture(), Gesture::Inactive);
}

#[test]
fn hotkeys_are_tracked_while_editing() {
    let (mut viewer, indices) = viewer_with(&[(0, 0)]);
    let a = indices[0];
    move_to(&mut viewer, 0, 0).unwrap();
    press(&mut viewer).unwrap();
    release(&mut viewer).unwrap();
    let space_with_text = TextEvent::KeyboardKey(KeyEvent {
        physical_key: PhysicalKey::Code(KeyCode::Space),
        text: Some(" ".to_string()),
        state: ElementState::Pressed,
        repeat: false,
    });
    viewer.on_text_event(&space_with_text).unwrap();
    assert_eq!(viewer.graph().get_node(a).unwrap().title, " ");
    assert_eq!(viewer.hotkey_state(), HotkeyState { control: false, space: true });
    assert_eq!(viewer.cursor_icon(), CursorIcon::Default);
    viewer.on_text_event(&key(KeyCode::Space, ElementState::Released)).unwrap();
    assert_eq!(viewer.hotkey_state(), HotkeyState { control: false, space: false });
    assert_eq!(viewer.graph().get_node(a).unwrap().title, " ");
    viewer.on_text_event(&key(KeyCode::Escape, ElementState::Pressed)).unwrap();
    assert_eq!(viewer.gesture(), Gesture::Inactive);
}

#[test]
fn hotkey_latches_follow_press_and_release() {
    let mut viewer = viewer();
    viewer.on_text_event(&key(KeyCode::ControlRight, ElementState::Pressed)).unwrap();
    assert_eq!(viewer.hotkey_state(), HotkeyState { control: true, space: false });
    viewer.on_text_event(&key(KeyCode::Space, ElementState::Pressed)).unwrap();
    assert_eq!(viewer.hotkey_state(), HotkeyState { control: true, space: true });
    viewer.on_text_event(&key(KeyCode::ControlLeft, ElementState::Released)).unwrap();
    assert_eq!(viewer.hotkey_state(), HotkeyState { control: false, space: true });
    viewer.on_text_event(&key(KeyCode::Other, ElementState::Pressed)).unwrap();
    assert_eq!(viewer.hotkey_state(), HotkeyState { control: false, space: true });
    let repeated_release = TextEvent::KeyboardKey(KeyEvent {
        physical_key: PhysicalKey::Code(KeyCode::Space),
        text: None,
        state: ElementState::Released,
        repeat: true,
    });
    viewer.on_text_event(&repeated_release).unwrap();
    assert_eq!(viewer.hotkey_state(), HotkeyState { control: false, space: true });
    let unidentified = TextEvent::KeyboardKey(KeyEvent {
        physical_key: PhysicalKey::Unidentified,
        text: None,
        state: ElementState::Released,
        repeat: false,
    });
    viewer.on_text_event(&unidentified).unwrap();
    assert_eq!(viewer.hotkey_state(), HotkeyState { control: false, space: true });
}

#[test]
fn hotkey_state_get_and_set() {
    let mut state = HotkeyState::default();
    state.set(Hotkey::Space, true);
    assert!(state.get(Hotkey::Space));
    assert!(!state.get(Hotkey::Control));
    state.set(Hotkey::Control, true);
    state.set(Hotkey::Space, false);
    assert_eq!(state, HotkeyState { control: true, space: false });
}

#[test]
fn hotkey_from_physical_key() {
    assert_eq!(
        Hotkey::from_physical_key(PhysicalKey::Code(KeyCode::ControlLeft)),
        Some(Hotkey::Control)
    );
    assert_eq!(
        Hotkey::from_physical_key(PhysicalKey::Code(KeyCode::ControlRight)),
        Some(Hotkey::Control)
    );
    assert_eq!(Hotkey::from_physical_key(PhysicalKey::Code(KeyCode::Space)), Some(Hotkey::Space));
    assert_eq!(Hotkey::from_physical_key(PhysicalKey::Code(KeyCode::Escape)), None);
    assert_eq!(Hotkey::from_physical_key(PhysicalKey::Code(KeyCode::Other)), None);
    assert_eq!(Hotkey::from_physical_key(PhysicalKey::Unidentified), None);
}

#[test]
fn update_title_cases() {
    assert_eq!(update_title("abc", &key_event(None)), None);
    assert_eq!(update_title("abc", &key_event(Some("\r"))), Some("abc\n".to_string()));
    assert_eq!(update_title("abc", &key_event(Some("\u{8}"))), Some("ab".to_string()));
    assert_eq!(update_title("", &key_event(Some("\u{8}"))), None);
    assert_eq!(update_title("abc", &key_event(Some("d"))), Some("abcd".to_string()));
    assert_eq!(update_title("", &key_event(Some("xy"))), Some("xy".to_string()));
    assert_eq!(update_title("abc", &key_event(Some(""))), Some("abc".to_string()));
    assert_eq!(update_title("a", &key_event(Some("\r\r"))), Some("a\r\r".to_string()));
}

#[test]
fn update_title_removes_a_whole_character() {
    assert_eq!(update_title("naïve é", &key_event(Some("\u{8}"))), Some("naïve ".to_string()));
    assert_eq!(update_title("日本", &key_event(Some("\u{8}"))), Some("日".to_string()));
    assert_eq!(update_title("a\n", &key_event(Some("\u{8}"))), Some("a".to_string()));
}

#[test]
fn hit_test_takes_the_first_in_the_given_order() {
    let mut graph = PetgraphGraph::new();
    let a = graph
        .add_node(Node::new(Circle::new(Point::new(0, 0), 40), String::new()))
        .unwrap();
    let b = graph
        .add_node(Node::new(Circle::new(Point::new(30, 0), 40), String::new()))
        .unwrap();
    let point = Point::new(15, 0);
    assert_eq!(hit_test(&graph, &vec![a, b], point), Ok(Some(a)));
    assert_eq!(hit_test(&graph, &vec![b, a], point), Ok(Some(b)));
    assert_eq!(hit_test(&graph, &vec![a, b], Point::new(60, 0)), Ok(Some(b)));
    assert_eq!(hit_test(&graph, &vec![a, b], Point::new(-40, 0)), Ok(None));
    assert_eq!(hit_test(&graph, &vec![], point), Ok(None));
    assert_eq!(hit_test(&graph, &vec![b + 10, b], point), Ok(Some(b)));
}

#[test]
fn hover_on_the_boundary_is_no_hover() {
    let (mut viewer, indices) = viewer_with(&[(0, 0)]);
    move_to(&mut viewer, 40, 0).unwrap();
    assert_eq!(viewer.hovered_circle(), Ok(None));
    move_to(&mut viewer, 39, 0).unwrap();
    assert_eq!(viewer.hovered_circle(), Ok(Some(indices[0])));
    viewer.set_mouse_position(Some(Point::new(24, 32)));
    assert_eq!(viewer.hovered_circle(), Ok(None));
    viewer.set_mouse_position(None);
    assert_eq!(viewer.hovered_circle(), Ok(None));
    assert_eq!(viewer.mouse_position(), None);
}

#[test]
fn outage_on_press_drops_the_gesture() {
    let (mut viewer, indices) = flaky_with(&[(0, 0)]);
    viewer.graph().fail_after(0, 1);
    assert_eq!(press_at(&mut viewer, 300, 300), Err(GraphError::BackendUnavailable));
    assert_eq!(viewer.gesture(), Gesture::Inactive);
    assert_eq!(viewer.mouse_position(), Some(Point::new(300, 300)));
    assert_eq!(viewer.graph().inner.node_indices(), Ok(vec![indices[0]]));
    assert_eq!(press(&mut viewer), Ok(()));
    assert_eq!(viewer.gesture(), Gesture::AddingNode);
}

#[test]
fn events_with_nothing_to_decide_ask_no_store() {
    let (mut viewer, _) = flaky_with(&[(0, 0)]);
    // a release with no gesture in progress
    viewer.graph().fail_after(0, 1);
    assert_eq!(release_at(&mut viewer, 0, 0), Ok(()));
    assert_eq!(viewer.gesture(), Gesture::Inactive);
    viewer.graph().fail_after(0, 0);
    // a press during a gesture
    press_at(&mut viewer, 300, 300).unwrap();
    assert_eq!(viewer.gesture(), Gesture::AddingNode);
    viewer.graph().fail_after(0, 1);
    assert_eq!(press_at(&mut viewer, 0, 0), Ok(()));
    assert_eq!(viewer.gesture(), Gesture::AddingNode);
    // a move that drags no node, and a key that edits no title
    assert_eq!(move_to(&mut viewer, 5, 5), Ok(()));
    assert_eq!(viewer.on_text_event(&typed("x")), Ok(()));
    assert_eq!(viewer.on_text_event(&key(KeyCode::Escape, ElementState::Pressed)), Ok(()));
    assert_eq!(viewer.gesture(), Gesture::Inactive);
    // the outage is still to come
    assert_eq!(press_at(&mut viewer, 0, 0), Err(GraphError::BackendUnavailable));
}

#[test]
fn outage_while_adding_a_node_adds_nothing() {
    let (mut viewer, indices) = flaky_with(&[(0, 0)]);
    move_to(&mut viewer, 300, 300).unwrap();
    press(&mut viewer).unwrap();
    assert_eq!(viewer.gesture(), Gesture::AddingNode);
    // the hit test asks for the indices and for the one node; the third call adds
    viewer.graph().fail_after(2, 1);
    assert_eq!(release(&mut viewer), Err(GraphError::BackendUnavailable));
    assert_eq!(viewer.gesture(), Gesture::Inactive);
    assert_eq!(viewer.graph().inner.node_indices(), Ok(vec![indices[0]]));
}

#[test]
fn outage_while_adding_an_edge_to_a_new_node_adds_nothing() {
    let (mut viewer, indices) = flaky_with(&[(0, 0)]);
    let a = indices[0];
    move_to(&mut viewer, 0, 0).unwrap();
    press(&mut viewer).unwrap();
    assert_eq!(viewer.gesture(), Gesture::AddingEdge { from: a });
    move_to(&mut viewer, 300, 300).unwrap();
    // the list and the one node are read; adding the node with its edge fails
    viewer.graph().fail_after(2, 1);
    assert_eq!(release(&mut viewer), Err(GraphError::BackendUnavailable));
    assert_eq!(viewer.gesture(), Gesture::Inactive);
    assert_eq!(viewer.graph().inner.node_indices(), Ok(vec![a]));
    assert_eq!(viewer.graph().inner.neighbors(a), Ok(vec![]));
    // nothing was left half done: the same gesture goes through afterwards
    move_to(&mut viewer, 0, 0).unwrap();
    press(&mut viewer).unwrap();
    assert_eq!(release_at(&mut viewer, 300, 300), Ok(()));
    assert_eq!(viewer.graph().inner.node_indices().unwrap().len(), 2);
    assert_eq!(viewer.graph().inner.neighbors(a).unwrap().len(), 1);
}

#[test]
fn outage_on_release_over_a_node_adds_no_edge() {
    let (mut viewer, indices) = flaky_with(&[(0, 0), (200, 0)]);
    let (a, b) = (indices[0], indices[1]);
    move_to(&mut viewer, 0, 0).unwrap();
    press(&mut viewer).unwrap();
    move_to(&mut viewer, 200, 0).unwrap();
    // indices, two nodes, then add_edge fails
    viewer.graph().fail_after(3, 1);
    assert_eq!(release(&mut viewer), Err(GraphError::BackendUnavailable));
    assert_eq!(viewer.gesture(), Gesture::Inactive);
    assert_eq!(viewer.graph().inner.neighbors(a), Ok(vec![]));
    assert_eq!(viewer.graph().inner.neighbors(b), Ok(vec![]));
}

#[test]
fn outage_while_deleting_removes_nothing() {
    let (mut viewer, indices) = flaky_with(&[(0, 0)]);
    move_to(&mut viewer, 0, 0).unwrap();
    viewer.on_text_event(&key(KeyCode::ControlLeft, ElementState::Pressed)).unwrap();
    press(&mut viewer).unwrap();
    assert_eq!(viewer.gesture(), Gesture::Deleting);
    viewer.graph().fail_after(2, 1);
    assert_eq!(release(&mut viewer), Err(GraphError::BackendUnavailable));
    assert_eq!(viewer.gesture(), Gesture::Inactive);
    assert_eq!(viewer.graph().inner.node_indices(), Ok(vec![indices[0]]));
}

#[test]
fn outage_during_a_move_drops_the_gesture() {
    let (mut viewer, indices) = flaky_with(&[(0, 0)]);
    viewer.on_text_event(&key(KeyCode::Space, ElementState::Pressed)).unwrap();
    move_to(&mut viewer, 0, 0).unwrap();
    press(&mut viewer).unwrap();
    move_to(&mut viewer, 10, 10).unwrap();
    // the node is read, then writing it fails
    viewer.graph().fail_after(1, 1);
    assert_eq!(move_to(&mut viewer, 50, 50), Err(GraphError::BackendUnavailable));
    assert_eq!(viewer.gesture(), Gesture::Inactive);
    assert_eq!(viewer.mouse_position(), Some(Point::new(50, 50)));
    assert_eq!(
        viewer.graph().inner.get_node(indices[0]).unwrap().circle,
        Circle::new(Point::new(10, 10), 40)
    );
    assert_eq!(move_to(&mut viewer, 90, 90), Ok(()));
    assert_eq!(
        viewer.graph().inner.get_node(indices[0]).unwrap().circle,
        Circle::new(Point::new(10, 10), 40)
    );
}

#[test]
fn outage_while_editing_drops_the_gesture_and_tracks_the_hotkey() {
    let (mut viewer, indices) = flaky_with(&[(0, 0)]);
    move_to(&mut viewer, 0, 0).unwrap();
    press(&mut viewer).unwrap();
    release(&mut viewer).unwrap();
    assert_eq!(viewer.gesture(), Gesture::Editing { node_id: indices[0] });
    viewer.on_text_event(&typed("a")).unwrap();
    viewer.graph().fail_after(0, 1);
    let space_with_text = TextEvent::KeyboardKey(KeyEvent {
        physical_key: PhysicalKey::Code(KeyCode::Space),
        text: Some(" ".to_string()),
        state: ElementState::Pressed,
        repeat: false,
    });
    assert_eq!(viewer.on_text_event(&space_with_text), Err(GraphError::BackendUnavailable));
    assert_eq!(viewer.gesture(), Gesture::Inactive);
    assert_eq!(viewer.hotkey_state(), HotkeyState { control: false, space: true });
    assert_eq!(viewer.graph().inner.get_node(indices[0]).unwrap().title, "a");
}

#[test]
fn hit_test_reports_an_outage() {
    let (viewer, indices) = flaky_with(&[(0, 0), (10, 0)]);
    viewer.graph().fail_after(1, 1);
    assert_eq!(
        hit_test(viewer.graph(), &indices, Point::new(500, 0)),
        Err(GraphError::BackendUnavailable)
    );
    assert_eq!(hit_test(viewer.graph(), &indices, Point::new(500, 0)), Ok(None));
}

#[test]
fn default_viewer_holds_an_empty_graph() {
    let mut viewer: GraphViewer<PetgraphGraph> = GraphViewer::default();
    assert_eq!(viewer.gesture(), Gesture::Inactive);
    assert_eq!(viewer.graph().node_indices(), Ok(vec![]));
    move_to(&mut viewer, -7, 9).unwrap();
    press(&mut viewer).unwrap();
    release(&mut viewer).unwrap();
    let indices = viewer.graph().node_indices().unwrap();
    assert_eq!(indices.len(), 1);
    assert_eq!(
        viewer.graph().get_node(indices[0]).unwrap().circle,
        Circle::new(Point::new(-7, 9), CIRCLE_RADIUS)
    );
}

#[test]
fn overlapping_nodes_hover_the_one_listed_first() {
    let (mut viewer, indices) = viewer_with(&[(0, 0), (30, 0), (60, 0)]);
    move_to(&mut viewer, 31, 0).unwrap();
    let listed = viewer.graph().node_indices().unwrap();
    assert_eq!(listed, indices);
    assert_eq!(viewer.hovered_circle(), Ok(Some(indices[0])));
    move_to(&mut viewer, 45, 0).unwrap();
    assert_eq!(viewer.hovered_circle(), Ok(Some(indices[1])));
}

#[test]
fn default_radius_is_forty() {
    assert_eq!(CIRCLE_RADIUS, 40);
}

#[test]
fn view_pans_only_while_it_is_dragged() {
    let (mut viewer, _) = viewer_with(&[(0, 0)]);
    assert_eq!(viewer.view_change(ViewEvent::PointerMove), ViewChange::Keep);
    move_to(&mut viewer, 300, 300).unwrap();
    assert_eq!(viewer.view_change(ViewEvent::PointerMove), ViewChange::Keep);
    viewer.on_text_event(&key(KeyCode::Space, ElementState::Pressed)).unwrap();
    assert_eq!(viewer.view_change(ViewEvent::PointerMove), ViewChange::Keep);
    press(&mut viewer).unwrap();
    assert_eq!(viewer.gesture(), Gesture::Panning);
    assert_eq!(viewer.view_change(ViewEvent::PointerMove), ViewChange::Pan);
    release(&mut viewer).unwrap();
    assert_eq!(viewer.view_change(ViewEvent::PointerMove), ViewChange::Keep);

    // dragging a node is no drag of the view
    move_to(&mut viewer, 0, 0).unwrap();
    press(&mut viewer).unwrap();
    assert!(matches!(viewer.gesture(), Gesture::MovingNode { .. }));
    assert_eq!(viewer.view_change(ViewEvent::PointerMove), ViewChange::Keep);
}

#[test]
fn wheel_scrolls_and_pinch_zooms_about_the_pointer() {
    let mut viewer = viewer();
    assert_eq!(viewer.view_change(ViewEvent::MouseWheel), ViewChange::Scroll);
    assert_eq!(viewer.view_change(ViewEvent::Pinch), ViewChange::Keep);
    assert_eq!(viewer.view_change(ViewEvent::PointerMove), ViewChange::Keep);
    move_to(&mut viewer, 10, 20).unwrap();
    assert_eq!(viewer.view_change(ViewEvent::Pinch), ViewChange::Zoom);
    press(&mut viewer).unwrap();
    assert_eq!(viewer.view_change(ViewEvent::MouseWheel), ViewChange::Scroll);
    assert_eq!(viewer.view_change(ViewEvent::Pinch), ViewChange::Zoom);
    viewer.set_mouse_position(None);
    assert_eq!(viewer.view_change(ViewEvent::Pinch), ViewChange::Keep);
}

#[test]
fn escape_that_carries_text_leaves_the_title_alone() {
    let (mut viewer, indices) = viewer_with(&[(0, 0)]);
    let a = indices[0];
    press_at(&mut viewer, 0, 0).unwrap();
    release_at(&mut viewer, 0, 0).unwrap();
    assert_eq!(viewer.gesture(), Gesture::Editing { node_id: a });
    viewer.on_text_event(&typed("hi")).unwrap();
    viewer.on_text_event(&key(KeyCode::ControlLeft, ElementState::Pressed)).unwrap();
    let escape = TextEvent::KeyboardKey(KeyEvent {
        physical_key: PhysicalKey::Code(KeyCode::Escape),
        text: Some("\u{1b}".to_string()),
        state: ElementState::Pressed,
        repeat: false,
    });
    assert_eq!(viewer.on_text_event(&escape), Ok(()));
    assert_eq!(viewer.gesture(), Gesture::Inactive);
    assert_eq!(viewer.graph().get_node(a).unwrap().title, "hi");
    assert_eq!(viewer.hotkey_state(), HotkeyState { control: true, space: false });
    assert_eq!(viewer.graph().node_indices(), Ok(vec![a]));
}

#[test]
fn repeated_escape_that_carries_text_changes_nothing() {
    let (mut viewer, indices) = viewer_with(&[(0, 0)]);
    let a = indices[0];
    press_at(&mut viewer, 0, 0).unwrap();
    release_at(&mut viewer, 0, 0).unwrap();
    let escape = TextEvent::KeyboardKey(KeyEvent {
        physical_key: PhysicalKey::Code(KeyCode::Escape),
        text: Some("\u{1b}".to_string()),
        state: ElementState::Pressed,
        repeat: true,
    });
    assert_eq!(viewer.on_text_event(&escape), Ok(()));
    assert_eq!(viewer.gesture(), Gesture::Editing { node_id: a });
    assert_eq!(viewer.graph().get_node(a).unwrap().title, "");
}

#[test]
fn escape_while_editing_asks_no_store() {
    let (mut viewer, indices) = flaky_with(&[(0, 0)]);
    press_at(&mut viewer, 0, 0).unwrap();
    release_at(&mut viewer, 0, 0).unwrap();
    assert_eq!(viewer.gesture(), Gesture::Editing { node_id: indices[0] });
    viewer.graph().fail_after(0, 1);
    let escape = TextEvent::KeyboardKey(KeyEvent {
        physical_key: PhysicalKey::Code(KeyCode::Escape),
        text: Some("\u{1b}".to_string()),
        state: ElementState::Pressed,
        repeat: false,
    });
    assert_eq!(viewer.on_text_event(&escape), Ok(()));
    assert_eq!(viewer.gesture(), Gesture::Inactive);
}

#[test]
fn control_click_removes_the_lowest_of_overlapping_nodes() {
    let (mut viewer, indices) = viewer_with(&[(0, 0), (30, 0), (60, 0)]);
    viewer.on_text_event(&key(KeyCode::ControlLeft, ElementState::Pressed)).unwrap();
    // (31, 0) lies inside all three circles
    press_at(&mut viewer, 31, 0).unwrap();
    assert_eq!(viewer.gesture(), Gesture::Deleting);
    assert_eq!(release_at(&mut viewer, 31, 0), Ok(()));
    assert_eq!(viewer.graph().node_indices(), Ok(vec![indices[1], indices[2]]));
    press_at(&mut viewer, 31, 0).unwrap();
    assert_eq!(release_at(&mut viewer, 31, 0), Ok(()));
    assert_eq!(viewer.graph().node_indices(), Ok(vec![indices[2]]));
}
