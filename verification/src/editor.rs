//! The editor: the nodes, the connections, the viewport and the gesture in
//! progress, and how pointer, wheel and focus events change them.

use vstd::prelude::*;
use crate::connection::{connected, Connection, ConnectionSet, PortRef};
use crate::geometry::{clamp_coord, to_coord, Point};
use crate::gesture::{DragState, Gesture, GestureView, PendingConnection};
use crate::node::{NewNode, NewNodeView, NodeView};
use crate::render::{connection_paths, draw_connections, draw_pending, pending_path};
use crate::store::{added, moved, news_view, rows_wf, seeded, NodeStore};
use crate::viewport::{margin_at, scrolled, Viewport, MAX_SCALE, MIN_SCALE};

verus! {

/// What the host reports to the editor.
#[derive(Clone, Copy, Debug, PartialEq, Eq)]
pub enum CanvasEvent {
    /// The pointer went down on the body of a node.
    NodePressed { node_id: usize, pointer: Point },
    /// The pointer went down on an output port.
    OutputPressed { port: PortRef },
    /// The pointer moved.
    PointerMoved { pointer: Point },
    /// The pointer went up on an input port.
    InputReleased { port: PortRef },
    /// The pointer went up anywhere else.
    PointerReleased,
    /// The canvas lost the focus, or the pointer left it.
    FocusLost,
    /// The wheel turned.
    Wheel { delta_y: i64 },
}

/// What has to be drawn again after an event. Whatever a value does not name
/// is as it was before the event.
#[derive(Clone, Copy, Debug, PartialEq, Eq, Structural)]
pub enum Change {
    /// Nothing.
    Nothing,
    /// The gesture in progress.
    Gesture,
    /// The position of the node of this id.
    Node(usize),
    /// The connections and the gesture in progress.
    Connections,
    /// The scale of the viewport.
    Scale,
}

/// What an editor is.
pub struct EditorView {
    pub nodes: Seq<NodeView>,
    pub connections: Seq<Connection>,
    pub scale: int,
    pub gesture: GestureView,
}

impl EditorView {
    /// The nodes are well formed and the scale is within its limits.
    pub open spec fn wf(self) -> bool {
        rows_wf(self.nodes) && MIN_SCALE <= self.scale <= MAX_SCALE
    }

    /// The editor that starts with the nodes `news`: no connections, life size,
    /// no gesture.
    pub open spec fn initial(news: Seq<NewNodeView>) -> EditorView {
        EditorView {
            nodes: seeded(news),
            connections: Seq::empty(),
            scale: MIN_SCALE as int,
            gesture: GestureView::Idle,
        }
    }

    /// The same editor with another gesture in progress.
    pub open spec fn with_gesture(self, gesture: GestureView) -> EditorView {
        EditorView { gesture, ..self }
    }

    /// The pointer goes down on the body of the node `node_id`. Where no gesture
    /// is in progress and the node exists, a drag begins, with the pointer's
    /// place seen from the node's origin as its offset.
    pub open spec fn press_node(self, node_id: usize, pointer: Point) -> (EditorView, Change) {
        if self.gesture is Idle && node_id < self.nodes.len() {
            let node = self.nodes[node_id as int];
            (
                self.with_gesture(
                    GestureView::Dragging {
                        node_id,
                        offset_x: pointer.x - node.x,
                        offset_y: pointer.y - node.y,
                    },
                ),
                Change::Gesture,
            )
        } else {
            (self, Change::Nothing)
        }
    }

    /// The pointer goes down on the output port `port`. Whatever was in
    /// progress, a connection from that port is begun.
    pub open spec fn press_output(self, port: PortRef) -> (EditorView, Change) {
        (
            self.with_gesture(GestureView::Connecting { from_port: port, live_endpoint: None }),
            Change::Gesture,
        )
    }

    /// The pointer moves to `pointer`. A dragged node is put where the pointer
    /// is, less the offset of the drag; a pending connection gets the pointer's
    /// place as its live end.
    pub open spec fn move_pointer(self, pointer: Point) -> (EditorView, Change) {
        match self.gesture {
            GestureView::Idle => (self, Change::Nothing),
            GestureView::Dragging { node_id, offset_x, offset_y } => if node_id < self.nodes.len() {
                (
                    EditorView {
                        nodes: moved(
                            self.nodes,
                            node_id as int,
                            clamp_coord(pointer.x - offset_x),
                            clamp_coord(pointer.y - offset_y),
                        ),
                        ..self
                    },
                    Change::Node(node_id),
                )
            } else {
                (self, Change::Nothing)
            },
            GestureView::Connecting { from_port, live_endpoint } => (
                self.with_gesture(
                    GestureView::Connecting { from_port, live_endpoint: Some(pointer) },
                ),
                Change::Gesture,
            ),
        }
    }

    /// The pointer goes up on the input port `port`. A pending connection is
    /// made final, unless it would join two ports of one node. No gesture is in
    /// progress afterwards.
    pub open spec fn release_on_input(self, port: PortRef) -> (EditorView, Change) {
        match self.gesture {
            GestureView::Idle => (self, Change::Nothing),
            GestureView::Dragging { .. } => (self.with_gesture(GestureView::Idle), Change::Gesture),
            GestureView::Connecting { from_port, live_endpoint } => if from_port.node_id
                != port.node_id {
                (
                    EditorView {
                        connections: connected(self.connections, from_port, port),
                        gesture: GestureView::Idle,
                        ..self
                    },
                    Change::Connections,
                )
            } else {
                (self.with_gesture(GestureView::Idle), Change::Gesture)
            },
        }
    }

    /// The gesture in progress is given up: the pointer went up away from any
    /// input port, or the canvas can no longer see the pointer.
    pub open spec fn release(self) -> (EditorView, Change) {
        if self.gesture is Idle {
            (self, Change::Nothing)
        } else {
            (self.with_gesture(GestureView::Idle), Change::Gesture)
        }
    }

    /// The wheel turns by `delta_y`.
    pub open spec fn scroll(self, delta_y: i64) -> (EditorView, Change) {
        (EditorView { scale: scrolled(self.scale, delta_y as int), ..self }, Change::Scale)
    }

    /// The editor after `event`, and what the event changed.
    pub open spec fn react(self, event: CanvasEvent) -> (EditorView, Change) {
        match event {
            CanvasEvent::NodePressed { node_id, pointer } => self.press_node(node_id, pointer),
            CanvasEvent::OutputPressed { port } => self.press_output(port),
            CanvasEvent::PointerMoved { pointer } => self.move_pointer(pointer),
            CanvasEvent::InputReleased { port } => self.release_on_input(port),
            CanvasEvent::PointerReleased => self.release(),
            CanvasEvent::FocusLost => self.release(),
            CanvasEvent::Wheel { delta_y } => self.scroll(delta_y),
        }
    }

    /// The editor after `event`.
    pub open spec fn step(self, event: CanvasEvent) -> EditorView {
        self.react(event).0
    }

    /// The editor after a plain request for a new node.
    pub open spec fn with_new_node(self) -> EditorView {
        EditorView { nodes: added(self.nodes, NewNodeView::default_for(self.nodes.len())), ..self }
    }

    /// The path of the connection that is being made, where one is drawn.
    pub open spec fn pending_path(self) -> Option<Seq<char>> {
        match self.gesture {
            GestureView::Connecting { from_port, live_endpoint } => pending_path(
                self.nodes,
                from_port,
                live_endpoint,
            ),
            _ => None,
        }
    }
}

/// The state of the canvas.
pub struct Editor {
    nodes: NodeStore,
    connections: ConnectionSet,
    viewport: Viewport,
    gesture: Gesture,
}

impl View for Editor {
    type V = EditorView;

    closed spec fn view(&self) -> EditorView {
        EditorView {
            nodes: self.nodes@,
            connections: self.connections@,
            scale: self.viewport@,
            gesture: self.gesture@,
        }
    }
}

impl Editor {
    /// What every editor made by `new` and changed by the functions below
    /// satisfies.
    pub open spec fn wf(&self) -> bool {
        self@.wf()
    }

    /// The editor that starts with the nodes `seeds`, under the ids 0, 1, 2 and
    /// so on.
    pub fn new(seeds: Vec<NewNode>) -> (editor: Editor)
        ensures
            editor@ == EditorView::initial(news_view(seeds@)),
            editor.wf(),
    {
        Editor {
            nodes: NodeStore::seeded(seeds),
            connections: ConnectionSet::new(),
            viewport: Viewport::new(),
            gesture: Gesture::Idle,
        }
    }

    /// The pointer went down on the body of the node `node_id`.
    pub fn on_mouse_down(&mut self, node_id: usize, pointer: Point) -> (change: Change)
        requires
            old(self).wf(),
        ensures
            (final(self)@, change) == old(self)@.press_node(node_id, pointer),
            final(self).wf(),
    {
        match self.gesture {
            Gesture::Idle => match self.nodes.get(node_id) {
                Some(node) => {
                    self.gesture = Gesture::Dragging(
                        DragState {
                            node_id,
                            offset_x: pointer.x as i64 - node.x as i64,
                            offset_y: pointer.y as i64 - node.y as i64,
                        },
                    );
                    Change::Gesture
                },
                None => Change::Nothing,
            },
            _ => Change::Nothing,
        }
    }

    /// The pointer went down on the output port `port`.
    pub fn start_connection(&mut self, port: PortRef) -> (change: Change)
        requires
            old(self).wf(),
        ensures
            (final(self)@, change) == old(self)@.press_output(port),
            final(self).wf(),
    {
        self.gesture = Gesture::Connecting(
            PendingConnection { from_port: port, live_endpoint: None },
        );
        Change::Gesture
    }

    /// The pointer moved to `pointer`.
    pub fn on_mouse_move(&mut self, pointer: Point) -> (change: Change)
        requires
            old(self).wf(),
        ensures
            (final(self)@, change) == old(self)@.move_pointer(pointer),
            final(self).wf(),
    {
        match self.gesture {
            Gesture::Idle => Change::Nothing,
            Gesture::Dragging(drag) => {
                if drag.node_id < self.nodes.len() {
                    let x = to_coord(pointer.x as i128 - drag.offset_x as i128);
                    let y = to_coord(pointer.y as i128 - drag.offset_y as i128);
                    self.nodes.set_position(drag.node_id, x, y);
                    Change::Node(drag.node_id)
                } else {
                    Change::Nothing
                }
            },
            Gesture::Connecting(pending) => {
                self.gesture = Gesture::Connecting(
                    PendingConnection {
                        from_port: pending.from_port,
                        live_endpoint: Some(pointer),
                    },
                );
                Change::Gesture
            },
        }
    }

    /// The pointer went up on the input port `port`.
    pub fn end_connection(&mut self, port: PortRef) -> (change: Change)
        requires
            old(self).wf(),
        ensures
            (final(self)@, change) == old(self)@.release_on_input(port),
            final(self).wf(),
    {
        match self.gesture {
            Gesture::Idle => Change::Nothing,
            Gesture::Dragging(_) => {
                self.gesture = Gesture::Idle;
                Change::Gesture
            },
            Gesture::Connecting(pending) => {
                self.gesture = Gesture::Idle;
                if self.connections.add(pending.from_port, port) {
                    Change::Connections
                } else {
                    Change::Gesture
                }
            },
        }
    }

    /// The pointer went up away from any input port.
    pub fn on_mouse_up(&mut self) -> (change: Change)
        requires
            old(self).wf(),
        ensures
            (final(self)@, change) == old(self)@.release(),
            final(self).wf(),
    {
        match self.gesture {
            Gesture::Idle => Change::Nothing,
            _ => {
                self.gesture = Gesture::Idle;
                Change::Gesture
            },
        }
    }

    /// The canvas lost the focus, or the pointer left it.
    pub fn on_focus_out(&mut self) -> (change: Change)
        requires
            old(self).wf(),
        ensures
            (final(self)@, change) == old(self)@.release(),
            final(self).wf(),
    {
        self.on_mouse_up()
    }

    /// The wheel turned by `delta_y`.
    pub fn on_wheel_y(&mut self, delta_y: i64) -> (change: Change)
        requires
            old(self).wf(),
        ensures
            (final(self)@, change) == old(self)@.scroll(delta_y),
            final(self).wf(),
    {
        self.viewport.on_scroll(delta_y);
        Change::Scale
    }

    /// Takes one event, whatever the gesture in progress, and says what it
    /// changed.
    pub fn handle(&mut self, event: CanvasEvent) -> (change: Change)
        requires
            old(self).wf(),
        ensures
            (final(self)@, change) == old(self)@.react(event),
            final(self).wf(),
    {
        match event {
            CanvasEvent::NodePressed { node_id, pointer } => self.on_mouse_down(node_id, pointer),
            CanvasEvent::OutputPressed { port } => self.start_connection(port),
            CanvasEvent::PointerMoved { pointer } => self.on_mouse_move(pointer),
            CanvasEvent::InputReleased { port } => self.end_connection(port),
            CanvasEvent::PointerReleased => self.on_mouse_up(),
            CanvasEvent::FocusLost => self.on_focus_out(),
            CanvasEvent::Wheel { delta_y } => self.on_wheel_y(delta_y),
        }
    }

    /// Adds a node with one input port and one output port, placed by its id,
    /// and returns the id.
    pub fn add_node(&mut self) -> (id: usize)
        requires
            old(self).wf(),
        ensures
            final(self)@ == old(self)@.with_new_node(),
            id == old(self)@.nodes.len(),
            final(self).wf(),
    {
        let id = self.nodes.len();
        self.nodes.add(NewNode::default_for(id))
    }

    /// The nodes.
    pub fn nodes(&self) -> (nodes: &NodeStore)
        ensures
            nodes@ == self@.nodes,
    {
        &self.nodes
    }

    /// The connections.
    pub fn connections(&self) -> (connections: &ConnectionSet)
        ensures
            connections@ == self@.connections,
    {
        &self.connections
    }

    /// The scale of the viewport, in thousandths.
    pub fn scale(&self) -> (scale: u32)
        ensures
            scale == self@.scale,
    {
        self.viewport.scale()
    }

    /// By how much each margin of the canvas is moved to keep its middle in the
    /// middle, in thousandths of a percent of the viewport.
    pub fn margin(&self) -> (margin: u32)
        requires
            self.wf(),
        ensures
            margin == margin_at(self@.scale),
    {
        self.viewport.margin()
    }

    /// The gesture in progress.
    pub fn gesture(&self) -> (gesture: Gesture)
        ensures
            gesture@ == self@.gesture,
    {
        self.gesture
    }

    /// The paths of the connections, oldest first, each from where its output
    /// port is now to where its input port is now.
    pub fn connection_paths(&self) -> (paths: Vec<String>)
        requires
            self.wf(),
        ensures
            paths.deep_view() == connection_paths(self@.nodes, self@.connections),
    {
        draw_connections(&self.nodes, &self.connections)
    }

    /// The path of the connection that is being made, where one is drawn.
    pub fn pending_path(&self) -> (path: Option<String>)
        requires
            self.wf(),
        ensures
            path.deep_view() == self@.pending_path(),
    {
        match self.gesture {
            Gesture::Connecting(pending) => draw_pending(&self.nodes, pending),
            _ => None,
        }
    }
}

} // verus!
