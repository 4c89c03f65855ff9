//! What holds of the editor over whole runs of events.

use vstd::prelude::*;
use crate::connection::{connected, Connection, PortRef};
use crate::editor::{CanvasEvent, Change, EditorView};
use crate::geometry::{clamp_coord, Point};
use crate::gesture::GestureView;
use crate::node::{NewNodeView, NodeView, PORT_OFFSET, PORT_ROW_HEIGHT, PORT_VERTICAL_BASE};
use crate::render::connection_curve;
use crate::store::{added, moved, rows_wf, seeded};
use crate::viewport::{MAX_SCALE, MIN_SCALE};

verus! {

/// The registry after every node of `news` was added to `rows`, first to last.
pub open spec fn added_all(rows: Seq<NodeView>, news: Seq<NewNodeView>) -> Seq<NodeView>
    decreases news.len(),
{
    if news.len() == 0 {
        rows
    } else {
        added(added_all(rows, news.drop_last()), news.last())
    }
}

/// The id that the node `news[k]` gets when `news` are added to `rows` in turn:
/// the number of nodes that are there when its turn comes.
pub open spec fn id_of_added(rows: Seq<NodeView>, news: Seq<NewNodeView>, k: int) -> nat {
    added_all(rows, news.take(k)).len()
}

/// The editor after `events`, first to last.
pub open spec fn run(start: EditorView, events: Seq<CanvasEvent>) -> EditorView
    decreases events.len(),
{
    if events.len() == 0 {
        start
    } else {
        run(start, events.drop_last()).step(events.last())
    }
}

/// The events of a pointer that moves through `points`.
pub open spec fn moves(points: Seq<Point>) -> Seq<CanvasEvent> {
    points.map_values(|p: Point| CanvasEvent::PointerMoved { pointer: p })
}

/// Adding nodes keeps the registry well formed, keeps every node that was
/// there, and makes it longer by the number of nodes added.
pub proof fn law_adding_keeps_registry(rows: Seq<NodeView>, news: Seq<NewNodeView>)
    requires
        rows_wf(rows),
    ensures
        rows_wf(added_all(rows, news)),
        added_all(rows, news).len() == rows.len() + news.len(),
        forall|i: int| 0 <= i < rows.len() ==> added_all(rows, news)[i] == rows[i],
    decreases news.len(),
{
    if news.len() > 0 {
        law_adding_keeps_registry(rows, news.drop_last());
    }
}

/// A registry that starts with `news` is the empty registry after `news` were
/// added to it in turn.
pub proof fn law_seeded_is_added(news: Seq<NewNodeView>)
    ensures
        seeded(news) == added_all(Seq::empty(), news),
    decreases news.len(),
{
    if news.len() > 0 {
        law_seeded_is_added(news.drop_last());
        law_adding_keeps_registry(Seq::empty(), news.drop_last());
    }
    assert(seeded(news) =~= added_all(Seq::empty(), news));
}

/// However many nodes are added, a node added later gets a greater id than one
/// added earlier: the ids are strictly increasing, and so no two are equal.
pub proof fn law_ids_increase(rows: Seq<NodeView>, news: Seq<NewNodeView>, i: int, j: int)
    requires
        rows_wf(rows),
        0 <= i < j < news.len(),
    ensures
        id_of_added(rows, news, i) < id_of_added(rows, news, j),
        id_of_added(rows, news, i) == rows.len() + i,
        added_all(rows, news)[id_of_added(rows, news, i) as int].id == id_of_added(rows, news, i),
{
    law_adding_keeps_registry(rows, news.take(i));
    law_adding_keeps_registry(rows, news.take(j));
    law_adding_keeps_registry(rows, news);
}

/// In a well-formed registry no two nodes have the same id.
pub proof fn law_ids_unique(rows: Seq<NodeView>, i: int, j: int)
    requires
        rows_wf(rows),
        0 <= i < rows.len(),
        0 <= j < rows.len(),
        i != j,
    ensures
        rows[i].id != rows[j].id,
{
}

/// Every event and every request for a new node keeps the editor well formed.
pub proof fn law_step_keeps_wf(s: EditorView, event: CanvasEvent)
    requires
        s.wf(),
    ensures
        s.step(event).wf(),
        s.with_new_node().wf(),
{
}

/// Whatever events arrive, the editor stays well formed.
pub proof fn law_run_keeps_wf(start: EditorView, events: Seq<CanvasEvent>)
    requires
        start.wf(),
    ensures
        run(start, events).wf(),
    decreases events.len(),
{
    if events.len() > 0 {
        law_run_keeps_wf(start, events.drop_last());
        law_step_keeps_wf(run(start, events.drop_last()), events.last());
    }
}

/// Whatever events arrive, turns of the wheel among them or nothing else, the
/// scale stays between the smallest and the largest.
pub proof fn law_scale_stays_in_range(start: EditorView, events: Seq<CanvasEvent>)
    requires
        MIN_SCALE <= start.scale <= MAX_SCALE,
    ensures
        MIN_SCALE <= run(start, events).scale <= MAX_SCALE,
    decreases events.len(),
{
    if events.len() > 0 {
        law_scale_stays_in_range(start, events.drop_last());
    }
}

/// Whatever the scale was, after a turn of the wheel it lies between the
/// smallest and the largest, and the wheel changes nothing else.
pub proof fn law_wheel_only_scales(s: EditorView, delta_y: i64)
    ensures
        MIN_SCALE <= s.step(CanvasEvent::Wheel { delta_y }).scale <= MAX_SCALE,
        s.step(CanvasEvent::Wheel { delta_y }).nodes == s.nodes,
        s.step(CanvasEvent::Wheel { delta_y }).connections == s.connections,
        s.step(CanvasEvent::Wheel { delta_y }).gesture == s.gesture,
{
}

/// Where no gesture is in progress, letting the pointer go, on an input port or
/// elsewhere, and losing the focus change nothing.
pub proof fn law_idle_release_changes_nothing(s: EditorView, port: PortRef)
    requires
        s.gesture is Idle,
    ensures
        s.react(CanvasEvent::PointerReleased) == (s, Change::Nothing),
        s.react(CanvasEvent::InputReleased { port }) == (s, Change::Nothing),
        s.react(CanvasEvent::FocusLost) == (s, Change::Nothing),
{
}

/// What an event does not name as changed is as it was: nothing at all, the
/// gesture alone, the position of one node alone, the connections and the
/// gesture, or the scale alone.
pub proof fn law_change_names_what_changed(s: EditorView, event: CanvasEvent)
    ensures
        match s.react(event).1 {
            Change::Nothing => s.step(event) == s,
            Change::Gesture => s.step(event) == s.with_gesture(s.step(event).gesture),
            Change::Node(id) => {
                &&& id < s.nodes.len()
                &&& s.step(event).nodes.len() == s.nodes.len()
                &&& forall|i: int|
                    0 <= i < s.nodes.len() && i != id ==> s.step(event).nodes[i] == s.nodes[i]
                &&& s.step(event).nodes[id as int] == s.nodes[id as int].at(
                    s.step(event).nodes[id as int].x,
                    s.step(event).nodes[id as int].y,
                )
                &&& s.step(event).connections == s.connections
                &&& s.step(event).scale == s.scale
                &&& s.step(event).gesture == s.gesture
            },
            Change::Connections => {
                &&& s.step(event).nodes == s.nodes
                &&& s.step(event).scale == s.scale
            },
            Change::Scale => {
                &&& s.step(event).nodes == s.nodes
                &&& s.step(event).connections == s.connections
                &&& s.step(event).gesture == s.gesture
            },
        },
{
}

/// While a node is dragged, pointer movements keep the drag as it began and
/// leave the node where the last of them puts it: at the pointer, less the
/// offset of the drag. The movements before the last leave no trace.
pub proof fn law_moves_while_dragging(
    s: EditorView,
    node_id: usize,
    offset_x: int,
    offset_y: int,
    points: Seq<Point>,
)
    requires
        s.gesture == (GestureView::Dragging { node_id, offset_x, offset_y }),
        node_id < s.nodes.len(),
        points.len() > 0,
    ensures
        run(s, moves(points)) == (EditorView {
            nodes: moved(
                s.nodes,
                node_id as int,
                clamp_coord(points.last().x - offset_x),
                clamp_coord(points.last().y - offset_y),
            ),
            ..s
        }),
    decreases points.len(),
{
    let before = points.drop_last();
    assert(moves(points).drop_last() =~= moves(before));
    let mid = run(s, moves(before));
    if before.len() > 0 {
        law_moves_while_dragging(s, node_id, offset_x, offset_y, before);
    } else {
        assert(mid == s);
    }
    let x = clamp_coord(points.last().x - offset_x);
    let y = clamp_coord(points.last().y - offset_y);
    assert(moved(mid.nodes, node_id as int, x, y) =~= moved(s.nodes, node_id as int, x, y));
}

/// A drag, from the pointer going down on a node at `start`, through any
/// movements, to the pointer going up: the node ends where the pointer was
/// last seen, less the offset at which the drag began, as far as coordinates
/// reach. Neither the movements in between nor the other nodes have a say, and
/// no other node, no connection and nothing of the viewport changes. A drag
/// without a movement leaves everything as it was.
pub proof fn law_drag_ends_at_pointer(
    s: EditorView,
    node_id: usize,
    start: Point,
    points: Seq<Point>,
)
    requires
        s.gesture is Idle,
        node_id < s.nodes.len(),
    ensures
        ({
            let pressed = s.step(CanvasEvent::NodePressed { node_id, pointer: start });
            let done = run(pressed, moves(points)).step(CanvasEvent::PointerReleased);
            let offset_x = start.x - s.nodes[node_id as int].x;
            let offset_y = start.y - s.nodes[node_id as int].y;
            if points.len() == 0 {
                done == s
            } else {
                let x = points.last().x - offset_x;
                let y = points.last().y - offset_y;
                &&& done == (EditorView {
                    nodes: moved(s.nodes, node_id as int, clamp_coord(x), clamp_coord(y)),
                    ..s
                })
                &&& done.nodes[node_id as int].x == clamp_coord(x)
                &&& done.nodes[node_id as int].y == clamp_coord(y)
                &&& i32::MIN <= x <= i32::MAX ==> done.nodes[node_id as int].x == x
                &&& i32::MIN <= y <= i32::MAX ==> done.nodes[node_id as int].y == y
                &&& forall|i: int|
                    0 <= i < s.nodes.len() && i != node_id ==> done.nodes[i] == s.nodes[i]
            }
        }),
{
    let pressed = s.step(CanvasEvent::NodePressed { node_id, pointer: start });
    let offset_x = start.x - s.nodes[node_id as int].x;
    let offset_y = start.y - s.nodes[node_id as int].y;
    if points.len() > 0 {
        law_moves_while_dragging(pressed, node_id, offset_x, offset_y, points);
    } else {
        assert(moves(points).len() == 0);
    }
}

/// The events that leave a connection that is being made as it is, but for its
/// live end: movements of the pointer, turns of the wheel, and presses on the
/// body of a node, which are not heard while a gesture is in progress.
pub open spec fn keeps_connecting(event: CanvasEvent) -> bool {
    event is PointerMoved || event is Wheel || event is NodePressed
}

/// `events[i]` is a press on the output port `port`, and nothing after it ends
/// or replaces the gesture that it began.
pub open spec fn pressed_at(events: Seq<CanvasEvent>, i: int, port: PortRef) -> bool {
    &&& 0 <= i < events.len()
    &&& events[i] == CanvasEvent::OutputPressed { port }
    &&& forall|k: int| i < k < events.len() ==> keeps_connecting(#[trigger] events[k])
}

/// While a connection is being made, the events that do not end it keep its
/// output port, the nodes and the connections.
pub proof fn law_connecting_is_kept(s: EditorView, from_port: PortRef, events: Seq<CanvasEvent>)
    requires
        s.gesture matches GestureView::Connecting { from_port: f, .. } && f == from_port,
        forall|k: int| 0 <= k < events.len() ==> keeps_connecting(#[trigger] events[k]),
    ensures
        run(s, events).gesture matches GestureView::Connecting { from_port: f, .. } && f
            == from_port,
        run(s, events).nodes == s.nodes,
        run(s, events).connections == s.connections,
    decreases events.len(),
{
    if events.len() > 0 {
        law_connecting_is_kept(s, from_port, events.drop_last());
        assert(keeps_connecting(events.last()));
    }
}

/// While a connection is being made, pointer movements set its live end to
/// where the pointer was last seen and change nothing else.
pub proof fn law_moves_while_connecting(s: EditorView, from_port: PortRef, points: Seq<Point>)
    requires
        s.gesture matches GestureView::Connecting { from_port: f, .. } && f == from_port,
        points.len() > 0,
    ensures
        run(s, moves(points)) == s.with_gesture(
            GestureView::Connecting { from_port, live_endpoint: Some(points.last()) },
        ),
    decreases points.len(),
{
    let before = points.drop_last();
    assert(moves(points).drop_last() =~= moves(before));
    if before.len() > 0 {
        law_moves_while_connecting(s, from_port, before);
    } else {
        assert(run(s, moves(before)) == s);
    }
}

/// A gesture that begins with the pointer going down on an output port and
/// ends with the pointer going up on an input port, with nothing in between
/// that ends or replaces it, makes exactly one connection, between those two
/// ports, where they belong to different nodes, and none where they belong to
/// one node. Either way no gesture is in progress afterwards, and no node has
/// changed.
pub proof fn law_gesture_connects(
    s: EditorView,
    from: PortRef,
    between: Seq<CanvasEvent>,
    to: PortRef,
)
    requires
        forall|k: int| 0 <= k < between.len() ==> keeps_connecting(#[trigger] between[k]),
    ensures
        ({
            let pressed = s.step(CanvasEvent::OutputPressed { port: from });
            let done = run(pressed, between).step(CanvasEvent::InputReleased { port: to });
            &&& done.connections == connected(s.connections, from, to)
            &&& from.node_id != to.node_id ==> done.connections == s.connections.push(
                Connection { from, to },
            )
            &&& from.node_id == to.node_id ==> done.connections == s.connections
            &&& done.gesture is Idle
            &&& done.nodes == s.nodes
        }),
{
    let pressed = s.step(CanvasEvent::OutputPressed { port: from });
    law_connecting_is_kept(pressed, from, between);
}

/// An event makes a connection only where one is being made from an output
/// port and the pointer goes up on an input port of another node; it then
/// appends the connection between those two ports. Every other event leaves
/// the connections as they were, and so does a request for a new node.
pub proof fn law_connections_change_only_on_release(s: EditorView, event: CanvasEvent)
    ensures
        match (s.gesture, event) {
            (
                GestureView::Connecting { from_port, .. },
                CanvasEvent::InputReleased { port },
            ) => s.step(event).connections == (if from_port.node_id != port.node_id {
                s.connections.push(Connection { from: from_port, to: port })
            } else {
                s.connections
            }),
            _ => s.step(event).connections == s.connections,
        },
        s.with_new_node().connections == s.connections,
{
}

/// A connection is being made after an event only where the pointer just went
/// down on its output port, or where it was being made from that port before
/// and the event is one that keeps it.
pub proof fn law_connecting_begins_at_output(s: EditorView, event: CanvasEvent)
    ensures
        s.step(event).gesture matches GestureView::Connecting { from_port, .. } ==> {
            ||| event == (CanvasEvent::OutputPressed { port: from_port })
            ||| (s.gesture matches GestureView::Connecting { from_port: before, .. } && before
                == from_port && keeps_connecting(event))
        },
{
}

/// Where a run that began without a pending connection ends with one, the
/// pointer went down on its output port at some event of the run, given back
/// as the result, and nothing after that event ended or replaced the gesture.
pub proof fn law_pending_began_with_press(start: EditorView, events: Seq<CanvasEvent>) -> (i: int)
    requires
        !(start.gesture is Connecting),
        run(start, events).gesture is Connecting,
    ensures
        pressed_at(events, i, run(start, events).gesture->from_port),
    decreases events.len(),
{
    let before = events.drop_last();
    law_connecting_begins_at_output(run(start, before), events.last());
    if events.last() is OutputPressed {
        events.len() - 1
    } else {
        let i = law_pending_began_with_press(start, before);
        assert forall|k: int| i < k < events.len() implies keeps_connecting(
            #[trigger] events[k],
        ) by {
            if k < before.len() {
                assert(events[k] == before[k]);
            }
        }
        i
    }
}

/// Where the last event of a run that began without a pending connection
/// changes the connections, the run holds a whole gesture: the pointer went
/// down on an output port at some event, given back as the result, nothing
/// after it ended or replaced the gesture, and the last event is the pointer
/// going up on an input port of another node. The change is that the
/// connection between those two ports was appended.
pub proof fn law_connection_began_with_press(start: EditorView, events: Seq<CanvasEvent>) -> (i:
    int)
    requires
        !(start.gesture is Connecting),
        events.len() > 0,
        run(start, events).connections != run(start, events.drop_last()).connections,
    ensures
        ({
            let before = run(start, events.drop_last());
            &&& before.gesture matches GestureView::Connecting { from_port, .. }
            &&& events.last() matches CanvasEvent::InputReleased { port }
            &&& from_port.node_id != port.node_id
            &&& run(start, events).connections == before.connections.push(
                Connection { from: from_port, to: port },
            )
            &&& pressed_at(events.drop_last(), i, from_port)
        }),
{
    let before = run(start, events.drop_last());
    law_connections_change_only_on_release(before, events.last());
    law_pending_began_with_press(start, events.drop_last())
}

/// The curve of a connection starts at its output port and ends at its input
/// port as the nodes stand now: after a node was put at `(x, y)`, the ends that
/// lie on that node are where the new position puts its ports, and the ends
/// that lie on other nodes are where they were. (The curve counts halves of a
/// canvas unit.)
pub proof fn law_curve_follows_nodes(
    nodes: Seq<NodeView>,
    c: Connection,
    id: usize,
    x: i32,
    y: i32,
)
    requires
        c.from.node_id < nodes.len(),
        c.to.node_id < nodes.len(),
    ensures
        ({
            let after = moved(nodes, id as int, x as int, y as int);
            let from = after[c.from.node_id as int];
            let to = after[c.to.node_id as int];
            &&& connection_curve(after, c) matches Some(drawn)
            &&& drawn.start == (2 * from.output_port(c.from.index as int).0, 2 * from.output_port(
                c.from.index as int,
            ).1)
            &&& drawn.end == (2 * to.input_port(c.to.index as int).0, 2 * to.input_port(
                c.to.index as int,
            ).1)
            &&& c.from.node_id == id ==> drawn.start == (
                2 * (x + from.width + PORT_OFFSET),
                2 * (y + PORT_VERTICAL_BASE + c.from.index * PORT_ROW_HEIGHT),
            )
            &&& c.to.node_id == id ==> drawn.end == (
                2 * (x - PORT_OFFSET),
                2 * (y + PORT_VERTICAL_BASE + c.to.index * PORT_ROW_HEIGHT),
            )
            &&& connection_curve(nodes, c) matches Some(before)
            &&& c.from.node_id != id ==> drawn.start == before.start
            &&& c.to.node_id != id ==> drawn.end == before.end
        }),
{
}

} // verus!
