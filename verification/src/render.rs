//! The curves that are drawn for connections.

use vstd::prelude::*;
use crate::connection::{Connection, ConnectionSet, PortRef};
use crate::geometry::{control_points, curve, path_text, CurveView, Point};
use crate::gesture::PendingConnection;
use crate::node::NodeView;
use crate::store::NodeStore;

verus! {

/// The curve drawn for the connection `c`: from the output port to the input
/// port, where the nodes stand now. Nothing is drawn for a connection of which
/// a node is missing.
pub open spec fn connection_curve(nodes: Seq<NodeView>, c: Connection) -> Option<CurveView> {
    if c.from.node_id < nodes.len() && c.to.node_id < nodes.len() {
        let a = nodes[c.from.node_id as int].output_port(c.from.index as int);
        let b = nodes[c.to.node_id as int].input_port(c.to.index as int);
        Some(control_points(a.0, a.1, b.0, b.1))
    } else {
        None
    }
}

/// The path description of the curve drawn for the connection `c`.
pub open spec fn connection_path(nodes: Seq<NodeView>, c: Connection) -> Option<Seq<char>> {
    match connection_curve(nodes, c) {
        Some(drawn) => Some(path_text(drawn)),
        None => None,
    }
}

/// The paths drawn for `list`, in its order.
pub open spec fn connection_paths(nodes: Seq<NodeView>, list: Seq<Connection>) -> Seq<Seq<char>>
    decreases list.len(),
{
    if list.len() == 0 {
        Seq::empty()
    } else {
        let before = connection_paths(nodes, list.drop_last());
        match connection_path(nodes, list.last()) {
            Some(path) => before.push(path),
            None => before,
        }
    }
}

/// The curve drawn for a connection that is being made: from its output port to
/// the live end. Nothing is drawn before the pointer has moved, nor where the
/// node is missing.
pub open spec fn pending_curve(
    nodes: Seq<NodeView>,
    from_port: PortRef,
    live_endpoint: Option<Point>,
) -> Option<CurveView> {
    match live_endpoint {
        Some(end) => if from_port.node_id < nodes.len() {
            let a = nodes[from_port.node_id as int].output_port(from_port.index as int);
            Some(control_points(a.0, a.1, end.x as int, end.y as int))
        } else {
            None
        },
        None => None,
    }
}

/// The path description of the curve drawn for a connection that is being made.
pub open spec fn pending_path(
    nodes: Seq<NodeView>,
    from_port: PortRef,
    live_endpoint: Option<Point>,
) -> Option<Seq<char>> {
    match pending_curve(nodes, from_port, live_endpoint) {
        Some(drawn) => Some(path_text(drawn)),
        None => None,
    }
}

/// The path of one connection.
pub fn draw_connection(nodes: &NodeStore, c: Connection) -> (path: Option<String>)
    requires
        nodes.wf(),
    ensures
        path.deep_view() == connection_path(nodes@, c),
{
    match (nodes.get(c.from.node_id), nodes.get(c.to.node_id)) {
        (Some(from), Some(to)) => {
            let a = from.output_port(c.from.index);
            let b = to.input_port(c.to.index);
            Some(curve(a.0, a.1, b.0, b.1).path())
        },
        _ => None,
    }
}

/// The paths of all connections, oldest first.
pub fn draw_connections(nodes: &NodeStore, connections: &ConnectionSet) -> (paths: Vec<String>)
    requires
        nodes.wf(),
    ensures
        paths.deep_view() == connection_paths(nodes@, connections@),
{
    let list = connections.list();
    let mut paths: Vec<String> = Vec::new();
    let mut i: usize = 0;
    assert(paths.deep_view() =~= connection_paths(nodes@, list@.take(0)));
    while i < list.len()
        invariant
            nodes.wf(),
            i <= list@.len(),
            paths.deep_view() == connection_paths(nodes@, list@.take(i as int)),
        decreases list@.len() - i,
    {
        proof {
            assert(list@.take(i + 1).drop_last() =~= list@.take(i as int));
        }
        let ghost before = paths.deep_view();
        match draw_connection(nodes, list[i]) {
            Some(path) => {
                paths.push(path);
                assert(paths.deep_view() =~= before.push(path@));
            },
            None => {},
        }
        i += 1;
    }
    assert(list@.take(i as int) =~= list@);
    paths
}

/// The path of a connection that is being made.
pub fn draw_pending(nodes: &NodeStore, pending: PendingConnection) -> (path: Option<String>)
    requires
        nodes.wf(),
    ensures
        path.deep_view() == pending_path(nodes@, pending.from_port, pending.live_endpoint),
{
    match (pending.live_endpoint, nodes.get(pending.from_port.node_id)) {
        (Some(end), Some(from)) => {
            let a = from.output_port(pending.from_port.index);
            Some(curve(a.0, a.1, end.x as i64, end.y as i64).path())
        },
        _ => None,
    }
}

} // verus!
