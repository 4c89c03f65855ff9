//! Connections between ports.

use vstd::prelude::*;

verus! {

/// A port of a node: the node's id and the port's place in its list.
#[derive(Clone, Copy, Debug, PartialEq, Eq, Structural)]
pub struct PortRef {
    pub node_id: usize,
    pub index: u32,
}

/// A finished connection, from an output port to an input port.
#[derive(Clone, Copy, Debug, PartialEq, Eq, Structural)]
pub struct Connection {
    pub from: PortRef,
    pub to: PortRef,
}

/// The connections after one from `from` to `to` was asked for: it is appended,
/// unless both ports belong to one node.
pub open spec fn connected(list: Seq<Connection>, from: PortRef, to: PortRef) -> Seq<Connection> {
    if from.node_id == to.node_id {
        list
    } else {
        list.push(Connection { from, to })
    }
}

/// The connections of the graph, in the order in which they were made. A
/// connection made twice is held twice.
pub struct ConnectionSet {
    list: Vec<Connection>,
}

impl View for ConnectionSet {
    type V = Seq<Connection>;

    closed spec fn view(&self) -> Seq<Connection> {
        self.list@
    }
}

impl ConnectionSet {
    /// The set without connections.
    pub fn new() -> (set: ConnectionSet)
        ensures
            set@ == Seq::<Connection>::empty(),
    {
        ConnectionSet { list: Vec::new() }
    }

    /// Appends the connection from `from` to `to`, unless both ports belong to
    /// one node. Returns whether it was appended.
    pub fn add(&mut self, from: PortRef, to: PortRef) -> (done: bool)
        ensures
            final(self)@ == connected(old(self)@, from, to),
            done == (from.node_id != to.node_id),
    {
        if from.node_id == to.node_id {
            false
        } else {
            self.list.push(Connection { from, to });
            true
        }
    }

    /// All connections, oldest first.
    pub fn list(&self) -> (list: &Vec<Connection>)
        ensures
            list@ == self@,
    {
        &self.list
    }

    /// The number of connections.
    pub fn len(&self) -> (n: usize)
        ensures
            n == self@.len(),
    {
        self.list.len()
    }
}

} // verus!
