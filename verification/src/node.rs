//! Nodes and their ports.

use vstd::prelude::*;
use vstd::string::*;
use crate::decimal::{decimal, push_decimal};
use crate::geometry::{clamp_coord, to_coord};

verus! {

/// Distance between the side of a node and the ports on that side.
pub const PORT_OFFSET: i64 = 15;

/// Distance between the top of a node and its first port.
pub const PORT_VERTICAL_BASE: i64 = 50;

/// Distance between one port and the next below it.
pub const PORT_ROW_HEIGHT: i64 = 16;

/// What a port is: its place in its list and its title.
pub struct SlotView {
    pub id: nat,
    pub title: Seq<char>,
}

/// A port that accepts connections.
#[derive(Clone, Debug)]
pub struct InputSlot {
    pub id: usize,
    pub title: String,
}

/// A port that connections start from.
#[derive(Clone, Debug)]
pub struct OutputSlot {
    pub id: usize,
    pub title: String,
}

impl View for InputSlot {
    type V = SlotView;

    open spec fn view(&self) -> SlotView {
        SlotView { id: self.id as nat, title: self.title@ }
    }
}

impl View for OutputSlot {
    type V = SlotView;

    open spec fn view(&self) -> SlotView {
        SlotView { id: self.id as nat, title: self.title@ }
    }
}

/// The ports that a list of titles stands for: one port for each title, in the
/// order of the titles, each numbered by its place.
pub open spec fn slots_of(titles: Seq<Seq<char>>) -> Seq<SlotView> {
    Seq::new(titles.len(), |i: int| SlotView { id: i as nat, title: titles[i] })
}

/// Every port's number is its place in the list.
pub open spec fn slots_numbered(slots: Seq<SlotView>) -> bool {
    forall|i: int| 0 <= i < slots.len() ==> (#[trigger] slots[i]).id == i
}

/// What a list of input ports is.
pub open spec fn inputs_view(slots: Seq<InputSlot>) -> Seq<SlotView> {
    slots.map_values(|s: InputSlot| s@)
}

/// What a list of output ports is.
pub open spec fn outputs_view(slots: Seq<OutputSlot>) -> Seq<SlotView> {
    slots.map_values(|s: OutputSlot| s@)
}

/// What a node is.
pub struct NodeView {
    pub id: nat,
    pub x: int,
    pub y: int,
    pub width: int,
    pub label: Seq<char>,
    pub input_slot: Seq<SlotView>,
    pub output_slot: Seq<SlotView>,
}

impl NodeView {
    /// The ports of both lists are numbered by their places.
    pub open spec fn wf(self) -> bool {
        slots_numbered(self.input_slot) && slots_numbered(self.output_slot)
    }

    /// The same node at another position.
    pub open spec fn at(self, x: int, y: int) -> NodeView {
        NodeView { x, y, ..self }
    }

    /// Where a connection leaves output port `index`: beyond the right side of
    /// the node, one row further down for each port above it.
    pub open spec fn output_port(self, index: int) -> (int, int) {
        (self.x + self.width + PORT_OFFSET, self.y + PORT_VERTICAL_BASE + index * PORT_ROW_HEIGHT)
    }

    /// Where a connection reaches input port `index`: before the left side of
    /// the node, one row further down for each port above it.
    pub open spec fn input_port(self, index: int) -> (int, int) {
        (self.x - PORT_OFFSET, self.y + PORT_VERTICAL_BASE + index * PORT_ROW_HEIGHT)
    }
}

/// A node of the graph. Its origin is its top left corner.
#[derive(Clone, Debug)]
pub struct Node {
    pub id: usize,
    pub x: i32,
    pub y: i32,
    pub label: String,
    pub width: i32,
    pub input_slot: Vec<InputSlot>,
    pub output_slot: Vec<OutputSlot>,
}

impl View for Node {
    type V = NodeView;

    open spec fn view(&self) -> NodeView {
        NodeView {
            id: self.id as nat,
            x: self.x as int,
            y: self.y as int,
            width: self.width as int,
            label: self.label@,
            input_slot: inputs_view(self.input_slot@),
            output_slot: outputs_view(self.output_slot@),
        }
    }
}

/// What the caller gives of a node that is to be added: all but its id.
#[derive(Clone, Debug)]
pub struct NewNode {
    pub x: i32,
    pub y: i32,
    pub width: i32,
    pub label: String,
    pub inputs: Vec<String>,
    pub outputs: Vec<String>,
}

/// What is given of a node that is to be added.
pub struct NewNodeView {
    pub x: int,
    pub y: int,
    pub width: int,
    pub label: Seq<char>,
    pub inputs: Seq<Seq<char>>,
    pub outputs: Seq<Seq<char>>,
}

impl View for NewNode {
    type V = NewNodeView;

    open spec fn view(&self) -> NewNodeView {
        NewNodeView {
            x: self.x as int,
            y: self.y as int,
            width: self.width as int,
            label: self.label@,
            inputs: self.inputs.deep_view(),
            outputs: self.outputs.deep_view(),
        }
    }
}

impl NewNodeView {
    /// The node that a plain request for a new node gets, from the id that it
    /// will have: one input port and one output port, a label that names the
    /// id, and a place further right and further down for each id before it.
    pub open spec fn default_for(id: nat) -> NewNodeView {
        NewNodeView {
            x: clamp_coord(200 + id as int * 50),
            y: clamp_coord(200 + id as int * 30),
            width: 150,
            label: seq!['N', 'o', 'd', 'e', ' '] + decimal(id),
            inputs: seq![seq!['i', 'n', '1']],
            outputs: seq![seq!['o', 'u', 't', '1']],
        }
    }

    /// The node that is added for `self` under the id `id`.
    pub open spec fn with_id(self, id: nat) -> NodeView {
        NodeView {
            id,
            x: self.x,
            y: self.y,
            width: self.width,
            label: self.label,
            input_slot: slots_of(self.inputs),
            output_slot: slots_of(self.outputs),
        }
    }
}

/// One input port for each title, numbered from 0.
fn number_inputs(titles: Vec<String>) -> (slots: Vec<InputSlot>)
    ensures
        inputs_view(slots@) == slots_of(titles.deep_view()),
{
    let mut slots: Vec<InputSlot> = Vec::new();
    for title in it: titles.into_iter()
        invariant
            it.seq() == titles@,
            slots@.len() == it.index(),
            forall|i: int|
                0 <= i < slots@.len() ==> (#[trigger] slots@[i])@ == (SlotView {
                    id: i as nat,
                    title: titles@[i]@,
                }),
    {
        let id: usize = slots.len();
        slots.push(InputSlot { id, title });
    }
    assert(inputs_view(slots@) =~= slots_of(titles.deep_view()));
    slots
}

/// One output port for each title, numbered from 0.
fn number_outputs(titles: Vec<String>) -> (slots: Vec<OutputSlot>)
    ensures
        outputs_view(slots@) == slots_of(titles.deep_view()),
{
    let mut slots: Vec<OutputSlot> = Vec::new();
    for title in it: titles.into_iter()
        invariant
            it.seq() == titles@,
            slots@.len() == it.index(),
            forall|i: int|
                0 <= i < slots@.len() ==> (#[trigger] slots@[i])@ == (SlotView {
                    id: i as nat,
                    title: titles@[i]@,
                }),
    {
        let id: usize = slots.len();
        slots.push(OutputSlot { id, title });
    }
    assert(outputs_view(slots@) =~= slots_of(titles.deep_view()));
    slots
}

impl NewNode {
    /// The node that a plain request for a new node gets, from the id that it
    /// will have.
    pub fn default_for(id: usize) -> (new: NewNode)
        ensures
            new@ == NewNodeView::default_for(id as nat),
    {
        proof {
            reveal_strlit("Node ");
            reveal_strlit("in1");
            reveal_strlit("out1");
        }
        let mut label = String::from_str("Node ");
        push_decimal(&mut label, id as u128);
        let mut inputs: Vec<String> = Vec::new();
        inputs.push(String::from_str("in1"));
        let mut outputs: Vec<String> = Vec::new();
        outputs.push(String::from_str("out1"));
        let new = NewNode {
            x: to_coord(200 + id as i128 * 50),
            y: to_coord(200 + id as i128 * 30),
            width: 150,
            label,
            inputs,
            outputs,
        };
        assert(new@.label =~= NewNodeView::default_for(id as nat).label);
        assert(new@.inputs =~~= NewNodeView::default_for(id as nat).inputs);
        assert(new@.outputs =~~= NewNodeView::default_for(id as nat).outputs);
        new
    }
}

impl Node {
    /// The node that `new` describes, under the id `id`.
    pub fn new(id: usize, new: NewNode) -> (node: Node)
        ensures
            node@ == new@.with_id(id as nat),
            node@.wf(),
    {
        let NewNode { x, y, width, label, inputs, outputs } = new;
        Node {
            id,
            x,
            y,
            label,
            width,
            input_slot: number_inputs(inputs),
            output_slot: number_outputs(outputs),
        }
    }

    /// Where a connection leaves output port `index` of this node.
    pub fn output_port(&self, index: u32) -> (at: (i64, i64))
        ensures
            (at.0 as int, at.1 as int) == self@.output_port(index as int),
    {
        (
            self.x as i64 + self.width as i64 + PORT_OFFSET,
            self.y as i64 + PORT_VERTICAL_BASE + index as i64 * PORT_ROW_HEIGHT,
        )
    }

    /// Where a connection reaches input port `index` of this node.
    pub fn input_port(&self, index: u32) -> (at: (i64, i64))
        ensures
            (at.0 as int, at.1 as int) == self@.input_port(index as int),
    {
        (
            self.x as i64 - PORT_OFFSET,
            self.y as i64 + PORT_VERTICAL_BASE + index as i64 * PORT_ROW_HEIGHT,
        )
    }
}

} // verus!
