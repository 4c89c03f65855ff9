use node_canvas::connection::{Connection, PortRef};
use node_canvas::editor::{CanvasEvent, Change, Editor};
use node_canvas::geometry::Point;
use node_canvas::gesture::{DragState, Gesture, PendingConnection};
use node_canvas::node::NewNode;

fn seed(x: i32, y: i32, label: &str, inputs: usize, outputs: usize) -> NewNode {
    NewNode {
        x,
        y,
        width: 150,
        label: label.to_string(),
        inputs: (1..=inputs).map(|i| format!("in{}", i)).collect(),
        outputs: (1..=outputs).map(|i| format!("out{}", i)).collect(),
    }
}

fn three_nodes() -> Editor {
    Editor::new(vec![
        seed(100, 100, "Input", 1, 1),
        seed(400, 150, "Process", 1, 2),
        seed(700, 100, "Output", 3, 1),
    ])
}

#[test]
fn seeded_editor_starts_idle_at_life_size() {
    let editor = three_nodes();
    assert_eq!(editor.nodes().len(), 3);
    assert_eq!(editor.connections().len(), 0);
    assert_eq!(editor.scale(), 1000);
    assert_eq!(editor.gesture(), Gesture::Idle);
    let rows = editor.nodes().all();
    assert_eq!((rows[0].id, rows[0].x, rows[0].y), (0, 100, 100));
    assert_eq!((rows[1].id, rows[1].x, rows[1].y), (1, 400, 150));
    assert_eq!((rows[2].id, rows[2].x, rows[2].y), (2, 700, 100));
    assert_eq!(rows[1].label, "Process");
    assert_eq!(rows[2].input_slot.len(), 3);
    assert_eq!(rows[2].input_slot[2].id, 2);
    assert_eq!(rows[2].input_slot[2].title, "in3");
    assert_eq!(rows[1].output_slot[1].id, 1);
    assert_eq!(rows[1].output_slot[1].title, "out2");
}

#[test]
fn fourth_node_gets_id_three_and_its_place() {
    let mut editor = three_nodes();
    let id = editor.add_node();
    assert_eq!(id, 3);
    assert_eq!(editor.nodes().len(), 4);
    assert_eq!(editor.connections().len(), 0);
    let node = editor.nodes().get(3).unwrap();
    assert_eq!(node.id, 3);
    assert_eq!((node.x, node.y), (350, 290));
    assert_eq!(node.width, 150);
    assert_eq!(node.label, "Node 3");
    assert_eq!(node.input_slot.len(), 1);
    assert_eq!(node.input_slot[0].id, 0);
    assert_eq!(node.input_slot[0].title, "in1");
    assert_eq!(node.output_slot.len(), 1);
    assert_eq!(node.output_slot[0].id, 0);
    assert_eq!(node.output_slot[0].title, "out1");
    let first = editor.nodes().get(0).unwrap();
    assert_eq!((first.x, first.y), (100, 100));
}

#[test]
fn connection_from_output_to_input_of_another_node() {
    let mut editor = three_nodes();
    let from = PortRef { node_id: 1, index: 1 };
    let to = PortRef { node_id: 2, index: 2 };

    assert_eq!(editor.handle(CanvasEvent::OutputPressed { port: from }), Change::Gesture);
    assert_eq!(
        editor.gesture(),
        Gesture::Connecting(PendingConnection { from_port: from, live_endpoint: None })
    );

    let pointer = Point { x: 500, y: 500 };
    assert_eq!(editor.handle(CanvasEvent::PointerMoved { pointer }), Change::Gesture);
    assert_eq!(
        editor.gesture(),
        Gesture::Connecting(PendingConnection { from_port: from, live_endpoint: Some(pointer) })
    );

    assert_eq!(editor.handle(CanvasEvent::InputReleased { port: to }), Change::Connections);
    assert_eq!(editor.connections().list(), &vec![Connection { from, to }]);
    assert_eq!(editor.gesture(), Gesture::Idle);
}

#[test]
fn dragged_node_follows_pointer_less_offset() {
    let mut editor = three_nodes();
    let change = editor.handle(CanvasEvent::NodePressed {
        node_id: 0,
        pointer: Point { x: 120, y: 120 },
    });
    assert_eq!(change, Change::Gesture);
    assert_eq!(
        editor.gesture(),
        Gesture::Dragging(DragState { node_id: 0, offset_x: 20, offset_y: 20 })
    );
    let change = editor.handle(CanvasEvent::PointerMoved { pointer: Point { x: 200, y: 200 } });
    assert_eq!(change, Change::Node(0));
    let node = editor.nodes().get(0).unwrap();
    assert_eq!((node.x, node.y), (180, 180));
    let other = editor.nodes().get(1).unwrap();
    assert_eq!((other.x, other.y), (400, 150));
}

#[test]
fn five_wheel_turns_stop_at_twice_life_size() {
    let mut editor = three_nodes();
    let mut seen = Vec::new();
    for _ in 0..5 {
        assert_eq!(editor.handle(CanvasEvent::Wheel { delta_y: -100 }), Change::Scale);
        seen.push(editor.scale());
    }
    assert_eq!(seen, vec![1500, 2000, 2000, 2000, 2000]);
    assert_eq!(editor.scale(), 2000);
}

#[test]
fn pointer_up_without_gesture_changes_nothing() {
    let mut editor = three_nodes();
    assert_eq!(editor.handle(CanvasEvent::PointerReleased), Change::Nothing);
    assert_eq!(editor.gesture(), Gesture::Idle);
    assert_eq!(editor.connections().len(), 0);
    assert_eq!(editor.scale(), 1000);
    let rows = editor.nodes().all();
    assert_eq!(rows.len(), 3);
    assert_eq!((rows[0].x, rows[0].y), (100, 100));
    assert_eq!((rows[1].x, rows[1].y), (400, 150));
    assert_eq!((rows[2].x, rows[2].y), (700, 100));
    assert_eq!(editor.handle(CanvasEvent::PointerReleased), Change::Nothing);
    assert_eq!(
        editor.handle(CanvasEvent::InputReleased { port: PortRef { node_id: 2, index: 0 } }),
        Change::Nothing
    );
    assert_eq!(editor.handle(CanvasEvent::FocusLost), Change::Nothing);
    assert_eq!(editor.connections().len(), 0);
    assert_eq!(editor.gesture(), Gesture::Idle);
}
