use node_canvas::connection::{Connection, PortRef};
use node_canvas::editor::{CanvasEvent, Change, Editor};
use node_canvas::geometry::Point;
use node_canvas::gesture::{DragState, Gesture, PendingConnection};
use node_canvas::node::NewNode;

fn plain(x: i32, y: i32) -> NewNode {
    NewNode {
        x,
        y,
        width: 150,
        label: "n".to_string(),
        inputs: vec!["in1".to_string()],
        outputs: vec!["out1".to_string()],
    }
}

fn editor() -> Editor {
    Editor::new(vec![plain(100, 100), plain(400, 150), plain(700, 100)])
}

fn port(node_id: usize, index: u32) -> PortRef {
    PortRef { node_id, index }
}

fn positions(editor: &Editor) -> Vec<(i32, i32)> {
    editor.nodes().all().iter().map(|n| (n.x, n.y)).collect()
}

#[test]
fn drag_result_depends_on_last_move_only() {
    let mut straight = editor();
    straight.on_mouse_down(1, Point { x: 410, y: 170 });
    straight.on_mouse_move(Point { x: 50, y: 60 });
    straight.on_mouse_up();

    let mut winding = editor();
    winding.on_mouse_down(1, Point { x: 410, y: 170 });
    winding.on_mouse_move(Point { x: 900, y: -300 });
    winding.on_mouse_move(Point { x: -7, y: 12 });
    winding.on_mouse_move(Point { x: 50, y: 60 });
    winding.on_mouse_up();

    assert_eq!(positions(&straight), vec![(100, 100), (40, 40), (700, 100)]);
    assert_eq!(positions(&winding), positions(&straight));
    assert_eq!(straight.gesture(), Gesture::Idle);
    assert_eq!(winding.gesture(), Gesture::Idle);
}

#[test]
fn drag_without_move_leaves_node_in_place() {
    let mut editor = editor();
    assert_eq!(editor.on_mouse_down(2, Point { x: 710, y: 130 }), Change::Gesture);
    assert_eq!(editor.on_mouse_up(), Change::Gesture);
    assert_eq!(positions(&editor), vec![(100, 100), (400, 150), (700, 100)]);
    assert_eq!(editor.gesture(), Gesture::Idle);
}

#[test]
fn moves_after_release_do_not_move_the_node() {
    let mut editor = editor();
    editor.on_mouse_down(0, Point { x: 100, y: 100 });
    editor.on_mouse_move(Point { x: 110, y: 120 });
    editor.on_mouse_up();
    assert_eq!(editor.on_mouse_move(Point { x: 500, y: 500 }), Change::Nothing);
    assert_eq!(positions(&editor)[0], (110, 120));
}

#[test]
fn press_on_missing_node_is_ignored() {
    let mut editor = editor();
    assert_eq!(editor.on_mouse_down(3, Point { x: 1, y: 1 }), Change::Nothing);
    assert_eq!(editor.gesture(), Gesture::Idle);
    assert_eq!(editor.on_mouse_move(Point { x: 9, y: 9 }), Change::Nothing);
    assert_eq!(positions(&editor), vec![(100, 100), (400, 150), (700, 100)]);
}

#[test]
fn press_on_node_body_while_connecting_is_ignored() {
    let mut editor = editor();
    editor.start_connection(port(0, 0));
    assert_eq!(editor.on_mouse_down(1, Point { x: 410, y: 160 }), Change::Nothing);
    assert_eq!(
        editor.gesture(),
        Gesture::Connecting(PendingConnection { from_port: port(0, 0), live_endpoint: None })
    );
}

#[test]
fn press_on_node_body_while_dragging_keeps_the_drag() {
    let mut editor = editor();
    editor.on_mouse_down(0, Point { x: 105, y: 106 });
    assert_eq!(editor.on_mouse_down(1, Point { x: 410, y: 160 }), Change::Nothing);
    assert_eq!(
        editor.gesture(),
        Gesture::Dragging(DragState { node_id: 0, offset_x: 5, offset_y: 6 })
    );
}

#[test]
fn press_on_output_port_replaces_a_drag() {
    let mut editor = editor();
    editor.on_mouse_down(0, Point { x: 105, y: 106 });
    assert_eq!(editor.start_connection(port(1, 0)), Change::Gesture);
    assert_eq!(
        editor.gesture(),
        Gesture::Connecting(PendingConnection { from_port: port(1, 0), live_endpoint: None })
    );
    assert_eq!(editor.on_mouse_move(Point { x: 300, y: 300 }), Change::Gesture);
    assert_eq!(positions(&editor)[0], (100, 100));
}

#[test]
fn ports_of_one_node_are_not_connected() {
    let mut editor = editor();
    editor.start_connection(port(1, 0));
    editor.on_mouse_move(Point { x: 390, y: 200 });
    assert_eq!(editor.end_connection(port(1, 0)), Change::Gesture);
    assert_eq!(editor.connections().len(), 0);
    assert_eq!(editor.gesture(), Gesture::Idle);
}

#[test]
fn release_elsewhere_gives_the_connection_up() {
    let mut editor = editor();
    editor.start_connection(port(0, 0));
    editor.on_mouse_move(Point { x: 390, y: 200 });
    assert_eq!(editor.on_mouse_up(), Change::Gesture);
    assert_eq!(editor.gesture(), Gesture::Idle);
    assert_eq!(editor.end_connection(port(1, 0)), Change::Nothing);
    assert_eq!(editor.connections().len(), 0);
}

#[test]
fn release_on_input_port_ends_a_drag_without_connecting() {
    let mut editor = editor();
    editor.on_mouse_down(0, Point { x: 100, y: 100 });
    assert_eq!(editor.end_connection(port(1, 0)), Change::Gesture);
    assert_eq!(editor.gesture(), Gesture::Idle);
    assert_eq!(editor.connections().len(), 0);
}

#[test]
fn focus_loss_ends_either_gesture() {
    let mut editor = editor();
    editor.on_mouse_down(0, Point { x: 100, y: 100 });
    assert_eq!(editor.on_focus_out(), Change::Gesture);
    assert_eq!(editor.gesture(), Gesture::Idle);
    editor.start_connection(port(0, 0));
    assert_eq!(editor.handle(CanvasEvent::FocusLost), Change::Gesture);
    assert_eq!(editor.gesture(), Gesture::Idle);
    assert_eq!(editor.end_connection(port(1, 0)), Change::Nothing);
    assert_eq!(editor.connections().len(), 0);
}

#[test]
fn same_connection_made_twice_is_held_twice() {
    let mut editor = editor();
    for _ in 0..2 {
        editor.start_connection(port(0, 0));
        assert_eq!(editor.end_connection(port(1, 0)), Change::Connections);
    }
    let wanted = Connection { from: port(0, 0), to: port(1, 0) };
    assert_eq!(editor.connections().list(), &vec![wanted, wanted]);
}

#[test]
fn connections_keep_their_order() {
    let mut editor = editor();
    editor.start_connection(port(0, 0));
    editor.end_connection(port(2, 0));
    editor.start_connection(port(2, 0));
    editor.end_connection(port(1, 0));
    assert_eq!(
        editor.connections().list(),
        &vec![
            Connection { from: port(0, 0), to: port(2, 0) },
            Connection { from: port(2, 0), to: port(1, 0) },
        ]
    );
}

#[test]
fn ports_are_not_checked_against_the_nodes() {
    let mut editor = editor();
    editor.start_connection(port(9, 4));
    assert_eq!(editor.end_connection(port(1, 7)), Change::Connections);
    assert_eq!(
        editor.connections().list(),
        &vec![Connection { from: port(9, 4), to: port(1, 7) }]
    );
    assert_eq!(editor.connection_paths(), Vec::<String>::new());
}

#[test]
fn drag_stops_at_the_ends_of_the_coordinate_range() {
    let mut editor = Editor::new(vec![plain(i32::MAX, i32::MIN)]);
    editor.on_mouse_down(0, Point { x: 0, y: 0 });
    assert_eq!(
        editor.gesture(),
        Gesture::Dragging(DragState {
            node_id: 0,
            offset_x: -(i32::MAX as i64),
            offset_y: -(i32::MIN as i64),
        })
    );
    assert_eq!(editor.on_mouse_move(Point { x: 10, y: -10 }), Change::Node(0));
    assert_eq!(positions(&editor), vec![(i32::MAX, i32::MIN)]);
    editor.on_mouse_move(Point { x: -10, y: 10 });
    assert_eq!(positions(&editor), vec![(i32::MAX - 10, i32::MIN + 10)]);
}

#[test]
fn wheel_leaves_gesture_and_nodes_alone() {
    let mut editor = editor();
    editor.on_mouse_down(1, Point { x: 400, y: 150 });
    assert_eq!(editor.on_wheel_y(-40), Change::Scale);
    assert_eq!(editor.scale(), 1200);
    assert_eq!(
        editor.gesture(),
        Gesture::Dragging(DragState { node_id: 1, offset_x: 0, offset_y: 0 })
    );
    assert_eq!(positions(&editor), vec![(100, 100), (400, 150), (700, 100)]);
}

#[test]
fn new_node_during_a_gesture_keeps_the_gesture() {
    let mut editor = editor();
    editor.start_connection(port(0, 0));
    assert_eq!(editor.add_node(), 3);
    assert_eq!(editor.add_node(), 4);
    assert_eq!(
        editor.gesture(),
        Gesture::Connecting(PendingConnection { from_port: port(0, 0), live_endpoint: None })
    );
    assert_eq!(editor.end_connection(port(4, 0)), Change::Connections);
    let node = editor.nodes().get(4).unwrap();
    assert_eq!((node.x, node.y), (400, 320));
    assert_eq!(node.label, "Node 4");
}

#[test]
fn wheel_and_body_presses_do_not_end_a_pending_connection() {
    let mut editor = editor();
    editor.start_connection(port(0, 0));
    editor.on_mouse_move(Point { x: 300, y: 300 });
    editor.on_wheel_y(-10);
    editor.on_mouse_down(1, Point { x: 410, y: 160 });
    editor.on_mouse_move(Point { x: 390, y: 200 });
    assert_eq!(editor.end_connection(port(1, 0)), Change::Connections);
    assert_eq!(
        editor.connections().list(),
        &vec![Connection { from: port(0, 0), to: port(1, 0) }]
    );
    assert_eq!(positions(&editor), vec![(100, 100), (400, 150), (700, 100)]);
    assert_eq!(editor.scale(), 1050);
}

#[test]
fn second_press_on_an_output_port_replaces_the_first() {
    let mut editor = editor();
    editor.start_connection(port(0, 0));
    editor.on_mouse_move(Point { x: 300, y: 300 });
    editor.start_connection(port(2, 0));
    assert_eq!(
        editor.gesture(),
        Gesture::Connecting(PendingConnection { from_port: port(2, 0), live_endpoint: None })
    );
    editor.end_connection(port(1, 0));
    assert_eq!(
        editor.connections().list(),
        &vec![Connection { from: port(2, 0), to: port(1, 0) }]
    );
}
