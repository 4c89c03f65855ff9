//! What the pointer is in the middle of doing.

use vstd::prelude::*;
use crate::connection::PortRef;
use crate::geometry::Point;

verus! {

/// A node that is being dragged. The offset is where the pointer stood, seen
/// from the node's origin, when the drag began; it stays as it is until the
/// drag ends, so that the node follows the pointer without jumping to it.
#[derive(Clone, Copy, Debug, PartialEq, Eq, Structural)]
pub struct DragState {
    pub node_id: usize,
    pub offset_x: i64,
    pub offset_y: i64,
}

/// A connection that is being drawn from an output port. The live end is where
/// the pointer was last seen since the drawing began.
#[derive(Clone, Copy, Debug, PartialEq, Eq)]
pub struct PendingConnection {
    pub from_port: PortRef,
    pub live_endpoint: Option<Point>,
}

/// The gesture in progress. A drag and a pending connection exclude each other.
#[derive(Clone, Copy, Debug, PartialEq, Eq)]
pub enum Gesture {
    Idle,
    Dragging(DragState),
    Connecting(PendingConnection),
}

/// What a gesture is.
pub enum GestureView {
    Idle,
    Dragging { node_id: usize, offset_x: int, offset_y: int },
    Connecting { from_port: PortRef, live_endpoint: Option<Point> },
}

impl View for Gesture {
    type V = GestureView;

    open spec fn view(&self) -> GestureView {
        match *self {
            Gesture::Idle => GestureView::Idle,
            Gesture::Dragging(drag) => GestureView::Dragging {
                node_id: drag.node_id,
                offset_x: drag.offset_x as int,
                offset_y: drag.offset_y as int,
            },
            Gesture::Connecting(pending) => GestureView::Connecting {
                from_port: pending.from_port,
                live_endpoint: pending.live_endpoint,
            },
        }
    }
}

} // verus!
