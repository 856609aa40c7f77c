//! Detecting when the cursor reaches a screen edge that leads to a neighbour.

use vstd::prelude::*;
use crate::protocol::{Edges, EdgesView, EnterRemote, ExitRemote, Payload};

verus! {

/// The cursor's position and the size of the screen it is on.
#[derive(Debug, Clone, Copy, Default, PartialEq, Eq)]
pub struct CursorPosition {
    pub x: i32,
    pub y: i32,
    pub width: i32,
    pub height: i32,
}

/// The neighbour to enter, if the cursor lies within `deadzone` of an edge
/// that has one.  The edges are tried in the order left, right, top,
/// bottom, and the first that both is reached and has a neighbour wins.
pub open spec fn edge_target(pos: CursorPosition, edges: EdgesView, deadzone: i32) -> Option<Seq<char>> {
    if pos.x <= deadzone && edges.left is Some {
        edges.left
    } else if pos.x >= pos.width - deadzone && edges.right is Some {
        edges.right
    } else if pos.y <= deadzone && edges.top is Some {
        edges.top
    } else if pos.y >= pos.height - deadzone && edges.bottom is Some {
        edges.bottom
    } else {
        None
    }
}

/// Which edge wins: a reached left edge with a neighbour always; a reached
/// right edge with a neighbour unless the left one won; and so on for top
/// and bottom.  A result is always the neighbour of an edge that was
/// reached, and where no edge with a neighbour is reached there is none.
pub proof fn lemma_edge_choice(pos: CursorPosition, edges: EdgesView, deadzone: i32)
    ensures
        pos.x <= deadzone && edges.left is Some ==> edge_target(pos, edges, deadzone) == edges.left,
        !(pos.x <= deadzone && edges.left is Some) && pos.x >= pos.width - deadzone && edges.right is Some
            ==> edge_target(pos, edges, deadzone) == edges.right,
        edge_target(pos, edges, deadzone) matches Some(t) ==> (
            (pos.x <= deadzone && edges.left == Some(t))
            || (pos.x >= pos.width - deadzone && edges.right == Some(t))
            || (pos.y <= deadzone && edges.top == Some(t))
            || (pos.y >= pos.height - deadzone && edges.bottom == Some(t))),
        !(pos.x <= deadzone && edges.left is Some) && !(pos.x >= pos.width - deadzone && edges.right is Some)
            && !(pos.y <= deadzone && edges.top is Some) && !(pos.y >= pos.height - deadzone && edges.bottom is Some)
            ==> edge_target(pos, edges, deadzone) is None,
{
}

/// A wider deadzone never stops a hand-over: where a deadzone reaches an
/// edge with a neighbour, every wider one does too.
pub proof fn lemma_wider_deadzone_keeps_transition(pos: CursorPosition, edges: EdgesView, narrow: i32, wide: i32)
    requires
        narrow <= wide,
        edge_target(pos, edges, narrow) is Some,
    ensures
        edge_target(pos, edges, wide) is Some,
{
}

/// The `EnterRemote` request that the cursor's position calls for, if any.
pub fn detect_edge_transition(pos: &CursorPosition, edges: &Edges, deadzone: i32) -> (r: Option<Payload>)
    ensures
        r is Some <==> edge_target(*pos, edges@, deadzone) is Some,
        r matches Some(p) ==> p matches Payload::EnterRemote(e)
            && Some(e.target_device_id@) == edge_target(*pos, edges@, deadzone),
{
    let dz = deadzone as i64;
    if (pos.x as i64) <= dz {
        if let Some(target) = &edges.left {
            return Some(Payload::EnterRemote(EnterRemote { target_device_id: target.clone() }));
        }
    }
    if (pos.x as i64) >= (pos.width as i64) - dz {
        if let Some(target) = &edges.right {
            return Some(Payload::EnterRemote(EnterRemote { target_device_id: target.clone() }));
        }
    }
    if (pos.y as i64) <= dz {
        if let Some(target) = &edges.top {
            return Some(Payload::EnterRemote(EnterRemote { target_device_id: target.clone() }));
        }
    }
    if (pos.y as i64) >= (pos.height as i64) - dz {
        if let Some(target) = &edges.bottom {
            return Some(Payload::EnterRemote(EnterRemote { target_device_id: target.clone() }));
        }
    }
    None
}

/// The request that hands control back to the controller.
pub fn exit_remote() -> (r: Payload)
    ensures
        r is ExitRemote,
{
    Payload::ExitRemote(ExitRemote {})
}

} // verus!
