//! Input-event decisions: the pure rules behind the host's keyboard,
//! mouse and wheel handlers.
//!
//! The host captures raw events and hands their payloads in as plain
//! values; these functions decide what the engine should be asked to do.
//! Performing the request (including evaluating the sine and cosine of a
//! rotation step) stays with the host.

use crate::fixed::{div_floor, lemma_div_stays_in_range, ONE, OP_LIMIT};
use crate::operation::OperationType;
use vstd::prelude::*;

verus! {

pub const KEY_NONE: i32 = 0;
pub const KEY_MOVE_RIGHT: i32 = 1;
pub const KEY_MOVE_LEFT: i32 = 2;
pub const KEY_MOVE_UP: i32 = 3;
pub const KEY_MOVE_DOWN: i32 = 4;
pub const KEY_ROTATE_LEFT: i32 = 5;
pub const KEY_ROTATE_RIGHT: i32 = 6;
pub const KEY_ROTATE_UP: i32 = 7;
pub const KEY_ROTATE_DOWN: i32 = 8;
pub const KEY_PAGE_UP: i32 = 9;
pub const KEY_PAGE_DOWN: i32 = 10;
pub const KEY_HOME: i32 = 11;
pub const KEY_END: i32 = 12;
pub const KEY_MINUS: i32 = 13;
pub const KEY_PLUS: i32 = 14;

/// What a key press asks the host to do with the engine.
#[derive(Clone, Copy, PartialEq, Eq, Structural, Debug)]
pub enum KeyAction {
    /// The key maps to nothing: leave the engine alone.
    Idle,
    /// The same key came twice in a row while an operation ran: cancel
    /// the operation.
    Stop,
    /// Set up this operation with these totals over this many frames.
    Request { op: OperationType, frames: u32, x: i64, y: i64, z: i64 },
}

/// The outcome of one key press: the remembered key and step size after
/// the press, and the action to take.
#[derive(Clone, Copy, PartialEq, Eq, Structural, Debug)]
pub struct KeyOutcome {
    pub prev_key: i32,
    pub step_size: i64,
    pub action: KeyAction,
}

/// Half of a step size, rounded toward minus infinity.
pub open spec fn half_step(s: i64) -> i64 {
    ((s as int) / 2) as i64
}

/// The keyboard rule.  A key repeated while an operation runs stops it
/// (and leaves the remembered key alone).  The minus and plus keys lower
/// or raise the step size by five units and then re-issue the previously
/// remembered key, so the running change picks the new speed up.  The
/// move keys translate by half a step, the rotate keys rotate by a full
/// step about the matching axes, always across twelve frames; any other
/// key does nothing.
pub open spec fn key_press_spec(
    key_val: i32,
    prev_key: i32,
    step_size: i64,
    op_active: bool,
) -> KeyOutcome {
    if key_val == prev_key && op_active {
        KeyOutcome { prev_key, step_size, action: KeyAction::Stop }
    } else {
        let stp = if key_val == KEY_MINUS {
            (step_size - 5 * ONE) as i64
        } else if key_val == KEY_PLUS {
            (step_size + 5 * ONE) as i64
        } else {
            step_size
        };
        let kv = if key_val == KEY_MINUS || key_val == KEY_PLUS {
            prev_key
        } else {
            key_val
        };
        let half = half_step(stp);
        let action = if kv == KEY_MOVE_LEFT {
            KeyAction::Request { op: OperationType::Translate, frames: 12, x: half, y: 0, z: 0 }
        } else if kv == KEY_MOVE_RIGHT {
            KeyAction::Request {
                op: OperationType::Translate,
                frames: 12,
                x: (-half) as i64,
                y: 0,
                z: 0,
            }
        } else if kv == KEY_MOVE_UP {
            KeyAction::Request { op: OperationType::Translate, frames: 12, x: 0, y: half, z: 0 }
        } else if kv == KEY_MOVE_DOWN {
            KeyAction::Request {
                op: OperationType::Translate,
                frames: 12,
                x: 0,
                y: (-half) as i64,
                z: 0,
            }
        } else if kv == KEY_ROTATE_LEFT {
            KeyAction::Request {
                op: OperationType::Rotate,
                frames: 12,
                x: 0,
                y: (-stp) as i64,
                z: 0,
            }
        } else if kv == KEY_ROTATE_RIGHT {
            KeyAction::Request { op: OperationType::Rotate, frames: 12, x: 0, y: stp, z: 0 }
        } else if kv == KEY_ROTATE_UP {
            KeyAction::Request {
                op: OperationType::Rotate,
                frames: 12,
                x: (-stp) as i64,
                y: 0,
                z: 0,
            }
        } else if kv == KEY_ROTATE_DOWN {
            KeyAction::Request { op: OperationType::Rotate, frames: 12, x: stp, y: 0, z: 0 }
        } else if kv == KEY_PAGE_UP {
            KeyAction::Request {
                op: OperationType::Rotate,
                frames: 12,
                x: (-stp) as i64,
                y: stp,
                z: 0,
            }
        } else if kv == KEY_PAGE_DOWN {
            KeyAction::Request { op: OperationType::Rotate, frames: 12, x: stp, y: stp, z: 0 }
        } else if kv == KEY_HOME {
            KeyAction::Request {
                op: OperationType::Rotate,
                frames: 12,
                x: (-stp) as i64,
                y: (-stp) as i64,
                z: 0,
            }
        } else if kv == KEY_END {
            KeyAction::Request {
                op: OperationType::Rotate,
                frames: 12,
                x: stp,
                y: (-stp) as i64,
                z: 0,
            }
        } else {
            KeyAction::Idle
        };
        KeyOutcome { prev_key: kv, step_size: stp, action }
    }
}

/// Decides what one key press does, given the previously remembered key,
/// the current step size, and whether an operation is running.
pub fn key_press_decision(key_val: i32, prev_key: i32, step_size: i64, op_active: bool) -> (r:
    KeyOutcome)
    requires
        -OP_LIMIT <= step_size <= OP_LIMIT,
    ensures
        r == key_press_spec(key_val, prev_key, step_size, op_active),
{
    if key_val == prev_key && op_active {
        return KeyOutcome { prev_key, step_size, action: KeyAction::Stop };
    }
    let stp: i64 = if key_val == KEY_MINUS {
        step_size - 5 * ONE
    } else if key_val == KEY_PLUS {
        step_size + 5 * ONE
    } else {
        step_size
    };
    let kv: i32 = if key_val == KEY_MINUS || key_val == KEY_PLUS {
        prev_key
    } else {
        key_val
    };
    let half: i64 = div_floor(stp, 2);
    proof {
        lemma_div_stays_in_range(stp as int, 2);
    }
    let action: KeyAction = if kv == KEY_MOVE_LEFT {
        KeyAction::Request { op: OperationType::Translate, frames: 12, x: half, y: 0, z: 0 }
    } else if kv == KEY_MOVE_RIGHT {
        KeyAction::Request { op: OperationType::Translate, frames: 12, x: -half, y: 0, z: 0 }
    } else if kv == KEY_MOVE_UP {
        KeyAction::Request { op: OperationType::Translate, frames: 12, x: 0, y: half, z: 0 }
    } else if kv == KEY_MOVE_DOWN {
        KeyAction::Request { op: OperationType::Translate, frames: 12, x: 0, y: -half, z: 0 }
    } else if kv == KEY_ROTATE_LEFT {
        KeyAction::Request { op: OperationType::Rotate, frames: 12, x: 0, y: -stp, z: 0 }
    } else if kv == KEY_ROTATE_RIGHT {
        KeyAction::Request { op: OperationType::Rotate, frames: 12, x: 0, y: stp, z: 0 }
    } else if kv == KEY_ROTATE_UP {
        KeyAction::Request { op: OperationType::Rotate, frames: 12, x: -stp, y: 0, z: 0 }
    } else if kv == KEY_ROTATE_DOWN {
        KeyAction::Request { op: OperationType::Rotate, frames: 12, x: stp, y: 0, z: 0 }
    } else if kv == KEY_PAGE_UP {
        KeyAction::Request { op: OperationType::Rotate, frames: 12, x: -stp, y: stp, z: 0 }
    } else if kv == KEY_PAGE_DOWN {
        KeyAction::Request { op: OperationType::Rotate, frames: 12, x: stp, y: stp, z: 0 }
    } else if kv == KEY_HOME {
        KeyAction::Request { op: OperationType::Rotate, frames: 12, x: -stp, y: -stp, z: 0 }
    } else if kv == KEY_END {
        KeyAction::Request { op: OperationType::Rotate, frames: 12, x: stp, y: -stp, z: 0 }
    } else {
        KeyAction::Idle
    };
    KeyOutcome { prev_key: kv, step_size: stp, action }
}

/// The scale factor a wheel event asks for: one plus a fifth of the wheel
/// delta, as a fixed-point factor.  The request it belongs in scales all
/// three axes by this factor across twelve frames.
pub fn wheel_scale_factor(val: i32) -> (r: i64)
    ensures
        r == ONE + (val as int) * (ONE as int) / 5,
{
    let d: i64 = (val as i64) * ONE;
    let s: i64 = div_floor(d, 5);
    proof {
        lemma_div_stays_in_range(d as int, 5);
    }
    ONE + s
}

/// Whether a mouse position lies over the source-code link area: to the
/// right of the graph and within forty pixels of the bottom.  Positions
/// and sizes are in whole pixels.
pub fn source_link_hit(client_x: i64, client_y: i64, graph_width: i64, height: i64) -> (b: bool)
    requires
        height > i64::MIN + 40,
    ensures
        b == (client_x > graph_width && client_y > height - 40),
{
    client_x > graph_width && client_y > height - 40
}

} // verus!
