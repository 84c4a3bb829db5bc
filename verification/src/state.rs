//! The JSON texts that the readable characteristics serve, and when the
//! state characteristic notifies.
use vstd::prelude::*;
use crate::text::{int_decimal, push_int_decimal};

verus! {

/// What the state characteristic reports of a running motor controller.
#[derive(Clone, Copy, Debug, PartialEq, Eq, Structural)]
pub struct MotorSnapshot {
    /// Whether the motor is paused.
    pub paused: bool,
    /// The speed in beats per minute, as a whole number.
    pub speed: i32,
    /// The stroke depth in percent, as a whole number.
    pub stroke: i32,
}

/// The state JSON object with the given fields, in the order the app reads.
pub open spec fn state_json(
    state: Seq<char>,
    speed: int,
    stroke: int,
    sensation: int,
    depth: int,
    pattern: int,
) -> Seq<char> {
    "{\"state\":\""@ + state + "\",\"speed\":"@ + int_decimal(speed) + ",\"stroke\":"@
        + int_decimal(stroke) + ",\"sensation\":"@ + int_decimal(sensation) + ",\"depth\":"@
        + int_decimal(depth) + ",\"pattern\":"@ + int_decimal(pattern) + "}"@
}

/// The state that is reported: the menu while paused, the stroking mode
/// otherwise, and an error state where there is no controller.
pub open spec fn reported_state(snapshot: Option<MotorSnapshot>) -> Seq<char> {
    match snapshot {
        Some(s) => if s.paused {
            "menu.idle"@
        } else {
            "simplePenetration.idle"@
        },
        None => "error.idle"@,
    }
}

/// The text the state characteristic serves for `snapshot`: depth and
/// sensation are reported at 50 and the pattern at 0 while a controller is
/// available; everything is 0 without one.
pub open spec fn spec_state_json(snapshot: Option<MotorSnapshot>) -> Seq<char> {
    match snapshot {
        Some(s) => state_json(reported_state(snapshot), s.speed as int, s.stroke as int, 50, 50, 0),
        None => state_json(reported_state(snapshot), 0, 0, 0, 0, 0),
    }
}

/// Generate current state as JSON string
pub fn get_current_state_json(snapshot: Option<MotorSnapshot>) -> (r: String)
    ensures
        r@ == spec_state_json(snapshot),
{
    let (state, speed, stroke, depth, sensation, pattern) = match snapshot {
        Some(s) => {
            let state = if s.paused {
                "menu.idle"
            } else {
                "simplePenetration.idle"
            };
            (state, s.speed, s.stroke, 50i32, 50i32, 0i32)
        },
        None => ("error.idle", 0i32, 0i32, 0i32, 0i32, 0i32),
    };
    let mut r = String::from_str("{\"state\":\"");
    r.append(state);
    r.append("\",\"speed\":");
    push_int_decimal(&mut r, speed);
    r.append(",\"stroke\":");
    push_int_decimal(&mut r, stroke);
    r.append(",\"sensation\":");
    push_int_decimal(&mut r, sensation);
    r.append(",\"depth\":");
    push_int_decimal(&mut r, depth);
    r.append(",\"pattern\":");
    push_int_decimal(&mut r, pattern);
    r.append("}");
    r
}

/// The pattern names, in the order of the pattern indices.
pub open spec fn patterns_text() -> Seq<char> {
    "[\"Simple Stroke\",\"Teasing\",\"Robotic\",\"Half'n Half\",\"Deeper\",\"Stop'n Go\",\"Insist\"]"@
}

/// Generate available patterns as JSON
pub fn get_patterns_json() -> (r: String)
    ensures
        r@ == patterns_text(),
{
    String::from_str(
        "[\"Simple Stroke\",\"Teasing\",\"Robotic\",\"Half'n Half\",\"Deeper\",\"Stop'n Go\",\"Insist\"]",
    )
}

/// One round of state notification while a client is connected: the state
/// is sent, and becomes the last one sent, exactly when it differs from the
/// last one sent.
pub fn state_to_notify(last_state: &String, current_state: String) -> (r: Option<String>)
    ensures
        r == (if current_state@ == last_state@ {
            None
        } else {
            Some(current_state)
        }),
{
    if current_state == *last_state {
        None
    } else {
        Some(current_state)
    }
}

} // verus!
