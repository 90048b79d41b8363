//! Pointer operations: reading and moving the cursor, and clicking.

use vstd::prelude::*;
use crate::session::{EVENT_SPACING_MS, InputEvent, Session, SessionView, Step, fresh, refused};
use crate::symbols::{ButtonKind, button_named};
use crate::text::{decimal, decimal_text, lower_of, push_text};

verus! {

/// The session that reads the cursor position.
pub open spec fn locating() -> SessionView {
    fresh(seq![Step::ReadCursor], Seq::empty(), false)
}

/// The session that reads the cursor position.
pub fn get_cursor_position() -> (r: Session)
    ensures
        r@ == locating(),
{
    let mut steps: Vec<Step> = Vec::new();
    steps.push(Step::ReadCursor);
    assert(steps@ =~= seq![Step::ReadCursor]);
    Session::planned(steps, String::new(), false)
}

pub open spec fn moved_message(x: i32, y: i32) -> Seq<char> {
    "Cursor moved to ("@ + decimal(x as int) + ", "@ + decimal(y as int) + ")"@
}

/// The session that puts the cursor at (`x`, `y`).
pub open spec fn moving(x: i32, y: i32) -> SessionView {
    fresh(seq![Step::MoveCursor { x, y }], moved_message(x, y), false)
}

/// The session that puts the cursor at (`x`, `y`). Bounds are left to the
/// platform, which may refuse the position.
pub fn move_cursor(x: i32, y: i32) -> (r: Session)
    ensures
        r@ == moving(x, y),
{
    let mut steps: Vec<Step> = Vec::new();
    steps.push(Step::MoveCursor { x, y });
    assert(steps@ =~= seq![Step::MoveCursor { x, y }]);
    let mut summary = String::from_str("Cursor moved to (");
    let xs = decimal_text(x as i64);
    push_text(&mut summary, xs.as_str());
    push_text(&mut summary, ", ");
    let ys = decimal_text(y as i64);
    push_text(&mut summary, ys.as_str());
    push_text(&mut summary, ")");
    Session::planned(steps, summary, false)
}

/// Read the cursor, then press and release the button with a pause between.
pub open spec fn button_steps(b: ButtonKind) -> Seq<Step> {
    seq![
        Step::ReadCursor,
        Step::Send { event: InputEvent::ButtonDown(b) },
        Step::Pause { ms: EVENT_SPACING_MS },
        Step::Send { event: InputEvent::ButtonUp(b) },
    ]
}

/// The steps of a click, moving the cursor first where both coordinates
/// are given.
pub open spec fn click_steps(b: ButtonKind, x: Option<i32>, y: Option<i32>) -> Seq<Step> {
    if x is Some && y is Some {
        seq![Step::MoveCursor { x: x->0, y: y->0 }] + button_steps(b)
    } else {
        button_steps(b)
    }
}

/// The steps that click button `b`, at (`x`, `y`) where both are given.
pub fn click_plan(b: ButtonKind, x: Option<i32>, y: Option<i32>) -> (r: Vec<Step>)
    ensures
        r@ == click_steps(b, x, y),
{
    let mut steps: Vec<Step> = Vec::new();
    if let (Some(px), Some(py)) = (x, y) {
        steps.push(Step::MoveCursor { x: px, y: py });
    }
    steps.push(Step::ReadCursor);
    steps.push(Step::Send { event: InputEvent::ButtonDown(b) });
    steps.push(Step::Pause { ms: EVENT_SPACING_MS });
    steps.push(Step::Send { event: InputEvent::ButtonUp(b) });
    assert(steps@ =~= click_steps(b, x, y));
    steps
}

/// The session that clicks the named button; one that has failed already
/// where the name is not a button's.
pub open spec fn clicking(button: Seq<char>, x: Option<i32>, y: Option<i32>) -> SessionView {
    match button_named(lower_of(button)) {
        Some(b) => fresh(click_steps(b, x, y), "Clicked "@ + button + " button"@, true),
        None => refused("Unsupported button: "@ + button),
    }
}

/// The session that clicks `button` (a name in any case), at (`x`, `y`)
/// where both are given and else where the cursor is. An unknown button
/// name gives a session that has already failed and does nothing. On
/// success the message names the button and the cursor position read just
/// before the button went down.
pub fn click(button: &str, x: Option<i32>, y: Option<i32>) -> (r: Session)
    ensures
        r@ == clicking(button@, x, y),
{
    let kind = match ButtonKind::parse(button) {
        Some(b) => b,
        None => {
            let mut message = String::from_str("Unsupported button: ");
            push_text(&mut message, button);
            return Session::rejected(message);
        },
    };
    let steps = click_plan(kind, x, y);
    let mut summary = String::from_str("Clicked ");
    push_text(&mut summary, button);
    push_text(&mut summary, " button");
    Session::planned(steps, summary, true)
}

} // verus!
