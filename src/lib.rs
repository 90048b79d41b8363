//! Pointer, keyboard and display automation: symbol tables, event planning
//! and the decision logic of each operation, driven by a platform backend.

use vstd::prelude::*;

pub mod keyboard;
pub mod mouse;
pub mod screen;
pub mod session;
pub mod symbols;
pub mod text;

use crate::screen::{CaptureError, CaptureState, unsupported_platform, unsupported_platform_message};
use crate::session::{Session, SessionView, refused};

verus! {

/// A screen coordinate, or a screen size (width in `x`, height in `y`).
#[derive(Clone, Copy, Debug, PartialEq, Eq, Structural)]
pub struct Point {
    pub x: i32,
    pub y: i32,
}

/// A pointer request as a client may describe it.
#[derive(Debug)]
pub struct MouseEvent {
    pub action: String,
    pub x: Option<i32>,
    pub y: Option<i32>,
    pub button: Option<String>,
}

/// A keyboard request as a client may describe it.
#[derive(Debug)]
pub struct KeyboardEvent {
    pub action: String,
    pub key: String,
    pub modifiers: Option<Vec<String>>,
}

/// serde_json's `Value`, carried unread as the payload of a result envelope.
#[verifier::external_type_specification]
#[verifier::external_body]
pub struct ExJsonValue(serde_json::Value);

/// The uniform outcome of an operation: whether it succeeded, a readable
/// message, and an optional structured payload.
pub struct AutomationResult {
    pub success: bool,
    pub message: Option<String>,
    pub data: Option<serde_json::Value>,
}

/// The host the operations run on.
#[derive(Clone, Copy, Debug, PartialEq, Eq, Structural)]
pub enum Platform {
    /// A host with a backend for every operation.
    Windows,
    /// A host without a backend: every operation fails at once.
    Unsupported,
}

/// The session `v` where the platform has a backend, and else a session
/// that has failed before doing anything.
pub open spec fn gated(platform: Platform, v: SessionView) -> SessionView {
    match platform {
        Platform::Windows => v,
        Platform::Unsupported => refused(unsupported_platform_message()),
    }
}

/// Reads the cursor position; finish the session with
/// [`Session::finish_reading`].
pub fn get_cursor_position(platform: Platform) -> (r: Session)
    ensures
        r@ == gated(platform, mouse::locating()),
{
    match platform {
        Platform::Windows => mouse::get_cursor_position(),
        Platform::Unsupported => Session::rejected(unsupported_platform()),
    }
}

/// Moves the cursor to (`x`, `y`).
pub fn move_cursor(platform: Platform, x: i32, y: i32) -> (r: Session)
    ensures
        r@ == gated(platform, mouse::moving(x, y)),
{
    match platform {
        Platform::Windows => mouse::move_cursor(x, y),
        Platform::Unsupported => Session::rejected(unsupported_platform()),
    }
}

/// Clicks a button, at (`x`, `y`) where both are given.
pub fn click(platform: Platform, button: &str, x: Option<i32>, y: Option<i32>) -> (r: Session)
    ensures
        r@ == gated(platform, mouse::clicking(button@, x, y)),
{
    match platform {
        Platform::Windows => mouse::click(button, x, y),
        Platform::Unsupported => Session::rejected(unsupported_platform()),
    }
}

/// Types a text, skipping the characters that have no key.
pub fn type_text(platform: Platform, text: &str) -> (r: Session)
    ensures
        r@ == gated(platform, keyboard::typing(text@)),
{
    match platform {
        Platform::Windows => keyboard::type_text(text),
        Platform::Unsupported => Session::rejected(unsupported_platform()),
    }
}

/// Presses a key with modifiers held.
pub fn press_key(platform: Platform, key: &str, modifiers: Option<Vec<String>>) -> (r: Session)
    ensures
        r@ == gated(platform, keyboard::pressing(key@, keyboard::names_of(modifiers))),
{
    match platform {
        Platform::Windows => keyboard::press_key(key, modifiers),
        Platform::Unsupported => Session::rejected(unsupported_platform()),
    }
}

/// Reads the primary display's size; finish the session with
/// [`Session::finish_reading`].
pub fn get_screen_size(platform: Platform) -> (r: Session)
    ensures
        r@ == gated(platform, screen::measuring()),
{
    match platform {
        Platform::Windows => screen::get_screen_size(),
        Platform::Unsupported => Session::rejected(unsupported_platform()),
    }
}

/// Starts a capture of the active window or of the whole primary display.
pub fn capture(platform: Platform, active_window: bool) -> (r: CaptureState)
    ensures
        platform is Unsupported ==> r matches CaptureState::Finished(
            Err(CaptureError::UnsupportedPlatform),
        ),
        platform is Windows && active_window ==> r is FindingWindow,
        platform is Windows && !active_window ==> r is CapturingScreen,
        screen::capture_wf(r),
{
    match platform {
        Platform::Windows => screen::take_screenshot(active_window),
        Platform::Unsupported => CaptureState::Finished(Err(CaptureError::UnsupportedPlatform)),
    }
}

/// The envelope of a failed operation: no success, the message, no data.
pub fn failure_result(message: String) -> (r: AutomationResult)
    ensures
        !r.success,
        r.message matches Some(m) && m@ == message@,
        r.data is None,
{
    AutomationResult { success: false, message: Some(message), data: None }
}

/// The envelope of any operation's outcome: an action's own envelope, or the
/// failure envelope of its message.
pub fn into_result(outcome: Result<AutomationResult, String>) -> (r: AutomationResult)
    ensures
        outcome matches Err(e) ==> {
            &&& !r.success
            &&& r.data is None
            &&& r.message matches Some(m) && m@ == e@
        },
        outcome matches Ok(a) ==> r == a,
{
    match outcome {
        Ok(a) => a,
        Err(m) => failure_result(m),
    }
}

/// A session on a host without a backend has nothing to perform and
/// reports the unsupported-platform message.
pub proof fn lemma_unsupported_platform_does_nothing(v: SessionView)
    ensures
        gated(Platform::Unsupported, v).pending() is None,
        gated(Platform::Unsupported, v).failure == Some(unsupported_platform_message()),
{
}

} // verus!
