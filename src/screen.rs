//! Display queries and the capture engine.
//!
//! A capture is a small state machine: the platform backend performs the
//! action that the state asks for and hands back what came of it. Window
//! capture translates the window's rectangle into the local coordinates of
//! the display that holds its top-left corner.

use vstd::prelude::*;
use crate::session::{Session, SessionView, Step, fresh};

verus! {

/// The session that reads the primary display's width and height.
pub open spec fn measuring() -> SessionView {
    fresh(seq![Step::ReadScreenSize], Seq::empty(), false)
}

/// The session that reads the primary display's width and height.
pub fn get_screen_size() -> (r: Session)
    ensures
        r@ == measuring(),
{
    let mut steps: Vec<Step> = Vec::new();
    steps.push(Step::ReadScreenSize);
    assert(steps@ =~= seq![Step::ReadScreenSize]);
    Session::planned(steps, String::new(), false)
}

/// The eight bytes that open every PNG file.
pub open spec fn png_signature() -> Seq<u8> {
    seq![0x89u8, 0x50u8, 0x4Eu8, 0x47u8, 0x0Du8, 0x0Au8, 0x1Au8, 0x0Au8]
}

/// A PNG signature followed by at least one more byte.
pub open spec fn is_png(b: Seq<u8>) -> bool {
    b.len() > 8 && b.subrange(0, 8) == png_signature()
}

/// Whether the bytes open with the PNG signature and go on past it.
pub fn looks_like_png(bytes: &Vec<u8>) -> (r: bool)
    ensures
        r == is_png(bytes@),
{
    if bytes.len() <= 8 {
        return false;
    }
    let ok = bytes[0] == 0x89 && bytes[1] == 0x50 && bytes[2] == 0x4E && bytes[3] == 0x47
        && bytes[4] == 0x0D && bytes[5] == 0x0A && bytes[6] == 0x1A && bytes[7] == 0x0A;
    assert(ok ==> bytes@.subrange(0, 8) =~= png_signature());
    assert(bytes@.subrange(0, 8) == png_signature() ==> bytes@.subrange(0, 8)[7] == 0x0Au8);
    ok
}

/// A window's bounds in physical display coordinates; `right` and `bottom`
/// lie just past the window.
#[derive(Clone, Copy, Debug, PartialEq, Eq, Structural)]
pub struct WindowRect {
    pub left: i32,
    pub top: i32,
    pub right: i32,
    pub bottom: i32,
}

/// A rectangle in the local coordinates of one display.
#[derive(Clone, Copy, Debug, PartialEq, Eq, Structural)]
pub struct Region {
    pub x: i32,
    pub y: i32,
    pub width: u32,
    pub height: u32,
}

/// The window's rectangle relative to a display whose origin is at
/// (`dx`, `dy`); `None` where it has a negative size or its local origin
/// does not fit the coordinate type.
pub open spec fn region_in_display(r: WindowRect, dx: i32, dy: i32) -> Option<Region> {
    let x = r.left - dx;
    let y = r.top - dy;
    let w = r.right - r.left;
    let h = r.bottom - r.top;
    if i32::MIN <= x <= i32::MAX && i32::MIN <= y <= i32::MAX && 0 <= w && 0 <= h {
        Some(Region { x: x as i32, y: y as i32, width: w as u32, height: h as u32 })
    } else {
        None
    }
}

/// Translates a window's rectangle into a display's local coordinates.
pub fn locate_in_display(r: WindowRect, dx: i32, dy: i32) -> (g: Option<Region>)
    ensures
        g == region_in_display(r, dx, dy),
{
    let x = r.left as i64 - dx as i64;
    let y = r.top as i64 - dy as i64;
    let w = r.right as i64 - r.left as i64;
    let h = r.bottom as i64 - r.top as i64;
    if i32::MIN as i64 <= x && x <= i32::MAX as i64 && i32::MIN as i64 <= y && y
        <= i32::MAX as i64 && 0 <= w && 0 <= h {
        Some(Region { x: x as i32, y: y as i32, width: w as u32, height: h as u32 })
    } else {
        None
    }
}

/// Why a capture failed.
#[derive(Debug)]
pub enum CaptureError {
    /// The host has no platform backend.
    UnsupportedPlatform,
    /// No window holds the input focus.
    NoActiveWindow,
    /// The platform refused a query or a capture.
    Platform(String),
    /// The image could not be encoded as PNG.
    Encoding(String),
}

pub open spec fn unsupported_platform_message() -> Seq<char> {
    "Unsupported platform - Windows only for now"@
}

/// The message of a failed operation on a host without a backend.
pub fn unsupported_platform() -> (r: String)
    ensures
        r@ == unsupported_platform_message(),
{
    String::from_str("Unsupported platform - Windows only for now")
}

impl CaptureError {
    /// A readable description of the error.
    pub fn message(&self) -> (r: String)
        ensures
            self matches CaptureError::Platform(m) ==> r@ == m@,
            self matches CaptureError::Encoding(m) ==> r@ == m@,
            self is NoActiveWindow ==> r@ == "No foreground window found"@,
            self is UnsupportedPlatform ==> r@ == unsupported_platform_message(),
    {
        match self {
            CaptureError::UnsupportedPlatform => unsupported_platform(),
            CaptureError::NoActiveWindow => String::from_str("No foreground window found"),
            CaptureError::Platform(m) => m.clone(),
            CaptureError::Encoding(m) => m.clone(),
        }
    }
}

/// Where a capture stands, and so what the backend is to do next.
pub enum CaptureState {
    /// Find the window that holds the input focus.
    FindingWindow,
    /// Read that window's rectangle.
    ReadingWindowRect,
    /// Find the display that holds the rectangle's top-left corner, and
    /// report its origin.
    LocatingDisplay(WindowRect),
    /// Capture the whole primary display.
    CapturingScreen,
    /// Capture this region of the display that was located.
    CapturingRegion(Region),
    /// Encode the captured image as PNG with default compression.
    Encoding,
    /// The capture is over.
    Finished(Result<Vec<u8>, CaptureError>),
}

/// What the backend hands back after performing a capture action.
pub enum CaptureEvent {
    /// Whether a window holds the input focus.
    ForegroundWindow(bool),
    /// The window's rectangle, or `None` where the platform gave none.
    WindowRect(Option<WindowRect>),
    /// The origin of the display that was found.
    DisplayOrigin { x: i32, y: i32 },
    /// The capture was taken.
    Captured,
    /// The platform refused the action, with its description.
    PlatformFailure(String),
    /// The PNG encoder's output.
    Encoded(Vec<u8>),
    /// The PNG encoder's failure, with its description.
    EncodingFailure(String),
}

/// A finished capture that succeeded holds a PNG image.
pub open spec fn capture_wf(s: CaptureState) -> bool {
    s matches CaptureState::Finished(Ok(b)) ==> is_png(b@)
}

/// The state after the event `e` in state `s`. An event that does not
/// answer the state's action leaves it as it is, and so does any event once
/// the capture is over.
pub open spec fn capture_next(s: CaptureState, e: CaptureEvent, r: CaptureState) -> bool {
    match (s, e) {
        (CaptureState::FindingWindow, CaptureEvent::ForegroundWindow(found)) => if found {
            r is ReadingWindowRect
        } else {
            r matches CaptureState::Finished(Err(CaptureError::NoActiveWindow))
        },
        (CaptureState::ReadingWindowRect, CaptureEvent::WindowRect(rect)) => match rect {
            Some(w) => r == CaptureState::LocatingDisplay(w),
            None => r matches CaptureState::Finished(Err(CaptureError::Platform(m)))
                && m@ == "Failed to get foreground window rect"@,
        },
        (CaptureState::LocatingDisplay(w), CaptureEvent::DisplayOrigin { x, y }) => match region_in_display(w, x, y) {
            Some(g) => r == CaptureState::CapturingRegion(g),
            None => r matches CaptureState::Finished(Err(CaptureError::Platform(m)))
                && m@ == "Window rect cannot be placed on its display"@,
        },
        (CaptureState::LocatingDisplay(_), CaptureEvent::PlatformFailure(m)) => r
            == CaptureState::Finished(Err(CaptureError::Platform(m))),
        (CaptureState::CapturingScreen, CaptureEvent::Captured) => r is Encoding,
        (CaptureState::CapturingRegion(_), CaptureEvent::Captured) => r is Encoding,
        (CaptureState::CapturingScreen, CaptureEvent::PlatformFailure(m)) => r
            == CaptureState::Finished(Err(CaptureError::Platform(m))),
        (CaptureState::CapturingRegion(_), CaptureEvent::PlatformFailure(m)) => r
            == CaptureState::Finished(Err(CaptureError::Platform(m))),
        (CaptureState::Encoding, CaptureEvent::Encoded(b)) => if is_png(b@) {
            r == CaptureState::Finished(Ok(b))
        } else {
            r matches CaptureState::Finished(Err(CaptureError::Encoding(m)))
                && m@ == "Encoder output is not a PNG image"@
        },
        (CaptureState::Encoding, CaptureEvent::EncodingFailure(m)) => r == CaptureState::Finished(
            Err(CaptureError::Encoding(m)),
        ),
        _ => r == s,
    }
}

/// The first state of a capture of the active window or of the whole
/// primary display.
pub fn take_screenshot(active_window: bool) -> (r: CaptureState)
    ensures
        active_window ==> r is FindingWindow,
        !active_window ==> r is CapturingScreen,
        capture_wf(r),
{
    if active_window {
        CaptureState::FindingWindow
    } else {
        CaptureState::CapturingScreen
    }
}

impl CaptureState {
    /// Moves the capture on by what the backend reports. A capture that
    /// ends well ends with the bytes of a PNG image.
    pub fn advance(self, e: CaptureEvent) -> (r: CaptureState)
        ensures
            capture_next(self, e, r),
            capture_wf(self) ==> capture_wf(r),
    {
        match (self, e) {
            (CaptureState::FindingWindow, CaptureEvent::ForegroundWindow(found)) => {
                if found {
                    CaptureState::ReadingWindowRect
                } else {
                    CaptureState::Finished(Err(CaptureError::NoActiveWindow))
                }
            },
            (CaptureState::ReadingWindowRect, CaptureEvent::WindowRect(rect)) => match rect {
                Some(w) => CaptureState::LocatingDisplay(w),
                None => CaptureState::Finished(
                    Err(
                        CaptureError::Platform(
                            String::from_str("Failed to get foreground window rect"),
                        ),
                    ),
                ),
            },
            (CaptureState::LocatingDisplay(w), CaptureEvent::DisplayOrigin { x, y }) => {
                match locate_in_display(w, x, y) {
                    Some(g) => CaptureState::CapturingRegion(g),
                    None => CaptureState::Finished(
                        Err(
                            CaptureError::Platform(
                                String::from_str("Window rect cannot be placed on its display"),
                            ),
                        ),
                    ),
                }
            },
            (CaptureState::LocatingDisplay(_), CaptureEvent::PlatformFailure(m))
            | (CaptureState::CapturingScreen, CaptureEvent::PlatformFailure(m))
            | (CaptureState::CapturingRegion(_), CaptureEvent::PlatformFailure(m)) => {
                CaptureState::Finished(Err(CaptureError::Platform(m)))
            },
            (CaptureState::CapturingScreen, CaptureEvent::Captured)
            | (CaptureState::CapturingRegion(_), CaptureEvent::Captured) => CaptureState::Encoding,
            (CaptureState::Encoding, CaptureEvent::Encoded(b)) => {
                if looks_like_png(&b) {
                    CaptureState::Finished(Ok(b))
                } else {
                    CaptureState::Finished(
                        Err(
                            CaptureError::Encoding(
                                String::from_str("Encoder output is not a PNG image"),
                            ),
                        ),
                    )
                }
            },
            (CaptureState::Encoding, CaptureEvent::EncodingFailure(m)) => CaptureState::Finished(
                Err(CaptureError::Encoding(m)),
            ),
            (s, _) => s,
        }
    }
}

} // verus!
