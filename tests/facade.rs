use autoanchor::screen::{CaptureError, CaptureState};
use autoanchor::session::{Outcome, Session};
use autoanchor::{capture, failure_result, get_cursor_position, get_screen_size, into_result, Platform, Point};

fn answer(mut s: Session, outcomes: &[Outcome]) -> Session {
    for o in outcomes {
        if s.pending().is_none() {
            break;
        }
        s.report(*o);
    }
    s
}

#[test]
fn test_get_cursor_position() {
    let result = get_cursor_position(Platform::Unsupported).finish_reading();
    match result {
        Ok(pos) => {
            println!("Cursor position: x={}, y={}", pos.x, pos.y);
            assert!(pos.x >= 0);
            assert!(pos.y >= 0);
        }
        Err(e) => {
            println!("Error getting cursor position: {}", e);
        }
    }
}

#[test]
fn test_get_screen_size() {
    let result = get_screen_size(Platform::Unsupported).finish_reading();
    match result {
        Ok(size) => {
            println!("Screen size: x={}, y={}", size.x, size.y);
            assert!(size.x > 0);
            assert!(size.y > 0);
        }
        Err(e) => {
            println!("Error getting screen size: {}", e);
        }
    }
}

#[test]
fn screen_size_on_unsupported_platform_is_failure_envelope() {
    let s = get_screen_size(Platform::Unsupported);
    assert!(s.pending().is_none());
    let env = match s.finish_reading() {
        Ok(_) => panic!("no size on an unsupported platform"),
        Err(m) => failure_result(m),
    };
    assert!(!env.success);
    assert_eq!(env.message.as_deref(), Some("Unsupported platform - Windows only for now"));
    assert!(env.data.is_none());
}

#[test]
fn cursor_position_is_read_from_platform() {
    let s = answer(get_cursor_position(Platform::Windows), &[Outcome::Reading(Point { x: 12, y: 34 })]);
    assert!(s.is_complete());
    assert_eq!(s.finish_reading(), Ok(Point { x: 12, y: 34 }));
}

#[test]
fn cursor_position_failure_carries_code() {
    let s = answer(get_cursor_position(Platform::Windows), &[Outcome::Rejected(5)]);
    assert_eq!(s.finish_reading(), Err("Failed to get cursor position: 5".to_string()));
}

#[test]
fn screen_size_is_read_from_platform() {
    let s = answer(get_screen_size(Platform::Windows), &[Outcome::Reading(Point { x: 1920, y: 1080 })]);
    assert_eq!(s.finish_reading(), Ok(Point { x: 1920, y: 1080 }));
}

#[test]
fn capture_on_unsupported_platform_fails_at_once() {
    match capture(Platform::Unsupported, false) {
        CaptureState::Finished(Err(CaptureError::UnsupportedPlatform)) => {}
        _ => panic!("expected an unsupported-platform failure"),
    }
}

#[test]
fn into_result_maps_error_to_envelope() {
    let env = into_result(Err("boom".to_string()));
    assert!(!env.success);
    assert_eq!(env.message.as_deref(), Some("boom"));
    assert!(env.data.is_none());
}
