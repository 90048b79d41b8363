use autoanchor::screen::{
    locate_in_display, looks_like_png, take_screenshot, CaptureError, CaptureEvent, CaptureState, Region,
    WindowRect,
};

fn png_bytes() -> Vec<u8> {
    vec![0x89, b'P', b'N', b'G', 0x0D, 0x0A, 0x1A, 0x0A, 0, 0, 0, 13]
}

#[test]
fn active_window_capture_without_window_fails() {
    let s = take_screenshot(true);
    assert!(matches!(s, CaptureState::FindingWindow));
    match s.advance(CaptureEvent::ForegroundWindow(false)) {
        CaptureState::Finished(Err(e)) => {
            assert!(matches!(e, CaptureError::NoActiveWindow));
            assert_eq!(e.message(), "No foreground window found");
        }
        _ => panic!("expected NoActiveWindow"),
    }
}

#[test]
fn full_screen_capture_yields_png() {
    let s = take_screenshot(false);
    assert!(matches!(s, CaptureState::CapturingScreen));
    let s = s.advance(CaptureEvent::Captured);
    assert!(matches!(s, CaptureState::Encoding));
    match s.advance(CaptureEvent::Encoded(png_bytes())) {
        CaptureState::Finished(Ok(bytes)) => {
            assert!(bytes.len() > 8);
            assert!(bytes.starts_with(&[0x89, b'P', b'N', b'G', 0x0D, 0x0A, 0x1A, 0x0A]));
        }
        _ => panic!("expected PNG bytes"),
    }
}

#[test]
fn encoder_output_that_is_not_png_is_an_error() {
    let s = take_screenshot(false).advance(CaptureEvent::Captured);
    match s.advance(CaptureEvent::Encoded(vec![1, 2, 3])) {
        CaptureState::Finished(Err(CaptureError::Encoding(m))) => {
            assert_eq!(m, "Encoder output is not a PNG image")
        }
        _ => panic!("expected an encoding error"),
    }
}

#[test]
fn encoder_failure_is_an_encoding_error() {
    let s = take_screenshot(false).advance(CaptureEvent::Captured);
    match s.advance(CaptureEvent::EncodingFailure("zlib".to_string())) {
        CaptureState::Finished(Err(CaptureError::Encoding(m))) => assert_eq!(m, "zlib"),
        _ => panic!("expected an encoding error"),
    }
}

#[test]
fn active_window_is_translated_to_display_coordinates() {
    let rect = WindowRect { left: 2020, top: 100, right: 2820, bottom: 700 };
    let s = take_screenshot(true)
        .advance(CaptureEvent::ForegroundWindow(true))
        .advance(CaptureEvent::WindowRect(Some(rect)));
    assert!(matches!(s, CaptureState::LocatingDisplay(r) if r == rect));
    let s = s.advance(CaptureEvent::DisplayOrigin { x: 1920, y: 0 });
    match s {
        CaptureState::CapturingRegion(g) => {
            assert_eq!(g, Region { x: 100, y: 100, width: 800, height: 600 })
        }
        _ => panic!("expected a region"),
    }
}

#[test]
fn missing_window_rect_is_platform_error() {
    let s = take_screenshot(true)
        .advance(CaptureEvent::ForegroundWindow(true))
        .advance(CaptureEvent::WindowRect(None));
    match s {
        CaptureState::Finished(Err(CaptureError::Platform(m))) => {
            assert_eq!(m, "Failed to get foreground window rect")
        }
        _ => panic!("expected a platform error"),
    }
}

#[test]
fn capture_failure_is_platform_error() {
    let s = take_screenshot(false).advance(CaptureEvent::PlatformFailure("denied".to_string()));
    match s {
        CaptureState::Finished(Err(e)) => assert_eq!(e.message(), "denied"),
        _ => panic!("expected a platform error"),
    }
}

#[test]
fn region_translation_edges() {
    let r = WindowRect { left: -100, top: -50, right: 0, bottom: 0 };
    assert_eq!(locate_in_display(r, -1920, 0), Some(Region { x: 1820, y: -50, width: 100, height: 50 }));
    let inverted = WindowRect { left: 10, top: 0, right: 5, bottom: 10 };
    assert_eq!(locate_in_display(inverted, 0, 0), None);
    let far = WindowRect { left: i32::MAX, top: 0, right: i32::MAX, bottom: 0 };
    assert_eq!(locate_in_display(far, -1, 0), None);
}

#[test]
fn png_signature_check() {
    assert!(looks_like_png(&png_bytes()));
    assert!(!looks_like_png(&png_bytes()[..8].to_vec()));
    assert!(!looks_like_png(&vec![]));
    let mut bad = png_bytes();
    bad[1] = b'p';
    assert!(!looks_like_png(&bad));
}
