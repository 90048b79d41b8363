use autoanchor::session::{InputEvent, Outcome, Session, Step};
use autoanchor::{press_key, type_text, Platform};

fn run_all(mut s: Session, reject: Option<(usize, u32)>) -> (Session, Vec<Step>) {
    let mut performed = Vec::new();
    while let Some(step) = s.pending() {
        let n = performed.len();
        performed.push(step);
        let o = match reject {
            Some((i, code)) if i == n => Outcome::Rejected(code),
            _ => Outcome::Accepted,
        };
        s.report(o);
    }
    (s, performed)
}

fn keystroke(code: u16) -> Vec<Step> {
    vec![
        Step::Send { event: InputEvent::KeyDown(code) },
        Step::Pause { ms: 10 },
        Step::Send { event: InputEvent::KeyUp(code) },
        Step::Pause { ms: 10 },
    ]
}

#[test]
fn typing_hi_skips_punctuation() {
    let s = type_text(Platform::Windows, "Hi!");
    let mut expected = keystroke(0x48);
    expected.extend(keystroke(0x49));
    assert_eq!(s.steps(), &expected);
    let (s, performed) = run_all(s, None);
    assert_eq!(performed, expected);
    let r = s.finish().expect("typing succeeds");
    assert!(r.success);
    assert_eq!(r.message.as_deref(), Some("Typed text: Hi!"));
    assert!(r.data.is_none());
}

#[test]
fn typing_keeps_order_around_unsupported_chars() {
    let with = type_text(Platform::Windows, "a!b?c");
    let without = type_text(Platform::Windows, "abc");
    assert_eq!(with.steps(), without.steps());
    let mut expected = keystroke(0x41);
    expected.extend(keystroke(0x42));
    expected.extend(keystroke(0x43));
    assert_eq!(with.steps(), &expected);
}

#[test]
fn typing_only_unsupported_chars_succeeds_without_events() {
    let s = type_text(Platform::Windows, "\u{e9}!?");
    assert!(s.steps().is_empty());
    assert!(s.is_complete());
    let r = s.finish().expect("nothing to type still succeeds");
    assert_eq!(r.message.as_deref(), Some("Typed text: \u{e9}!?"));
}

#[test]
fn typing_whitespace_and_digits() {
    let s = type_text(Platform::Windows, "1 \n\t");
    let mut expected = keystroke(0x31);
    expected.extend(keystroke(0x20));
    expected.extend(keystroke(0x0D));
    expected.extend(keystroke(0x09));
    assert_eq!(s.steps(), &expected);
}

#[test]
fn typing_stops_at_first_refused_event() {
    let s = type_text(Platform::Windows, "ab");
    let (s, performed) = run_all(s, Some((2, 87)));
    assert_eq!(performed.len(), 3);
    assert_eq!(s.finish().err(), Some("Failed to send key up: 87".to_string()));
}

#[test]
fn press_key_with_ctrl_orders_events() {
    let s = press_key(Platform::Windows, "a", Some(vec!["ctrl".to_string()]));
    let expected = vec![
        Step::Send { event: InputEvent::KeyDown(0x11) },
        Step::Send { event: InputEvent::KeyDown(0x41) },
        Step::Pause { ms: 10 },
        Step::Send { event: InputEvent::KeyUp(0x41) },
        Step::Send { event: InputEvent::KeyUp(0x11) },
    ];
    let (s, performed) = run_all(s, None);
    assert_eq!(performed, expected);
    let r = s.finish().expect("press succeeds");
    assert!(r.success);
    assert_eq!(r.message.as_deref(), Some("Pressed key: a"));
}

#[test]
fn press_key_releases_modifiers_in_listed_order() {
    let mods = vec!["Shift".to_string(), "bogus".to_string(), "ALT".to_string()];
    let s = press_key(Platform::Windows, "F5", Some(mods));
    let expected = vec![
        Step::Send { event: InputEvent::KeyDown(0x10) },
        Step::Send { event: InputEvent::KeyDown(0x12) },
        Step::Send { event: InputEvent::KeyDown(0x74) },
        Step::Pause { ms: 10 },
        Step::Send { event: InputEvent::KeyUp(0x74) },
        Step::Send { event: InputEvent::KeyUp(0x10) },
        Step::Send { event: InputEvent::KeyUp(0x12) },
    ];
    assert_eq!(s.steps(), &expected);
}

#[test]
fn press_key_fails_on_refused_modifier_down() {
    let s = press_key(Platform::Windows, "enter", Some(vec!["ctrl".to_string()]));
    let (s, performed) = run_all(s, Some((0, 5)));
    assert_eq!(performed.len(), 1);
    assert_eq!(s.finish().err(), Some("Failed to send key down: 5".to_string()));
}

#[test]
fn press_key_fails_on_refused_modifier_up() {
    let s = press_key(Platform::Windows, "a", Some(vec!["ctrl".to_string()]));
    let (s, performed) = run_all(s, Some((4, 5)));
    assert_eq!(performed.len(), 5);
    assert_eq!(s.finish().err(), Some("Failed to send key up: 5".to_string()));
}

#[test]
fn press_key_main_key_refusal_is_fatal() {
    let s = press_key(Platform::Windows, "enter", None);
    let (s, performed) = run_all(s, Some((0, 6)));
    assert_eq!(performed.len(), 1);
    assert_eq!(s.finish().err(), Some("Failed to send key down: 6".to_string()));
}

#[test]
fn press_key_unknown_key_sends_nothing() {
    let s = press_key(Platform::Windows, "nokey", Some(vec!["ctrl".to_string()]));
    assert!(s.steps().is_empty());
    assert!(s.pending().is_none());
    assert_eq!(s.finish().err(), Some("Unsupported key: nokey".to_string()));
}

#[test]
fn keyboard_on_unsupported_platform_sends_nothing() {
    let s = type_text(Platform::Unsupported, "abc");
    assert!(s.pending().is_none());
    assert_eq!(
        s.finish().err(),
        Some("Unsupported platform - Windows only for now".to_string())
    );
}

#[test]
fn press_plan_without_modifiers() {
    let expected = vec![
        Step::Send { event: InputEvent::KeyDown(0x1B) },
        Step::Pause { ms: 10 },
        Step::Send { event: InputEvent::KeyUp(0x1B) },
    ];
    assert_eq!(autoanchor::keyboard::press_plan(0x1B, &vec![]), expected);
}

#[test]
fn keyboard_module_plans_match_facade() {
    let direct = autoanchor::keyboard::type_text("Ok 1");
    let gated = type_text(Platform::Windows, "Ok 1");
    assert_eq!(direct.steps(), gated.steps());
    assert_eq!(direct.steps().len(), 16);
}
