//! Keyboard operations: typing text and pressing one key with modifiers.
//!
//! Typing skips characters that the symbol table cannot resolve, while
//! pressing a key rejects an unknown key name before any event is sent.

use vstd::prelude::*;
use crate::session::{
    EVENT_SPACING_MS, InputEvent, Session, SessionView, Step, accept_steps, fresh, is_plain,
    lemma_accepted_run_succeeds, refused,
};
use crate::symbols::{char_code, char_to_vk_code, key_code, key_to_vk_code};
use crate::text::push_text;

verus! {

/// Down, pause, up, pause: one discrete keystroke whose events must all get
/// through.
pub open spec fn keystroke_steps(code: u16) -> Seq<Step> {
    seq![
        Step::Send { event: InputEvent::KeyDown(code) },
        Step::Pause { ms: EVENT_SPACING_MS },
        Step::Send { event: InputEvent::KeyUp(code) },
        Step::Pause { ms: EVENT_SPACING_MS },
    ]
}

/// The steps that type one character: none where it has no code.
pub open spec fn char_steps(c: char) -> Seq<Step> {
    if char_code(c) == 0 {
        Seq::empty()
    } else {
        keystroke_steps(char_code(c))
    }
}

/// The steps that type a text, character after character.
pub open spec fn typing_steps(text: Seq<char>) -> Seq<Step>
    decreases text.len(),
{
    if text.len() == 0 {
        Seq::empty()
    } else {
        typing_steps(text.drop_last()) + char_steps(text.last())
    }
}

/// Typing two texts one after the other sends the events of the first and
/// then those of the second: the order of the characters is kept.
pub proof fn lemma_typing_steps_concat(a: Seq<char>, b: Seq<char>)
    ensures
        typing_steps(a + b) == typing_steps(a) + typing_steps(b),
    decreases b.len(),
{
    if b.len() == 0 {
        assert(a + b =~= a);
        assert(typing_steps(b) =~= Seq::empty());
        assert(typing_steps(a) + typing_steps(b) =~= typing_steps(a));
    } else {
        assert((a + b).drop_last() =~= a + b.drop_last());
        assert((a + b).last() == b.last());
        lemma_typing_steps_concat(a, b.drop_last());
        assert(typing_steps(a + b) =~= typing_steps(a) + typing_steps(b));
    }
}

/// A character without a code sends nothing where it stands, and the
/// characters around it are typed as they would be without it.
pub proof fn lemma_unresolvable_char_skipped(before: Seq<char>, c: char, after: Seq<char>)
    requires
        char_code(c) == 0,
    ensures
        typing_steps(before + seq![c] + after) == typing_steps(before) + typing_steps(after),
{
    lemma_typing_steps_concat(before + seq![c], after);
    lemma_typing_steps_concat(before, seq![c]);
    assert(seq![c].drop_last() =~= Seq::<char>::empty());
    assert(seq![c].last() == c);
    assert(typing_steps(Seq::<char>::empty()) =~= Seq::empty());
    assert(typing_steps(seq![c]) =~= Seq::empty());
    assert(typing_steps(before + seq![c]) =~= typing_steps(before));
}

/// The session that types `text`.
pub open spec fn typing(text: Seq<char>) -> SessionView {
    fresh(typing_steps(text), "Typed text: "@ + text, false)
}

/// Typing needs no reading from the platform: only key events and pauses.
pub proof fn lemma_typing_steps_plain(text: Seq<char>)
    ensures
        forall|i: int| 0 <= i < typing_steps(text).len() ==> is_plain(#[trigger] typing_steps(text)[i]),
    decreases text.len(),
{
    if text.len() > 0 {
        lemma_typing_steps_plain(text.drop_last());
        let a = typing_steps(text.drop_last());
        let b = char_steps(text.last());
        assert forall|i: int| 0 <= i < typing_steps(text).len() implies is_plain(
            #[trigger] typing_steps(text)[i],
        ) by {
            if i >= a.len() {
                assert(typing_steps(text)[i] == b[i - a.len()]);
            } else {
                assert(typing_steps(text)[i] == a[i]);
            }
        }
    }
}

/// Typing any text, with every event accepted, ends in success, whatever
/// characters were skipped on the way.
pub proof fn lemma_typing_succeeds(text: Seq<char>)
    ensures
        accept_steps(typing(text), typing_steps(text).len()).failure is None,
        accept_steps(typing(text), typing_steps(text).len()).is_complete(),
{
    lemma_typing_steps_plain(text);
    lemma_accepted_run_succeeds(typing(text));
}

/// The session that types `text`, reporting "Typed text: " and the text.
pub fn type_text(text: &str) -> (r: Session)
    ensures
        r@ == typing(text@),
{
    let n = text.unicode_len();
    let mut steps: Vec<Step> = Vec::new();
    let mut i: usize = 0;
    while i < n
        invariant
            n == text@.len(),
            i <= n,
            steps@ == typing_steps(text@.subrange(0, i as int)),
        decreases n - i,
    {
        let ch = text.get_char(i);
        let code = char_to_vk_code(ch);
        if code != 0 {
            steps.push(Step::Send { event: InputEvent::KeyDown(code) });
            steps.push(Step::Pause { ms: EVENT_SPACING_MS });
            steps.push(Step::Send { event: InputEvent::KeyUp(code) });
            steps.push(Step::Pause { ms: EVENT_SPACING_MS });
        }
        assert(text@.subrange(0, i + 1).drop_last() =~= text@.subrange(0, i as int));
        i = i + 1;
        assert(steps@ =~= typing_steps(text@.subrange(0, i as int)));
    }
    assert(text@.subrange(0, n as int) =~= text@);
    let mut summary = String::from_str("Typed text: ");
    push_text(&mut summary, text);
    Session::planned(steps, summary, false)
}

/// The names in an optional list of modifiers.
pub open spec fn names_of(modifiers: Option<Vec<String>>) -> Seq<Seq<char>> {
    match modifiers {
        Some(v) => v@.map_values(|s: String| s@),
        None => Seq::empty(),
    }
}

/// The codes of the modifiers that resolve, in the order listed.
pub open spec fn modifier_codes(names: Seq<Seq<char>>) -> Seq<u16>
    decreases names.len(),
{
    if names.len() == 0 {
        Seq::empty()
    } else {
        let rest = modifier_codes(names.drop_last());
        if key_code(names.last()) == 0 {
            rest
        } else {
            rest.push(key_code(names.last()))
        }
    }
}

/// Presses (`down`) or releases of the modifiers, in the order given. Like
/// every other event, one that the platform refuses fails the press.
pub open spec fn modifier_steps(codes: Seq<u16>, down: bool) -> Seq<Step> {
    codes.map_values(
        |k: u16|
            Step::Send {
                event: if down {
                    InputEvent::KeyDown(k)
                } else {
                    InputEvent::KeyUp(k)
                },
            },
    )
}

/// Modifiers down, the key down, a pause, the key up, then the modifiers up
/// in the same order as they went down.
pub open spec fn press_steps(code: u16, modifiers: Seq<u16>) -> Seq<Step> {
    modifier_steps(modifiers, true) + seq![
        Step::Send { event: InputEvent::KeyDown(code) },
        Step::Pause { ms: EVENT_SPACING_MS },
        Step::Send { event: InputEvent::KeyUp(code) },
    ] + modifier_steps(modifiers, false)
}

fn resolve_modifiers(names: &Vec<String>) -> (r: Vec<u16>)
    ensures
        r@ == modifier_codes(names@.map_values(|s: String| s@)),
{
    let ghost all = names@.map_values(|s: String| s@);
    let mut codes: Vec<u16> = Vec::new();
    let mut i: usize = 0;
    while i < names.len()
        invariant
            i <= names@.len(),
            all == names@.map_values(|s: String| s@),
            codes@ == modifier_codes(all.subrange(0, i as int)),
        decreases names.len() - i,
    {
        let k = key_to_vk_code(names[i].as_str());
        assert(all.subrange(0, i + 1).drop_last() =~= all.subrange(0, i as int));
        assert(all.subrange(0, i + 1).last() == names@[i as int]@);
        if k != 0 {
            codes.push(k);
        }
        i = i + 1;
    }
    assert(all.subrange(0, names@.len() as int) =~= all);
    codes
}

fn modifier_events(codes: &Vec<u16>, down: bool, steps: &mut Vec<Step>)
    ensures
        final(steps)@ == old(steps)@ + modifier_steps(codes@, down),
{
    let ghost start = steps@;
    let mut i: usize = 0;
    while i < codes.len()
        invariant
            i <= codes@.len(),
            steps@ == start + modifier_steps(codes@.subrange(0, i as int), down),
        decreases codes.len() - i,
    {
        let k = codes[i];
        let event = if down {
            InputEvent::KeyDown(k)
        } else {
            InputEvent::KeyUp(k)
        };
        steps.push(Step::Send { event });
        assert(modifier_steps(codes@.subrange(0, i + 1), down) =~= modifier_steps(
            codes@.subrange(0, i as int),
            down,
        ).push(Step::Send { event }));
        i = i + 1;
    }
    assert(codes@.subrange(0, codes@.len() as int) =~= codes@);
}

/// The steps that press the key with code `code` while the keys with the
/// codes in `modifiers` are held.
pub fn press_plan(code: u16, modifiers: &Vec<u16>) -> (r: Vec<Step>)
    ensures
        r@ == press_steps(code, modifiers@),
{
    let mut steps: Vec<Step> = Vec::new();
    modifier_events(modifiers, true, &mut steps);
    steps.push(Step::Send { event: InputEvent::KeyDown(code) });
    steps.push(Step::Pause { ms: EVENT_SPACING_MS });
    steps.push(Step::Send { event: InputEvent::KeyUp(code) });
    modifier_events(modifiers, false, &mut steps);
    assert(steps@ =~= press_steps(code, modifiers@));
    steps
}

/// An unknown key name fails the press with no event at all, whatever the
/// modifiers.
pub proof fn lemma_unknown_key_sends_nothing(key: Seq<char>, modifiers: Seq<Seq<char>>)
    requires
        key_code(key) == 0,
    ensures
        pressing(key, modifiers).steps.len() == 0,
        pressing(key, modifiers).pending() is None,
        pressing(key, modifiers).failure == Some("Unsupported key: "@ + key),
{
}

/// The session that presses the key named `key` with the named modifiers
/// held; one that has failed already where the key name does not resolve.
pub open spec fn pressing(key: Seq<char>, modifiers: Seq<Seq<char>>) -> SessionView {
    if key_code(key) == 0 {
        refused("Unsupported key: "@ + key)
    } else {
        fresh(press_steps(key_code(key), modifier_codes(modifiers)), "Pressed key: "@ + key, false)
    }
}

/// The session that presses `key` with `modifiers` held. An unknown key
/// name gives a session that has already failed and sends nothing; a
/// modifier that does not resolve is left out.
pub fn press_key(key: &str, modifiers: Option<Vec<String>>) -> (r: Session)
    ensures
        r@ == pressing(key@, names_of(modifiers)),
{
    let code = key_to_vk_code(key);
    if code == 0 {
        let mut message = String::from_str("Unsupported key: ");
        push_text(&mut message, key);
        return Session::rejected(message);
    }
    let codes = match modifiers {
        Some(ref names) => resolve_modifiers(names),
        None => Vec::new(),
    };
    assert(codes@ == modifier_codes(names_of(modifiers)));
    let steps = press_plan(code, &codes);
    let mut summary = String::from_str("Pressed key: ");
    push_text(&mut summary, key);
    Session::planned(steps, summary, false)
}

} // verus!
