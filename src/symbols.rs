//! Symbol tables: from characters, key names and button names to the
//! physical codes that the platform's input events carry.

use vstd::prelude::*;
use crate::text::{lower_of, lowercase, same_text};

verus! {

/// Physical code of the letter key `A`; `B` to `Z` follow in order.
pub const KEY_A: u16 = 0x41;
/// Physical code of the digit key `0`; `1` to `9` follow in order.
pub const KEY_0: u16 = 0x30;

pub open spec fn is_lower_letter(c: char) -> bool {
    'a' <= c && c <= 'z'
}

pub open spec fn is_upper_letter(c: char) -> bool {
    'A' <= c && c <= 'Z'
}

pub open spec fn is_digit(c: char) -> bool {
    '0' <= c && c <= '9'
}

/// The code of a character typed as text; 0 where the table has none.
pub open spec fn char_code(c: char) -> u16 {
    if is_lower_letter(c) {
        (c as u32 - 'a' as u32 + KEY_A) as u16
    } else if is_upper_letter(c) {
        (c as u32 - 'A' as u32 + KEY_A) as u16
    } else if is_digit(c) {
        (c as u32 - '0' as u32 + KEY_0) as u16
    } else if c == ' ' {
        0x20
    } else if c == '\n' {
        0x0D
    } else if c == '\t' {
        0x09
    } else {
        0
    }
}

/// Maps a character to its key code: letters of either case share one code,
/// digits, space, newline and tab have theirs, and every other character
/// gives 0.
pub fn char_to_vk_code(ch: char) -> (r: u16)
    ensures
        r == char_code(ch),
{
    if 'a' <= ch && ch <= 'z' {
        (ch as u32 - 'a' as u32 + KEY_A as u32) as u16
    } else if 'A' <= ch && ch <= 'Z' {
        (ch as u32 - 'A' as u32 + KEY_A as u32) as u16
    } else if '0' <= ch && ch <= '9' {
        (ch as u32 - '0' as u32 + KEY_0 as u32) as u16
    } else if ch == ' ' {
        0x20
    } else if ch == '\n' {
        0x0D
    } else if ch == '\t' {
        0x09
    } else {
        0
    }
}

/// The code of a named key, given its name already lowercased; 0 where the
/// table has none.
pub open spec fn name_code(n: Seq<char>) -> u16 {
    if n.len() == 1 && (is_lower_letter(n[0]) || is_digit(n[0])) {
        char_code(n[0])
    } else if n == "enter"@ || n == "return"@ {
        0x0D
    } else if n == "space"@ {
        0x20
    } else if n == "tab"@ {
        0x09
    } else if n == "escape"@ || n == "esc"@ {
        0x1B
    } else if n == "backspace"@ {
        0x08
    } else if n == "delete"@ {
        0x2E
    } else if n == "ctrl"@ || n == "control"@ {
        0x11
    } else if n == "alt"@ {
        0x12
    } else if n == "shift"@ {
        0x10
    } else if n == "win"@ || n == "windows"@ {
        0x5B
    } else if n == "up"@ {
        0x26
    } else if n == "down"@ {
        0x28
    } else if n == "left"@ {
        0x25
    } else if n == "right"@ {
        0x27
    } else {
        function_key_code(n)
    }
}

/// The codes of the function keys `f1` to `f12`, which run from 0x70 up.
pub open spec fn function_key_code(n: Seq<char>) -> u16 {
    if n == "f1"@ {
        0x70
    } else if n == "f2"@ {
        0x71
    } else if n == "f3"@ {
        0x72
    } else if n == "f4"@ {
        0x73
    } else if n == "f5"@ {
        0x74
    } else if n == "f6"@ {
        0x75
    } else if n == "f7"@ {
        0x76
    } else if n == "f8"@ {
        0x77
    } else if n == "f9"@ {
        0x78
    } else if n == "f10"@ {
        0x79
    } else if n == "f11"@ {
        0x7A
    } else if n == "f12"@ {
        0x7B
    } else {
        0
    }
}

/// The code of a key name in any case.
pub open spec fn key_code(name: Seq<char>) -> u16 {
    name_code(lower_of(name))
}

fn function_key_lookup(n: &str) -> (r: u16)
    ensures
        r == function_key_code(n@),
{
    if same_text(n, "f1") {
        0x70
    } else if same_text(n, "f2") {
        0x71
    } else if same_text(n, "f3") {
        0x72
    } else if same_text(n, "f4") {
        0x73
    } else if same_text(n, "f5") {
        0x74
    } else if same_text(n, "f6") {
        0x75
    } else if same_text(n, "f7") {
        0x76
    } else if same_text(n, "f8") {
        0x77
    } else if same_text(n, "f9") {
        0x78
    } else if same_text(n, "f10") {
        0x79
    } else if same_text(n, "f11") {
        0x7A
    } else if same_text(n, "f12") {
        0x7B
    } else {
        0
    }
}

/// Looks up a key name that is already in lowercase.
pub fn code_for_lowered_name(n: &str) -> (r: u16)
    ensures
        r == name_code(n@),
{
    let len = n.unicode_len();
    if len == 1 {
        let ch = n.get_char(0);
        if ('a' <= ch && ch <= 'z') || ('0' <= ch && ch <= '9') {
            return char_to_vk_code(ch);
        }
    }
    if same_text(n, "enter") || same_text(n, "return") {
        0x0D
    } else if same_text(n, "space") {
        0x20
    } else if same_text(n, "tab") {
        0x09
    } else if same_text(n, "escape") || same_text(n, "esc") {
        0x1B
    } else if same_text(n, "backspace") {
        0x08
    } else if same_text(n, "delete") {
        0x2E
    } else if same_text(n, "ctrl") || same_text(n, "control") {
        0x11
    } else if same_text(n, "alt") {
        0x12
    } else if same_text(n, "shift") {
        0x10
    } else if same_text(n, "win") || same_text(n, "windows") {
        0x5B
    } else if same_text(n, "up") {
        0x26
    } else if same_text(n, "down") {
        0x28
    } else if same_text(n, "left") {
        0x25
    } else if same_text(n, "right") {
        0x27
    } else {
        function_key_lookup(n)
    }
}

/// Maps a key name, in any case, to its key code; 0 for an unknown name.
pub fn key_to_vk_code(key: &str) -> (r: u16)
    ensures
        r == key_code(key@),
{
    let lower = lowercase(key);
    code_for_lowered_name(lower.as_str())
}

/// A pointer button.
#[derive(Clone, Copy, Debug, PartialEq, Eq, Structural)]
pub enum ButtonKind {
    Left,
    Right,
    Middle,
}

/// The button that a lowercased name denotes.
pub open spec fn button_named(n: Seq<char>) -> Option<ButtonKind> {
    if n == "left"@ {
        Some(ButtonKind::Left)
    } else if n == "right"@ {
        Some(ButtonKind::Right)
    } else if n == "middle"@ {
        Some(ButtonKind::Middle)
    } else {
        None
    }
}

impl ButtonKind {
    /// Reads a button name that is already in lowercase.
    pub fn from_lowered(n: &str) -> (r: Option<ButtonKind>)
        ensures
            r == button_named(n@),
    {
        if same_text(n, "left") {
            Some(ButtonKind::Left)
        } else if same_text(n, "right") {
            Some(ButtonKind::Right)
        } else if same_text(n, "middle") {
            Some(ButtonKind::Middle)
        } else {
            None
        }
    }

    /// Reads a button name in any case.
    pub fn parse(name: &str) -> (r: Option<ButtonKind>)
        ensures
            r == button_named(lower_of(name@)),
    {
        let lower = lowercase(name);
        ButtonKind::from_lowered(lower.as_str())
    }
}

/// The same letter in the other case; any other character unchanged.
pub open spec fn toggle_case(c: char) -> char {
    if is_lower_letter(c) {
        (c as u32 - 32) as char
    } else if is_upper_letter(c) {
        (c as u32 + 32) as char
    } else {
        c
    }
}

pub open spec fn is_ascii_alphanumeric(c: char) -> bool {
    is_lower_letter(c) || is_upper_letter(c) || is_digit(c)
}

/// An ASCII letter or digit has the same code as its counterpart in the
/// other case, and that code is never 0.
pub proof fn lemma_char_code_ignores_case(c: char)
    requires
        is_ascii_alphanumeric(c),
    ensures
        char_code(c) == char_code(toggle_case(c)),
        char_code(c) != 0,
{
}

} // verus!
