//! Key bindings: the key model the pipeline works on, and the parsing of
//! configured binding strings such as "ctrl+k" or "enter".

use vstd::prelude::*;

use crate::strutil::str_eq;

verus! {

#[derive(Clone, Copy, PartialEq, Eq, Structural, Debug)]
pub enum KeyCode {
    Char(char),
    Down,
    Up,
    Left,
    Right,
    Enter,
    Backspace,
    Delete,
    Esc,
    Null,
}

#[derive(Clone, Copy, PartialEq, Eq, Structural, Debug)]
pub enum KeyModifiers {
    Plain,
    Control,
    Alt,
    Shift,
    Super,
}

/// One key press: a modifier set and a code.
#[derive(Clone, Copy, PartialEq, Eq, Structural, Debug)]
pub struct KeyPress {
    pub modifiers: KeyModifiers,
    pub code: KeyCode,
}

/// A terminal input event as the pipeline sees it.
#[derive(Clone, Copy, PartialEq, Eq, Structural, Debug)]
pub enum Event {
    Key(KeyPress),
    Other,
}

/// The key code a binding word names, if it names one.
pub open spec fn key_code_of(s: Seq<char>) -> Option<KeyCode> {
    if s == "down"@ {
        Option::Some(KeyCode::Down)
    } else if s == "up"@ {
        Option::Some(KeyCode::Up)
    } else if s == "left"@ {
        Option::Some(KeyCode::Left)
    } else if s == "right"@ {
        Option::Some(KeyCode::Right)
    } else if s == "enter"@ {
        Option::Some(KeyCode::Enter)
    } else if s == "backspace"@ {
        Option::Some(KeyCode::Backspace)
    } else if s == "delete"@ {
        Option::Some(KeyCode::Delete)
    } else if s.len() == 1 {
        Option::Some(KeyCode::Char(s[0]))
    } else {
        Option::None
    }
}

/// The modifier a binding word names, if it names one.
pub open spec fn modifier_of(s: Seq<char>) -> Option<KeyModifiers> {
    if s == "ctrl"@ {
        Option::Some(KeyModifiers::Control)
    } else if s == "alt"@ {
        Option::Some(KeyModifiers::Alt)
    } else if s == "shift"@ {
        Option::Some(KeyModifiers::Shift)
    } else if s == "super"@ {
        Option::Some(KeyModifiers::Super)
    } else {
        Option::None
    }
}

/// The first '+' at or after position `i`.
pub open spec fn first_plus_at(s: Seq<char>, i: int) -> Option<int>
    decreases s.len() - i,
{
    if i < 0 || i >= s.len() {
        Option::None
    } else if s[i] == '+' {
        Option::Some(i)
    } else {
        first_plus_at(s, i + 1)
    }
}

/// What a whole binding string denotes: a bare key, or one modifier and a
/// key joined by '+'.
pub open spec fn key_spec(s: Seq<char>) -> Option<(KeyModifiers, KeyCode)> {
    match first_plus_at(s, 0) {
        Option::None => match key_code_of(s) {
            Option::Some(c) => Option::Some((KeyModifiers::Plain, c)),
            Option::None => Option::None,
        },
        Option::Some(p) => {
            if first_plus_at(s, p + 1) is Some {
                Option::None
            } else {
                match (modifier_of(s.subrange(0, p)), key_code_of(
                    s.subrange(p + 1, s.len() as int),
                )) {
                    (Option::Some(m), Option::Some(c)) => Option::Some((m, c)),
                    _ => Option::None,
                }
            }
        },
    }
}

fn key_code_from_string(key: &str) -> (r: Option<KeyCode>)
    ensures
        r == key_code_of(key@),
{
    if str_eq(key, "down") {
        Option::Some(KeyCode::Down)
    } else if str_eq(key, "up") {
        Option::Some(KeyCode::Up)
    } else if str_eq(key, "left") {
        Option::Some(KeyCode::Left)
    } else if str_eq(key, "right") {
        Option::Some(KeyCode::Right)
    } else if str_eq(key, "enter") {
        Option::Some(KeyCode::Enter)
    } else if str_eq(key, "backspace") {
        Option::Some(KeyCode::Backspace)
    } else if str_eq(key, "delete") {
        Option::Some(KeyCode::Delete)
    } else if key.unicode_len() == 1 {
        Option::Some(KeyCode::Char(key.get_char(0)))
    } else {
        Option::None
    }
}

fn key_modifier_from_string(key: &str) -> (r: Option<KeyModifiers>)
    ensures
        r == modifier_of(key@),
{
    if str_eq(key, "ctrl") {
        Option::Some(KeyModifiers::Control)
    } else if str_eq(key, "alt") {
        Option::Some(KeyModifiers::Alt)
    } else if str_eq(key, "shift") {
        Option::Some(KeyModifiers::Shift)
    } else if str_eq(key, "super") {
        Option::Some(KeyModifiers::Super)
    } else {
        Option::None
    }
}

fn find_plus(s: &str) -> (r: Option<usize>)
    ensures
        match r {
            Option::None => first_plus_at(s@, 0) is None,
            Option::Some(i) => i < s@.len() && first_plus_at(s@, 0) == Option::Some(i as int),
        },
{
    let n = s.unicode_len();
    let mut i: usize = 0;
    while i < n
        invariant
            n == s@.len(),
            0 <= i <= n,
            first_plus_at(s@, 0) == first_plus_at(s@, i as int),
        decreases n - i,
    {
        if s.get_char(i) == '+' {
            return Option::Some(i);
        }
        i += 1;
    }
    Option::None
}

/// Parse a binding string; succeeds exactly where the string denotes a key.
pub fn parse_key(key: &str) -> (r: Option<(KeyModifiers, KeyCode)>)
    ensures
        r == key_spec(key@),
{
    let n = key.unicode_len();
    match find_plus(key) {
        Option::None => match key_code_from_string(key) {
            Option::Some(c) => Option::Some((KeyModifiers::Plain, c)),
            Option::None => Option::None,
        },
        Option::Some(p) => {
            let rest = key.substring_char(p + 1, n);
            match find_plus(rest) {
                Option::Some(q) => {
                    proof {
                        lemma_first_plus_shift(key@, p + 1, q as int);
                    }
                    Option::None
                },

                Option::None => {
                    proof {
                        lemma_no_plus_shift(key@, p + 1);
                    }
                    let modifier = key_modifier_from_string(key.substring_char(0, p));
                    let code = key_code_from_string(rest);
                    match (modifier, code) {
                        (Option::Some(m), Option::Some(c)) => Option::Some((m, c)),
                        _ => Option::None,
                    }
                },
            }
        },
    }
}

/// The position a search yields holds a '+' and lies in range.
proof fn lemma_first_plus_found(s: Seq<char>, i: int)
    requires
        0 <= i,
        first_plus_at(s, i) is Some,
    ensures
        ({
            let p = first_plus_at(s, i).unwrap();
            i <= p < s.len() && s[p] == '+'
        }),
    decreases s.len() - i,
{
    if i < s.len() && s[i] != '+' {
        lemma_first_plus_found(s, i + 1);
    }
}

/// A '+' found from a later start is found from an earlier one too.
proof fn lemma_first_plus_mono(s: Seq<char>, a: int, b: int)
    requires
        0 <= a <= b,
        first_plus_at(s, b) is Some,
    ensures
        first_plus_at(s, a) is Some,
    decreases b - a,
{
    if a < b {
        lemma_first_plus_mono(s, a + 1, b);
    }
}

/// A '+' found in the tail starting at `base` is found in the whole string
/// at or after `base`.
proof fn lemma_first_plus_shift(s: Seq<char>, base: int, q: int)
    requires
        0 <= base <= s.len(),
        first_plus_at(s.subrange(base, s.len() as int), 0) == Option::Some(q),
    ensures
        first_plus_at(s, base) is Some,
{
    let tail = s.subrange(base, s.len() as int);
    lemma_first_plus_found(tail, 0);
    assert(s[base + q] == '+');
    assert(first_plus_at(s, base + q) is Some);
    lemma_first_plus_mono(s, base, base + q);
}

/// No '+' in the tail starting at `base` means none at or after `base`.
proof fn lemma_no_plus_shift(s: Seq<char>, base: int)
    requires
        0 <= base <= s.len(),
        first_plus_at(s.subrange(base, s.len() as int), 0) is None,
    ensures
        first_plus_at(s, base) is None,
{
    lemma_no_plus_shift_from(s, base, 0);
}

proof fn lemma_no_plus_shift_from(s: Seq<char>, base: int, q: int)
    requires
        0 <= base <= s.len(),
        0 <= q,
        first_plus_at(s.subrange(base, s.len() as int), q) is None,
    ensures
        first_plus_at(s, base + q) is None,
    decreases s.len() - base - q,
{
    let tail = s.subrange(base, s.len() as int);
    if q < tail.len() {
        lemma_no_plus_shift_from(s, base, q + 1);
    }
}

/// Parse a configured binding that is known to be well formed.
pub fn from_string(key: String) -> (r: (KeyModifiers, KeyCode))
    requires
        key_spec(key@) is Some,
    ensures
        Option::Some(r) == key_spec(key@),
{
    match parse_key(key.as_str()) {
        Option::Some(r) => r,
        Option::None => vstd::pervasive::unreached(),
    }
}

} // verus!
