//! Small string routines with exact contracts.

use vstd::prelude::*;
use vstd::std_specs::iter::IteratorSpec;
use vstd::string::StringExecFns;

verus! {

/// `pattern` stands in `text` at position `at`.
pub open spec fn occurs_at(pattern: Seq<char>, text: Seq<char>, at: int) -> bool {
    &&& 0 <= at
    &&& at + pattern.len() <= text.len()
    &&& text.subrange(at, at + pattern.len()) == pattern
}

/// `pattern` stands somewhere in `text`.
pub open spec fn occurs_in(pattern: Seq<char>, text: Seq<char>) -> bool {
    exists|at: int| occurs_at(pattern, text, at)
}

/// The decimal digit for `digit`, which is below ten.
pub open spec fn digit_char(digit: nat) -> char {
    if digit == 0 {
        '0'
    } else if digit == 1 {
        '1'
    } else if digit == 2 {
        '2'
    } else if digit == 3 {
        '3'
    } else if digit == 4 {
        '4'
    } else if digit == 5 {
        '5'
    } else if digit == 6 {
        '6'
    } else if digit == 7 {
        '7'
    } else if digit == 8 {
        '8'
    } else {
        '9'
    }
}

/// The digits of `number` in base ten, the most significant first, with no
/// leading zero but for zero itself.
pub open spec fn decimal_digits(number: nat) -> Seq<char>
    decreases number,
{
    if number < 10 {
        seq![digit_char(number)]
    } else {
        decimal_digits(number / 10).push(digit_char(number % 10))
    }
}

/// The length of `text` in bytes, as UTF-8 writes it.
pub open spec fn byte_length(text: Seq<char>) -> nat {
    vstd::utf8::encode_utf8(text).len()
}

/// The length of `text` in bytes.
pub fn byte_len(text: &str) -> (length: usize)
    ensures
        length == byte_length(text@),
{
    text.as_bytes().len()
}

/// Whether `text` begins with the character `first`.
pub fn starts_with_char(text: &str, first: char) -> (found: bool)
    ensures
        found == (text@.len() > 0 && text@[0] == first),
{
    let text_chars: Vec<char> = chars_of(text);
    text_chars.len() > 0 && text_chars[0] == first
}

/// The characters of `text`, in order.
pub fn chars_of(text: &str) -> (chars: Vec<char>)
    ensures
        chars@ == text@,
{
    let mut chars: Vec<char> = Vec::new();
    for c in it: text.chars()
        invariant
            chars@ == it.seq().take(it.index() as int),
            it.seq() == text@,
    {
        chars.push(c);
    }
    chars
}

/// Whether `pattern` stands in `text` at position `at`.
fn matches_at(text: &Vec<char>, pattern: &Vec<char>, at: usize) -> (found: bool)
    requires
        at + pattern@.len() <= text@.len(),
    ensures
        found == occurs_at(pattern@, text@, at as int),
{
    let mut i: usize = 0;
    while i < pattern.len()
        invariant
            i <= pattern@.len(),
            at + pattern@.len() <= text@.len(),
            text@.len() == text.len(),
            forall|k: int| 0 <= k < i ==> text@[at + k] == pattern@[k],
        decreases pattern@.len() - i,
    {
        if text[at + i] != pattern[i] {
            proof {
                let window: Seq<char> = text@.subrange(at as int, at + pattern@.len());
                assert(window[i as int] == text@[at + i]);
            }
            return false;
        }
        i += 1;
    }
    assert(text@.subrange(at as int, at + pattern@.len()) =~= pattern@);
    true
}

/// Whether `text` begins with `prefix`.
pub fn starts_with(text: &str, prefix: &str) -> (found: bool)
    ensures
        found == prefix@.is_prefix_of(text@),
{
    let text_chars: Vec<char> = chars_of(text);
    let prefix_chars: Vec<char> = chars_of(prefix);
    if prefix_chars.len() > text_chars.len() {
        return false;
    }
    matches_at(&text_chars, &prefix_chars, 0)
}

/// Whether `text` ends with the character `last`.
pub fn ends_with_char(text: &str, last: char) -> (found: bool)
    ensures
        found == (text@.len() > 0 && text@.last() == last),
{
    let text_chars: Vec<char> = chars_of(text);
    let count: usize = text_chars.len();
    count > 0 && text_chars[count - 1] == last
}

/// Whether `pattern` stands somewhere in `text`.
pub fn contains(text: &str, pattern: &str) -> (found: bool)
    ensures
        found == occurs_in(pattern@, text@),
{
    let text_chars: Vec<char> = chars_of(text);
    let pattern_chars: Vec<char> = chars_of(pattern);
    if pattern_chars.len() > text_chars.len() {
        return false;
    }
    let last_start: usize = text_chars.len() - pattern_chars.len();
    let mut at: usize = 0;
    loop
        invariant
            at <= last_start,
            last_start == text_chars@.len() - pattern_chars@.len(),
            text_chars@ == text@,
            pattern_chars@ == pattern@,
            forall|k: int| 0 <= k < at ==> !occurs_at(pattern@, text@, k),
        decreases last_start - at,
    {
        if matches_at(&text_chars, &pattern_chars, at) {
            return true;
        }
        if at == last_start {
            return false;
        }
        at += 1;
    }
}

/// The one-character text of a decimal digit.
fn digit_text(digit: u64) -> (text: &'static str)
    requires
        digit < 10,
    ensures
        text@ == seq![digit_char(digit as nat)],
{
    proof {
        reveal_strlit("0");
        reveal_strlit("1");
        reveal_strlit("2");
        reveal_strlit("3");
        reveal_strlit("4");
        reveal_strlit("5");
        reveal_strlit("6");
        reveal_strlit("7");
        reveal_strlit("8");
        reveal_strlit("9");
    }
    let text: &'static str = if digit == 0 {
        "0"
    } else if digit == 1 {
        "1"
    } else if digit == 2 {
        "2"
    } else if digit == 3 {
        "3"
    } else if digit == 4 {
        "4"
    } else if digit == 5 {
        "5"
    } else if digit == 6 {
        "6"
    } else if digit == 7 {
        "7"
    } else if digit == 8 {
        "8"
    } else {
        "9"
    };
    assert(text@ =~= seq![digit_char(digit as nat)]);
    text
}

/// `number` written in base ten.
pub fn decimal(number: u64) -> (text: String)
    ensures
        text@ == decimal_digits(number as nat),
    decreases number,
{
    if number < 10 {
        String::from_str(digit_text(number))
    } else {
        let mut text: String = decimal(number / 10);
        text.append(digit_text(number % 10));
        text
    }
}

} // verus!
