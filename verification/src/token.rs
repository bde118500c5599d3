//! Opaque session tokens, drawn from a cryptographically strong generator.

use vstd::prelude::*;
use vstd::utf8::is_ascii_chars;

verus! {

/// How many draws one call of [`rand_string`] may discard.
pub const MAX_DISCARDS: u64 = u64::MAX;

/// `rand::random::<char>()`: one character drawn uniformly from all Unicode
/// scalar values. Nothing is claimed of the character that comes back.
#[verifier::external_body]
fn random_char() -> char {
    rand::random::<char>()
}

/// `char::is_ascii`: whether the character lies in the ASCII range.
pub assume_specification[ char::is_ascii ](c: &char) -> (b: bool)
    ensures
        b == (*c <= '\u{7f}'),
;

/// `String::push`: appends one character.
pub assume_specification[ String::push ](s: &mut String, c: char)
    ensures
        final(s)@ == old(s)@.push(c),
;

/// The ASCII character with the code of `c` modulo 128.
pub open spec fn folded(c: char) -> char {
    ((c as u32) % 128) as char
}

/// Folds a character into the ASCII range; an ASCII character is unchanged.
pub fn fold_to_ascii(c: char) -> (a: char)
    ensures
        a == folded(c),
        a <= '\u{7f}',
        c <= '\u{7f}' ==> a == c,
{
    let code: u32 = c as u32;
    let low: u8 = (code % 128) as u8;
    low as char
}

/// A fresh token of exactly `size` ASCII characters.
///
/// Characters are drawn at random and those outside ASCII are discarded, up
/// to [`MAX_DISCARDS`] of them: see [`rand_string_within`].
pub fn rand_string(size: usize) -> (token: String)
    ensures
        token@.len() == size,
        is_ascii_chars(token@),
{
    rand_string_within(size, MAX_DISCARDS)
}

/// A fresh token of exactly `size` ASCII characters, for which at most
/// `max_discards` draws are thrown away.
///
/// Characters are drawn at random and those outside ASCII are discarded.
/// Once `max_discards` draws have been discarded, each further draw is
/// folded into ASCII instead, so the call returns whatever is drawn.
pub fn rand_string_within(size: usize, max_discards: u64) -> (token: String)
    ensures
        token@.len() == size,
        is_ascii_chars(token@),
{
    let mut token = String::new();
    let mut kept: usize = 0;
    let mut discards_left: u64 = max_discards;
    while kept < size
        invariant
            kept <= size,
            token@.len() == kept,
            is_ascii_chars(token@),
        decreases size - kept, discards_left,
    {
        let c = random_char();
        if c.is_ascii() {
            token.push(c);
            kept = kept + 1;
        } else if discards_left > 0 {
            discards_left = discards_left - 1;
        } else {
            token.push(fold_to_ascii(c));
            kept = kept + 1;
        }
    }
    token
}

} // verus!
