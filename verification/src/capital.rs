//! Capitalization of a word: the first character is mapped to its Unicode
//! uppercase form, the rest of the word is kept unchanged.
//!
//! For a lowercase ASCII first letter the uppercase form is the single
//! corresponding uppercase ASCII letter, computed here; for any other first
//! character the mapping is delegated to the standard library.

use vstd::prelude::*;
use crate::words::is_ascii_lower;

verus! {

/// The Unicode uppercase mapping of a character that is not a lowercase
/// ASCII letter, as the standard library computes it.
pub uninterp spec fn unicode_upper(c: char) -> Seq<char>;

/// True of an uppercase ASCII letter.
pub open spec fn is_ascii_upper(c: char) -> bool {
    65 <= c as int <= 90
}

/// The uppercase ASCII letter for a lowercase ASCII letter.
pub open spec fn ascii_upper(c: char) -> char
    recommends
        is_ascii_lower(c),
{
    ((c as int) - 32) as char
}

/// What one character becomes at the head of a capitalized word.
pub open spec fn char_capitalized(c: char) -> Seq<char> {
    if is_ascii_lower(c) {
        seq![ascii_upper(c)]
    } else {
        unicode_upper(c)
    }
}

/// A word with its first character uppercased and the rest unchanged; the
/// empty word stays empty.
pub open spec fn capitalized(w: Seq<char>) -> Seq<char> {
    if w.len() == 0 {
        Seq::<char>::empty()
    } else {
        char_capitalized(w[0]) + w.subrange(1, w.len() as int)
    }
}

/// Relies on char::to_uppercase: the Unicode uppercase mapping of a
/// character, one or more characters that depend on the character alone.
#[verifier::external_body]
fn char_to_uppercase(c: char) -> (r: String)
    ensures
        r@ == unicode_upper(c),
        r@.len() >= 1,
{
    c.to_uppercase().collect()
}

/// Relies on String::push: appends exactly the given character.
#[verifier::external_body]
fn push_char(s: &mut String, c: char)
    ensures
        final(s)@ == old(s)@ + seq![c],
{
    s.push(c);
}

/// Uppercases the first character of a string (Unicode-aware), leaving the
/// rest unchanged; the empty string stays empty.
pub fn capitalize(input: &str) -> (r: String)
    ensures
        r@ == capitalized(input@),
{
    let n = input.unicode_len();
    if n == 0 {
        String::new()
    } else {
        let first = input.get_char(0);
        let rest = input.substring_char(1, n);
        let u: u32 = first as u32;
        if 97 <= u && u <= 122 {
            let up: char = ((u - 32) as u8) as char;
            let mut out = String::new();
            push_char(&mut out, up);
            out.append(rest);
            proof {
                assert(up == ascii_upper(first));
                assert(out@ =~= capitalized(input@));
            }
            out
        } else {
            let mut out = char_to_uppercase(first);
            out.append(rest);
            proof {
                assert(out@ =~= capitalized(input@));
            }
            out
        }
    }
}

} // verus!
