//! Text helpers: Unicode case mapping behind named results, string equality,
//! and the alphabetic test used by the name validator.
//!
//! Case mapping follows Unicode, so its value on a given string is not
//! stated here; contracts name it through [`lower_of`] and [`upper_of`], and
//! everything the library proves about matching holds for every value of
//! those names.

use vstd::prelude::*;

verus! {

/// The Unicode lowercase image of a character sequence.
pub uninterp spec fn lower_of(s: Seq<char>) -> Seq<char>;

/// The Unicode uppercase image of a single character: one or more characters.
pub uninterp spec fn upper_of(c: char) -> Seq<char>;

/// Whether a character has the Unicode `Alphabetic` property.
pub uninterp spec fn char_alphabetic(c: char) -> bool;

/// The lowercase image of a sequence of words, applied wordwise.
pub open spec fn lower_all(ss: Seq<Seq<char>>) -> Seq<Seq<char>> {
    ss.map_values(|s: Seq<char>| lower_of(s))
}

/// A word with its first character uppercased and the rest unchanged.
pub open spec fn capitalized(s: Seq<char>) -> Seq<char> {
    if s.len() == 0 {
        s
    } else {
        upper_of(s[0]) + s.drop_first()
    }
}

/// Relies on str::to_lowercase: the Unicode lowercase mapping, a function of
/// the characters alone; an empty string stays empty.
#[verifier::external_body]
pub fn lowercase(s: &str) -> (r: String)
    ensures
        r@ == lower_of(s@),
        s@.len() == 0 ==> r@.len() == 0,
{
    s.to_lowercase()
}

/// Relies on char::to_uppercase: the Unicode uppercase mapping of the
/// character alone, yielding one or more characters.
#[verifier::external_body]
fn char_uppercase(c: char) -> (r: String)
    ensures
        r@ == upper_of(c),
{
    c.to_uppercase().collect()
}

/// Relies on char::is_alphabetic: whether the character has the Unicode
/// `Alphabetic` property, a function of the character alone.
#[verifier::external_body]
pub fn is_alphabetic_char(c: char) -> (r: bool)
    ensures
        r == char_alphabetic(c),
{
    c.is_alphabetic()
}

/// Whether two strings hold the same characters.
pub fn str_eq(a: &str, b: &str) -> (r: bool)
    ensures
        r == (a@ == b@),
{
    let sa: String = String::from_str(a);
    let sb: String = String::from_str(b);
    sa == sb
}

/// Uppercases the first character of a word; the rest of the word is kept
/// unchanged.
pub fn capitalize(word: &str) -> (r: String)
    ensures
        r@ == capitalized(word@),
{
    let n: usize = word.unicode_len();
    if n == 0 {
        let r: String = String::new();
        proof {
            assert(r@ =~= capitalized(word@));
        }
        r
    } else {
        let c: char = word.get_char(0);
        let rest: &str = word.substring_char(1, n);
        let r: String = char_uppercase(c).concat(rest);
        proof {
            assert(word@.subrange(1, n as int) =~= word@.drop_first());
        }
        r
    }
}

} // verus!
