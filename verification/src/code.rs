//! Short codes: fixed-length strings of digits and letters, drawn at random.

use rand::Rng;
use vstd::prelude::*;
use vstd::string::StrSliceExecFns;

verus! {

/// The number of symbols in the short code of a new redirection.
pub const SHORT_URL_LENGTH: usize = 6;

/// The alphabet of short codes: the ten digits and the letters of both cases.
pub open spec fn is_code_symbol(c: char) -> bool {
    ('0' <= c && c <= '9') || ('A' <= c && c <= 'Z') || ('a' <= c && c <= 'z')
}

/// A short code of `length` symbols.
pub open spec fn is_short_code(code: Seq<char>, length: nat) -> bool {
    &&& code.len() == length
    &&& forall|i: int| 0 <= i < code.len() ==> is_code_symbol(#[trigger] code[i])
}

/// `String::push` appends one character.
pub assume_specification[ String::push ](s: &mut String, ch: char)
    ensures
        final(s)@ == old(s)@.push(ch),
;

/// Draws one symbol with `rand::thread_rng` from the distribution
/// `rand::distributions::Alphanumeric`, which picks among the 62 digits
/// and letters of ASCII. Which one comes is left open.
#[verifier::external_body]
fn random_symbol() -> (c: char)
    ensures
        is_code_symbol(c),
{
    char::from(rand::thread_rng().sample(rand::distributions::Alphanumeric))
}

/// Whether `c` belongs to the alphabet of short codes.
pub fn symbol_allowed(c: char) -> (r: bool)
    ensures
        r == is_code_symbol(c),
{
    ('0' <= c && c <= '9') || ('A' <= c && c <= 'Z') || ('a' <= c && c <= 'z')
}

/// Whether `code` is a short code of `length` symbols.
pub fn code_allowed(code: &str, length: usize) -> (r: bool)
    ensures
        r == is_short_code(code@, length as nat),
{
    if code.unicode_len() != length {
        return false;
    }
    let mut i: usize = 0;
    while i < length
        invariant
            code@.len() == length,
            i <= length,
            forall|j: int| 0 <= j < i ==> is_code_symbol(#[trigger] code@[j]),
        decreases length - i,
    {
        if !symbol_allowed(code.get_char(i)) {
            return false;
        }
        i += 1;
    }
    true
}

/// A fresh random code of `str_size` symbols. It asks nobody whether the
/// code is taken: that is for the caller.
pub fn generate_random_string(str_size: usize) -> (code: String)
    ensures
        is_short_code(code@, str_size as nat),
{
    let mut code = String::new();
    let mut i: usize = 0;
    while i < str_size
        invariant
            i <= str_size,
            is_short_code(code@, i as nat),
        decreases str_size - i,
    {
        let c = random_symbol();
        code.push(c);
        i += 1;
    }
    code
}

} // verus!
