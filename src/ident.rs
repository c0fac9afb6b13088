//! Short identifiers: what a valid one is, and how a fresh one is drawn.
use rand::Rng;
use vstd::prelude::*;

verus! {

/// Length of a freshly generated short identifier.
pub const SHORT_ID_LEN: usize = 8;

/// An ASCII letter or digit.
pub open spec fn is_alnum(c: char) -> bool {
    ('a' <= c && c <= 'z') || ('A' <= c && c <= 'Z') || ('0' <= c && c <= '9')
}

/// A short identifier that lookups accept: non-empty, ASCII letters and digits only.
pub open spec fn valid_id(s: Seq<char>) -> bool {
    s.len() > 0 && forall|i: int| 0 <= i < s.len() ==> is_alnum(#[trigger] s[i])
}

/// Tells whether `c` is an ASCII letter or digit.
pub fn is_alnum_char(c: char) -> (r: bool)
    ensures
        r == is_alnum(c),
{
    ('a' <= c && c <= 'z') || ('A' <= c && c <= 'Z') || ('0' <= c && c <= '9')
}

/// Tells whether `id` is a valid short identifier.
pub fn is_valid_short_id(id: &str) -> (r: bool)
    ensures
        r == valid_id(id@),
{
    let n = id.unicode_len();
    if n == 0 {
        return false;
    }
    let mut i: usize = 0;
    while i < n
        invariant
            n == id@.len(),
            i <= n,
            forall|j: int| 0 <= j < i ==> is_alnum(#[trigger] id@[j]),
        decreases n - i,
    {
        if !is_alnum_char(id.get_char(i)) {
            return false;
        }
        i = i + 1;
    }
    true
}

/// Relies on `rand::distributions::Alphanumeric` sampled from `rand::thread_rng`:
/// its `sample` returns a byte of `A-Z`, `a-z` or `0-9`.
#[verifier::external_body]
fn random_alnum() -> (c: char)
    ensures
        is_alnum(c),
{
    rand::thread_rng().sample(rand::distributions::Alphanumeric) as char
}

/// Relies on `String::from_iter` over chars: the string holds exactly those chars, in order.
#[verifier::external_body]
fn string_of_chars(v: &Vec<char>) -> (r: String)
    ensures
        r@ == v@,
{
    String::from_iter(v.iter())
}

/// Draws a fresh short identifier of `SHORT_ID_LEN` random letters and digits.
///
/// No check is made against identifiers already in use: two draws may collide.
pub fn generate_short_id() -> (r: String)
    ensures
        r@.len() == SHORT_ID_LEN,
        valid_id(r@),
{
    let mut chars: Vec<char> = Vec::new();
    let mut i: usize = 0;
    while i < SHORT_ID_LEN
        invariant
            i <= SHORT_ID_LEN,
            chars@.len() == i,
            forall|j: int| 0 <= j < i ==> is_alnum(#[trigger] chars@[j]),
        decreases SHORT_ID_LEN - i,
    {
        chars.push(random_alnum());
        i = i + 1;
    }
    string_of_chars(&chars)
}

} // verus!
