//! Write authorization: the passcode a caller presents in a cookie, held
//! against the reference passcode.
use vstd::prelude::*;

verus! {

/// Unicode `White_Space`, the set that `str::trim` removes.
pub open spec fn is_white(c: char) -> bool {
    ('\u{9}' <= c && c <= '\u{d}') || c == ' ' || c == '\u{85}' || c == '\u{a0}' || c
        == '\u{1680}' || ('\u{2000}' <= c && c <= '\u{200a}') || c == '\u{2028}' || c
        == '\u{2029}' || c == '\u{202f}' || c == '\u{205f}' || c == '\u{3000}'
}

/// Number of whitespace chars at the start of `s`.
pub open spec fn lead_white(s: Seq<char>) -> nat
    decreases s.len(),
{
    if s.len() > 0 && is_white(s[0]) {
        1 + lead_white(s.drop_first())
    } else {
        0
    }
}

/// Number of whitespace chars at the end of `s`.
pub open spec fn trail_white(s: Seq<char>) -> nat
    decreases s.len(),
{
    if s.len() > 0 && is_white(s.last()) {
        1 + trail_white(s.drop_last())
    } else {
        0
    }
}

/// `s` without leading and trailing whitespace.
pub open spec fn trim(s: Seq<char>) -> Seq<char> {
    let a = s.subrange(lead_white(s) as int, s.len() as int);
    a.subrange(0, a.len() - trail_white(a))
}

/// Index of the first `c` in `s`, or the length of `s` where there is none.
pub open spec fn first_index(s: Seq<char>, c: char) -> nat
    decreases s.len(),
{
    if s.len() == 0 || s[0] == c {
        0
    } else {
        1 + first_index(s.drop_first(), c)
    }
}

/// The cookie key under which callers present the passcode.
pub open spec fn passcode_key() -> Seq<char> {
    seq!['p', 'a', 's', 's', 'c', 'o', 'd', 'e']
}

/// The passcode held by one `key=value` pair of a cookie: the text after its
/// first `=`, where the text before that `=`, trimmed, is the passcode key.
pub open spec fn pair_value(p: Seq<char>) -> Option<Seq<char>> {
    let k = first_index(p, '=');
    if k < p.len() && trim(p.subrange(0, k as int)) == passcode_key() {
        Some(p.subrange(k + 1 as int, p.len() as int))
    } else {
        None
    }
}

/// The passcode in a cookie header: the value of the first `;`-separated pair
/// that holds one.
pub open spec fn passcode_in(cookie: Seq<char>) -> Option<Seq<char>>
    decreases cookie.len(),
{
    let i = first_index(cookie, ';');
    match pair_value(cookie.subrange(0, i as int)) {
        Some(v) => Some(v),
        None => if i < cookie.len() {
            passcode_in(cookie.subrange(i + 1 as int, cookie.len() as int))
        } else {
            None
        },
    }
}

/// A write is authorized when a passcode was presented and equals the reference.
pub open spec fn authorized(presented: Option<Seq<char>>, reference: Seq<char>) -> bool {
    presented == Some(reference)
}

proof fn lemma_first_index(s: Seq<char>, c: char, k: int)
    requires
        0 <= k <= s.len(),
        forall|j: int| 0 <= j < k ==> s[j] != c,
        k == s.len() || s[k] == c,
    ensures
        first_index(s, c) == k,
    decreases k,
{
    if k > 0 {
        lemma_first_index(s.drop_first(), c, k - 1);
    }
}

proof fn lemma_lead_white(s: Seq<char>, k: int)
    requires
        0 <= k <= s.len(),
        forall|j: int| 0 <= j < k ==> is_white(#[trigger] s[j]),
        k == s.len() || !is_white(s[k]),
    ensures
        lead_white(s) == k,
    decreases k,
{
    if k > 0 {
        lemma_lead_white(s.drop_first(), k - 1);
    }
}

proof fn lemma_trail_white(s: Seq<char>, k: int)
    requires
        0 <= k <= s.len(),
        forall|j: int| s.len() - k <= j < s.len() ==> is_white(#[trigger] s[j]),
        k == s.len() || !is_white(s[s.len() - k - 1]),
    ensures
        trail_white(s) == k,
    decreases k,
{
    if k > 0 {
        lemma_trail_white(s.drop_last(), k - 1);
    }
}

/// Tells whether `c` is Unicode whitespace.
pub fn is_white_char(c: char) -> (r: bool)
    ensures
        r == is_white(c),
{
    ('\u{9}' <= c && c <= '\u{d}') || c == ' ' || c == '\u{85}' || c == '\u{a0}' || c
        == '\u{1680}' || ('\u{2000}' <= c && c <= '\u{200a}') || c == '\u{2028}' || c
        == '\u{2029}' || c == '\u{202f}' || c == '\u{205f}' || c == '\u{3000}'
}

/// Tells whether two strings hold the same chars.
pub fn same_text(a: &str, b: &str) -> (r: bool)
    ensures
        r == (a@ == b@),
{
    let n = a.unicode_len();
    if n != b.unicode_len() {
        return false;
    }
    let mut i: usize = 0;
    while i < n
        invariant
            n == a@.len(),
            n == b@.len(),
            i <= n,
            forall|j: int| 0 <= j < i ==> a@[j] == b@[j],
        decreases n - i,
    {
        if a.get_char(i) != b.get_char(i) {
            return false;
        }
        i = i + 1;
    }
    assert(a@ =~= b@);
    true
}

fn first_index_of(s: &str, c: char) -> (r: usize)
    ensures
        r == first_index(s@, c),
        r <= s@.len(),
{
    let n = s.unicode_len();
    let mut i: usize = 0;
    while i < n && s.get_char(i) != c
        invariant
            n == s@.len(),
            i <= n,
            forall|j: int| 0 <= j < i ==> s@[j] != c,
        decreases n - i,
    {
        i = i + 1;
    }
    proof {
        lemma_first_index(s@, c, i as int);
    }
    i
}

/// `s` without leading and trailing whitespace.
pub fn trimmed(s: &str) -> (r: &str)
    ensures
        r@ == trim(s@),
{
    let n = s.unicode_len();
    let mut lo: usize = 0;
    while lo < n && is_white_char(s.get_char(lo))
        invariant
            n == s@.len(),
            lo <= n,
            forall|j: int| 0 <= j < lo ==> is_white(#[trigger] s@[j]),
        decreases n - lo,
    {
        lo = lo + 1;
    }
    proof {
        lemma_lead_white(s@, lo as int);
    }
    let mut hi: usize = n;
    while hi > lo && is_white_char(s.get_char(hi - 1))
        invariant
            n == s@.len(),
            lo <= hi <= n,
            forall|j: int| hi <= j < n ==> is_white(#[trigger] s@[j]),
        decreases hi,
    {
        hi = hi - 1;
    }
    proof {
        let a = s@.subrange(lo as int, n as int);
        lemma_trail_white(a, (n - hi) as int);
        assert(a.subrange(0, a.len() - (n - hi)) =~= s@.subrange(lo as int, hi as int));
    }
    s.substring_char(lo, hi)
}

/// The passcode of one `key=value` cookie pair, where its key is the passcode key.
pub fn pair_passcode(pair: &str) -> (r: Option<String>)
    ensures
        r.deep_view() == pair_value(pair@),
{
    let n = pair.unicode_len();
    let k = first_index_of(pair, '=');
    if k == n {
        return None;
    }
    let key = trimmed(pair.substring_char(0, k));
    let expected = "passcode";
    proof {
        reveal_strlit("passcode");
        assert(expected@ =~= passcode_key());
    }
    if same_text(key, expected) {
        Some(String::from_str(pair.substring_char(k + 1, n)))
    } else {
        None
    }
}

/// The passcode a cookie header presents: the value after the first `=` of the
/// first `;`-separated pair whose trimmed key is `passcode`.
pub fn passcode_from_cookie(cookie: &str) -> (r: Option<String>)
    ensures
        r.deep_view() == passcode_in(cookie@),
{
    let n = cookie.unicode_len();
    let mut start: usize = 0;
    assert(cookie@.subrange(0, n as int) =~= cookie@);
    loop
        invariant
            n == cookie@.len(),
            start <= n,
            passcode_in(cookie@) == passcode_in(cookie@.subrange(start as int, n as int)),
        decreases n - start,
    {
        let rest = cookie.substring_char(start, n);
        let i = first_index_of(rest, ';');
        let found = pair_passcode(rest.substring_char(0, i));
        if found.is_some() {
            return found;
        }
        if i == rest.unicode_len() {
            return None;
        }
        proof {
            assert(rest@.subrange(i + 1, rest@.len() as int) =~= cookie@.subrange(
                start + i + 1,
                n as int,
            ));
        }
        start = start + i + 1;
    }
}

/// Tells whether a presented passcode authorizes a write: it must be there and
/// equal the reference passcode exactly.
pub fn authorize(presented: Option<&str>, reference: &str) -> (r: bool)
    ensures
        r == authorized(presented.deep_view(), reference@),
{
    match presented {
        Some(p) => same_text(p, reference),
        None => false,
    }
}

} // verus!
