//! Text helpers shared by the providers: finding a pattern in a string,
//! decimal numbers, and header-name comparison.

use vstd::prelude::*;
use vstd::string::*;

verus! {

/// The text behind an optional string slice.
pub open spec fn text_view(s: Option<&str>) -> Option<Seq<char>> {
    match s {
        Some(t) => Some(t@),
        None => None,
    }
}

/// The text behind an optional string.
pub open spec fn string_view(s: Option<String>) -> Option<Seq<char>> {
    match s {
        Some(t) => Some(t@),
        None => None,
    }
}

/// Whether `pat` stands in `s` at position `at`.
pub open spec fn occurs_at(s: Seq<char>, at: int, pat: Seq<char>) -> bool {
    &&& 0 <= at
    &&& at + pat.len() <= s.len()
    &&& s.subrange(at, at + pat.len()) == pat
}

/// Whether `pat` stands in `s` at character position `at`.
pub fn matches_at(s: &str, at: usize, pat: &str) -> (r: bool)
    ensures
        r == occurs_at(s@, at as int, pat@),
{
    let n: usize = s.unicode_len();
    let m: usize = pat.unicode_len();
    if at > n || n - at < m {
        return false;
    }
    let mut k: usize = 0;
    while k < m
        invariant
            n == s@.len(),
            m == pat@.len(),
            at + m <= n,
            k <= m,
            forall|j: int| 0 <= j < k ==> s@[at + j] == pat@[j],
        decreases m - k,
    {
        if s.get_char(at + k) != pat.get_char(k) {
            assert(s@.subrange(at as int, at + m)[k as int] != pat@[k as int]);
            return false;
        }
        k = k + 1;
    }
    assert(s@.subrange(at as int, at + m) =~= pat@);
    true
}

/// The first position at or behind `from` at which `pat` stands in `s`, and
/// the length of `s` where there is none.
pub open spec fn position_from(s: Seq<char>, pat: Seq<char>, from: int) -> int
    decreases s.len() - from,
{
    if from >= s.len() {
        s.len() as int
    } else if occurs_at(s, from, pat) {
        from
    } else {
        position_from(s, pat, from + 1)
    }
}

/// The first position at which `pat` stands in `s`, and the length of `s`
/// where it stands nowhere.
pub open spec fn position(s: Seq<char>, pat: Seq<char>) -> int {
    position_from(s, pat, 0)
}

/// `s` without the `pat` that it begins with, and `s` itself where it does
/// not begin with `pat`.
pub open spec fn after_prefix(s: Seq<char>, pat: Seq<char>) -> Seq<char> {
    if occurs_at(s, 0, pat) {
        s.subrange(pat.len() as int, s.len() as int)
    } else {
        s
    }
}

/// Finds the first position at which `pat` stands in `s`. The length of `s`
/// says that it stands nowhere.
pub fn find(s: &str, pat: &str) -> (r: usize)
    ensures
        r == position(s@, pat@),
        r <= s@.len(),
{
    let n: usize = s.unicode_len();
    let mut i: usize = 0;
    while i < n
        invariant
            n == s@.len(),
            i <= n,
            position(s@, pat@) == position_from(s@, pat@, i as int),
        decreases n - i,
    {
        if matches_at(s, i, pat) {
            return i;
        }
        i = i + 1;
    }
    i
}

/// Takes `pat` from the start of `s`, where `s` begins with it.
pub fn strip_prefix<'a>(s: &'a str, pat: &str) -> (r: &'a str)
    ensures
        r@ == after_prefix(s@, pat@),
{
    if matches_at(s, 0, pat) {
        s.substring_char(pat.unicode_len(), s.unicode_len())
    } else {
        s
    }
}

/// A position that is found lies in the text, and the pattern stands there.
pub proof fn lemma_position_found(s: Seq<char>, pat: Seq<char>, from: int)
    requires
        0 <= from <= s.len(),
    ensures
        from <= position_from(s, pat, from) <= s.len(),
        position_from(s, pat, from) < s.len() ==> occurs_at(
            s,
            position_from(s, pat, from),
            pat,
        ),
    decreases s.len() - from,
{
    if from < s.len() && !occurs_at(s, from, pat) {
        lemma_position_found(s, pat, from + 1);
    }
}

/// The position that is found is the first at which the pattern stands.
pub proof fn lemma_position_first(s: Seq<char>, pat: Seq<char>, from: int, at: int)
    requires
        0 <= from <= at < s.len(),
        occurs_at(s, at, pat),
        forall|i: int| from <= i < at ==> !occurs_at(s, i, pat),
    ensures
        position_from(s, pat, from) == at,
    decreases at - from,
{
    if from < at {
        lemma_position_first(s, pat, from + 1, at);
    }
}

/// The decimal digit for a number below ten.
pub open spec fn digit(d: nat) -> char
    recommends
        d < 10,
{
    ('0' as nat + d) as char
}

/// The decimal numeral of `n`, without sign or leading zeros.
pub open spec fn decimal(n: nat) -> Seq<char>
    decreases n,
{
    if n < 10 {
        seq![digit(n)]
    } else {
        decimal(n / 10) + seq![digit(n % 10)]
    }
}

fn digit_text(d: u32) -> (r: &'static str)
    requires
        d < 10,
    ensures
        r@ == seq![digit(d as nat)],
{
    proof {
        reveal_strlit("0");
        reveal_strlit("1");
        reveal_strlit("2");
        reveal_strlit("3");
        reveal_strlit("4");
        reveal_strlit("5");
        reveal_strlit("6");
        reveal_strlit("7");
        reveal_strlit("8");
        reveal_strlit("9");
    }
    let r: &'static str = if d == 0 {
        "0"
    } else if d == 1 {
        "1"
    } else if d == 2 {
        "2"
    } else if d == 3 {
        "3"
    } else if d == 4 {
        "4"
    } else if d == 5 {
        "5"
    } else if d == 6 {
        "6"
    } else if d == 7 {
        "7"
    } else if d == 8 {
        "8"
    } else {
        "9"
    };
    assert(r@ =~= seq![digit(d as nat)]);
    r
}

/// Writes `n` as a decimal numeral.
pub fn decimal_text(n: u32) -> (r: String)
    ensures
        r@ == decimal(n as nat),
    decreases n,
{
    if n < 10 {
        digit_text(n).to_owned()
    } else {
        let mut out = decimal_text(n / 10);
        out.append(digit_text(n % 10));
        out
    }
}

/// A letter `A` to `Z` as its small letter, any other character unchanged.
pub open spec fn folded(c: char) -> char {
    if 'A' <= c && c <= 'Z' {
        ((c as u8) + 32) as char
    } else {
        c
    }
}

/// Whether two names are equal once the case of the letters `A` to `Z` is
/// set aside.
pub open spec fn same_name(a: Seq<char>, b: Seq<char>) -> bool {
    &&& a.len() == b.len()
    &&& forall|i: int| 0 <= i < a.len() ==> folded(a[i]) == folded(#[trigger] b[i])
}

fn fold(c: char) -> (r: char)
    ensures
        r == folded(c),
{
    if 'A' <= c && c <= 'Z' {
        ((c as u8) + 32) as char
    } else {
        c
    }
}

/// Compares two names without regard to the case of the letters `A` to `Z`.
pub fn names_match(a: &str, b: &str) -> (r: bool)
    ensures
        r == same_name(a@, b@),
{
    let n: usize = a.unicode_len();
    if n != b.unicode_len() {
        return false;
    }
    let mut i: usize = 0;
    while i < n
        invariant
            n == a@.len(),
            n == b@.len(),
            i <= n,
            forall|j: int| 0 <= j < i ==> folded(a@[j]) == folded(#[trigger] b@[j]),
        decreases n - i,
    {
        if fold(a.get_char(i)) != fold(b.get_char(i)) {
            return false;
        }
        i = i + 1;
    }
    true
}

/// Whether `s` begins with `prefix`.
pub fn begins_with(s: &str, prefix: &str) -> (r: bool)
    ensures
        r == occurs_at(s@, 0, prefix@),
{
    matches_at(s, 0, prefix)
}

} // verus!
