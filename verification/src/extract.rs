//! Ticket-reference extraction.
//!
//! A ticket reference is a substring of the form `UPPERCASE-LETTERS '-'
//! DIGITS` (at least one letter and one digit), the key convention of
//! common issue trackers. [`extract_jira_ticket`] scans a text and
//! returns the first such reference under leftmost-match semantics:
//! the match starting at the smallest position, taking the whole run
//! of letters, the dash, and the whole run of digits that follow.

use vstd::prelude::*;
use vstd::string::StrSliceExecFns;

verus! {

/// An uppercase ASCII letter, the `[A-Z]` class of the ticket pattern.
pub open spec fn is_upper(c: char) -> bool {
    'A' <= c && c <= 'Z'
}

/// An ASCII digit, the `[0-9]` class of the ticket pattern.
pub open spec fn is_digit(c: char) -> bool {
    '0' <= c && c <= '9'
}

/// The text `t`, split at position `m`, has the exact shape of a
/// ticket reference: letters before `m`, a dash at `m`, digits after.
pub open spec fn is_ticket_split(t: Seq<char>, m: int) -> bool {
    &&& 1 <= m
    &&& m + 2 <= t.len()
    &&& t[m] == '-'
    &&& forall|i: int| 0 <= i < m ==> is_upper(#[trigger] t[i])
    &&& forall|i: int| m < i < t.len() ==> is_digit(#[trigger] t[i])
}

/// The whole text `t` is one ticket reference.
pub open spec fn is_ticket(t: Seq<char>) -> bool {
    exists|m: int| is_ticket_split(t, m)
}

/// The end of the run of uppercase letters that starts at `i`.
pub open spec fn upper_run_end(s: Seq<char>, i: int) -> int
    decreases s.len() - i,
{
    if i < 0 || i >= s.len() {
        i
    } else if is_upper(s[i]) {
        upper_run_end(s, i + 1)
    } else {
        i
    }
}

/// The end of the run of digits that starts at `i`.
pub open spec fn digit_run_end(s: Seq<char>, i: int) -> int
    decreases s.len() - i,
{
    if i < 0 || i >= s.len() {
        i
    } else if is_digit(s[i]) {
        digit_run_end(s, i + 1)
    } else {
        i
    }
}

/// A ticket reference starts at position `i` of `s`: a non-empty run
/// of letters, then a dash, then at least one digit.
pub open spec fn matches_at(s: Seq<char>, i: int) -> bool {
    let k = upper_run_end(s, i);
    &&& 0 <= i < s.len()
    &&& is_upper(s[i])
    &&& k < s.len()
    &&& s[k] == '-'
    &&& k + 1 < s.len()
    &&& is_digit(s[k + 1])
}

/// Where the match starting at `i` ends: the letters, the dash, and
/// the longest run of digits after the dash.
pub open spec fn match_end(s: Seq<char>, i: int) -> int {
    digit_run_end(s, upper_run_end(s, i) + 1)
}

/// The smallest position at or after `i` where a ticket reference starts.
pub open spec fn first_match_from(s: Seq<char>, i: int) -> Option<int>
    decreases s.len() - i,
{
    if i < 0 || i >= s.len() {
        None
    } else if matches_at(s, i) {
        Some(i)
    } else {
        first_match_from(s, i + 1)
    }
}

/// What extraction returns on `s`: the leftmost ticket reference,
/// taken verbatim, or nothing when no position starts one.
pub open spec fn spec_extract(s: Seq<char>) -> Option<Seq<char>> {
    match first_match_from(s, 0) {
        Some(i) => Some(s.subrange(i, match_end(s, i))),
        None => None,
    }
}

proof fn lemma_upper_run_end_bounds(s: Seq<char>, i: int)
    requires
        0 <= i <= s.len(),
    ensures
        i <= upper_run_end(s, i) <= s.len(),
        forall|t: int| i <= t < upper_run_end(s, i) ==> is_upper(#[trigger] s[t]),
        upper_run_end(s, i) < s.len() ==> !is_upper(s[upper_run_end(s, i)]),
    decreases s.len() - i,
{
    if i < s.len() && is_upper(s[i]) {
        lemma_upper_run_end_bounds(s, i + 1);
    }
}

proof fn lemma_digit_run_end_bounds(s: Seq<char>, i: int)
    requires
        0 <= i <= s.len(),
    ensures
        i <= digit_run_end(s, i) <= s.len(),
        forall|t: int| i <= t < digit_run_end(s, i) ==> is_digit(#[trigger] s[t]),
        digit_run_end(s, i) < s.len() ==> !is_digit(s[digit_run_end(s, i)]),
    decreases s.len() - i,
{
    if i < s.len() && is_digit(s[i]) {
        lemma_digit_run_end_bounds(s, i + 1);
    }
}

proof fn lemma_upper_run_end_exact(s: Seq<char>, i: int, e: int)
    requires
        0 <= i <= e <= s.len(),
        forall|t: int| i <= t < e ==> is_upper(#[trigger] s[t]),
        e == s.len() || !is_upper(s[e]),
    ensures
        upper_run_end(s, i) == e,
    decreases e - i,
{
    if i < e {
        lemma_upper_run_end_exact(s, i + 1, e);
    }
}

/// A match starting at `i` yields, verbatim, a well-formed ticket
/// reference as the subrange up to its end.
proof fn lemma_match_gives_ticket(s: Seq<char>, i: int)
    requires
        matches_at(s, i),
    ensures
        i < match_end(s, i) <= s.len(),
        is_ticket(s.subrange(i, match_end(s, i))),
{
    let k = upper_run_end(s, i);
    lemma_upper_run_end_bounds(s, i);
    assert(k > i);
    let e = match_end(s, i);
    lemma_digit_run_end_bounds(s, k + 1);
    assert(e >= k + 2);
    let t = s.subrange(i, e);
    let m = k - i;
    assert(is_ticket_split(t, m)) by {
        assert(t[m] == s[k]);
        assert(forall|x: int| 0 <= x < m ==> is_upper(#[trigger] t[x]) && t[x] == s[i + x]);
        assert(forall|x: int| m < x < t.len() ==> is_digit(#[trigger] t[x]) && t[x] == s[i + x]);
    }
}

/// Wherever a whole subrange of `s` is a ticket reference, a match
/// starts at that subrange's first position.
proof fn lemma_ticket_gives_match(s: Seq<char>, i: int, j: int)
    requires
        0 <= i <= j <= s.len(),
        is_ticket(s.subrange(i, j)),
    ensures
        matches_at(s, i),
{
    let t = s.subrange(i, j);
    let m = choose|m: int| is_ticket_split(t, m);
    assert(is_ticket_split(t, m));
    assert forall|x: int| i <= x < i + m implies is_upper(#[trigger] s[x]) by {
        assert(t[x - i] == s[x]);
        assert(is_upper(t[x - i]));
    }
    assert(s[i + m] == t[m]);
    assert(!is_upper('-'));
    lemma_upper_run_end_exact(s, i, i + m);
    assert(is_upper(s[i]));
    assert(is_digit(t[m + 1]));
    assert(t[m + 1] == s[i + m + 1]);
}

/// `first_match_from` finds the least match position at or after `a`,
/// and reports none exactly when no position at or after `a` matches.
proof fn lemma_first_match_from_props(s: Seq<char>, a: int)
    requires
        0 <= a <= s.len(),
    ensures
        match first_match_from(s, a) {
            Some(i) => a <= i < s.len() && matches_at(s, i) && (forall|t: int|
                a <= t < i ==> !matches_at(s, t)),
            None => forall|t: int| a <= t < s.len() ==> !matches_at(s, t),
        },
    decreases s.len() - a,
{
    if a < s.len() && !matches_at(s, a) {
        lemma_first_match_from_props(s, a + 1);
    }
}

/// Extraction returns nothing precisely on the texts in which no
/// subrange is a ticket reference.
pub proof fn lemma_extract_none_iff_no_ticket(s: Seq<char>)
    ensures
        spec_extract(s) is None <==> (forall|i: int, j: int|
            0 <= i <= j <= s.len() ==> !is_ticket(#[trigger] s.subrange(i, j))),
{
    lemma_first_match_from_props(s, 0);
    if spec_extract(s) is None {
        assert forall|i: int, j: int| 0 <= i <= j <= s.len() implies !is_ticket(
            #[trigger] s.subrange(i, j),
        ) by {
            if is_ticket(s.subrange(i, j)) {
                lemma_ticket_gives_match(s, i, j);
            }
        }
    } else {
        let i = first_match_from(s, 0)->Some_0;
        lemma_match_gives_ticket(s, i);
    }
}

/// What extraction returns is a verbatim subrange of the text, is a
/// well-formed ticket reference, and is the leftmost one: no ticket
/// reference starts at any earlier position.
pub proof fn lemma_extract_leftmost_ticket(s: Seq<char>)
    requires
        spec_extract(s) is Some,
    ensures
        ({
            let t = spec_extract(s)->Some_0;
            &&& is_ticket(t)
            &&& exists|i: int|
                {
                    &&& 0 <= i
                    &&& i + t.len() <= s.len()
                    &&& #[trigger] s.subrange(i, i + t.len() as int) == t
                    &&& forall|a: int, b: int|
                        0 <= a <= b <= s.len() && a < i ==> !is_ticket(#[trigger] s.subrange(a, b))
                }
        }),
{
    lemma_first_match_from_props(s, 0);
    let i = first_match_from(s, 0)->Some_0;
    lemma_match_gives_ticket(s, i);
    let t = spec_extract(s)->Some_0;
    assert(s.subrange(i, i + t.len() as int) == t);
    assert forall|a: int, b: int| 0 <= a <= b <= s.len() && a < i implies !is_ticket(
        #[trigger] s.subrange(a, b),
    ) by {
        if is_ticket(s.subrange(a, b)) {
            lemma_ticket_gives_match(s, a, b);
        }
    }
}

/// The characters of `s`, in order, as a vector.
fn chars_of(s: &str) -> (v: Vec<char>)
    ensures
        v@ == s@,
{
    let n = s.unicode_len();
    let mut v: Vec<char> = Vec::new();
    let mut i: usize = 0;
    while i < n
        invariant
            n == s@.len(),
            i <= n,
            v@ == s@.subrange(0, i as int),
        decreases n - i,
    {
        let c = s.get_char(i);
        v.push(c);
        proof {
            assert(v@ =~= s@.subrange(0, (i + 1) as int));
        }
        i += 1;
    }
    proof {
        assert(v@ =~= s@);
    }
    v
}

/// Whether a match starts at `i`, and if so where it ends: the run of
/// letters from `i`, a dash, then the run of digits.
fn find_match_end(v: &Vec<char>, i: usize) -> (r: Option<usize>)
    requires
        i < v@.len(),
    ensures
        r is Some <==> matches_at(v@, i as int),
        r matches Some(e) ==> i < e <= v@.len() && e as int == match_end(v@, i as int),
{
    let ghost s = v@;
    let n = v.len();
    if !('A' <= v[i] && v[i] <= 'Z') {
        return None;
    }
    let mut j = i;
    while j < n && 'A' <= v[j] && v[j] <= 'Z'
        invariant
            i <= j <= n,
            n == s.len(),
            v@ == s,
            upper_run_end(s, i as int) == upper_run_end(s, j as int),
        decreases n - j,
    {
        j += 1;
    }
    proof {
        assert(upper_run_end(s, j as int) == j);
    }
    if j == n {
        return None;
    }
    if v[j] != '-' {
        return None;
    }
    if j + 1 == n {
        return None;
    }
    if !('0' <= v[j + 1] && v[j + 1] <= '9') {
        return None;
    }
    let mut k = j + 1;
    while k < n && '0' <= v[k] && v[k] <= '9'
        invariant
            j + 1 <= k <= n,
            n == s.len(),
            v@ == s,
            digit_run_end(s, (j + 1) as int) == digit_run_end(s, k as int),
        decreases n - k,
    {
        k += 1;
    }
    proof {
        assert(digit_run_end(s, k as int) == k);
    }
    Some(k)
}

/// Scan `text` for a ticket reference of the shape
/// `UPPERCASE-LETTERS '-' DIGITS` and return the leftmost one, or
/// nothing when the text contains none.
pub fn extract_jira_ticket(text: &str) -> (r: Option<String>)
    ensures
        r is Some <==> spec_extract(text@) is Some,
        r matches Some(t) ==> spec_extract(text@) == Some(t@),
{
    let v = chars_of(text);
    let ghost s = text@;
    let n = v.len();
    let mut i: usize = 0;
    while i < n
        invariant
            v@ == s,
            s == text@,
            n == s.len(),
            i <= n,
            first_match_from(s, 0) == first_match_from(s, i as int),
        decreases n - i,
    {
        match find_match_end(&v, i) {
            Some(e) => {
                proof {
                    assert(first_match_from(s, i as int) == Some(i as int));
                }
                let m = text.substring_char(i, e);
                return Some(m.to_owned());
            },
            None => {
                proof {
                    assert(first_match_from(s, i as int) == first_match_from(s, i + 1));
                }
                i += 1;
            },
        }
    }
    None
}

} // verus!

