//! Character-level helpers shared by the routing, SQL and response modules:
//! string equality, splitting a request path into segments, and printing an
//! unsigned counter in decimal.

use vstd::prelude::*;

verus! {

/// Decides whether two string slices hold the same characters.
pub fn str_eq(a: &str, b: &str) -> (r: bool)
    ensures
        r == (a@ == b@),
{
    let a_len: usize = a.unicode_len();
    let b_len: usize = b.unicode_len();
    if a_len != b_len {
        return false;
    }
    let mut i: usize = 0;
    while i < a_len
        invariant
            a_len == a@.len(),
            b_len == b@.len(),
            a_len == b_len,
            i <= a_len,
            forall|j: int| 0 <= j < i ==> a@[j] == b@[j],
        decreases a_len - i,
    {
        if a.get_char(i) != b.get_char(i) {
            return false;
        }
        i = i + 1;
    }
    proof {
        assert(a@ =~= b@);
    }
    true
}

/// The character that prints a single decimal digit.
pub open spec fn spec_digit_char(d: nat) -> char {
    if d == 0 { '0' }
    else if d == 1 { '1' }
    else if d == 2 { '2' }
    else if d == 3 { '3' }
    else if d == 4 { '4' }
    else if d == 5 { '5' }
    else if d == 6 { '6' }
    else if d == 7 { '7' }
    else if d == 8 { '8' }
    else { '9' }
}

/// The decimal text of `n`, most significant digit first, no leading zeros
/// (a single `'0'` for zero).
pub open spec fn spec_decimal(n: nat) -> Seq<char>
    decreases n,
{
    if n < 10 {
        seq![spec_digit_char(n)]
    } else {
        spec_decimal(n / 10).push(spec_digit_char(n % 10))
    }
}

/// A one-character string slice for the digit `d`.
fn digit_str(d: u64) -> (r: &'static str)
    requires
        d < 10,
    ensures
        r@ == seq![spec_digit_char(d as nat)],
{
    proof {
        reveal_strlit("0");
        reveal_strlit("1");
        reveal_strlit("2");
        reveal_strlit("3");
        reveal_strlit("4");
        reveal_strlit("5");
        reveal_strlit("6");
        reveal_strlit("7");
        reveal_strlit("8");
        reveal_strlit("9");
    }
    if d == 0 { "0" }
    else if d == 1 { "1" }
    else if d == 2 { "2" }
    else if d == 3 { "3" }
    else if d == 4 { "4" }
    else if d == 5 { "5" }
    else if d == 6 { "6" }
    else if d == 7 { "7" }
    else if d == 8 { "8" }
    else { "9" }
}

/// Prints `n` in decimal.
pub fn u64_to_string(n: u64) -> (s: String)
    ensures
        s@ == spec_decimal(n as nat),
    decreases n,
{
    if n < 10 {
        String::from_str(digit_str(n))
    } else {
        let prefix: String = u64_to_string(n / 10);
        prefix.concat(digit_str(n % 10))
    }
}

/// After reading `s` left to right and cutting at every `'/'`: the segments
/// already closed (empty ones dropped), and the partial segment still open.
pub open spec fn spec_split_state(s: Seq<char>) -> (Seq<Seq<char>>, Seq<char>)
    decreases s.len(),
{
    if s.len() == 0 {
        (Seq::empty(), Seq::empty())
    } else {
        let prior = spec_split_state(s.drop_last());
        if s.last() == '/' {
            if prior.1.len() > 0 {
                (prior.0.push(prior.1), Seq::empty())
            } else {
                (prior.0, Seq::empty())
            }
        } else {
            (prior.0, prior.1.push(s.last()))
        }
    }
}

/// The non-empty stretches of `s` between `'/'` characters, in order.
pub open spec fn spec_path_segments(s: Seq<char>) -> Seq<Seq<char>> {
    let state = spec_split_state(s);
    if state.1.len() > 0 {
        state.0.push(state.1)
    } else {
        state.0
    }
}

/// Cuts a request path into its non-empty `'/'`-separated segments.
pub fn split_path(path: &str) -> (segments: Vec<String>)
    ensures
        segments@.map_values(|seg: String| seg@) == spec_path_segments(path@),
{
    let len: usize = path.unicode_len();
    let mut segments: Vec<String> = Vec::new();
    let mut start: usize = 0;
    let mut i: usize = 0;
    while i < len
        invariant
            len == path@.len(),
            start <= i <= len,
            segments@.map_values(|seg: String| seg@) == spec_split_state(path@.take(i as int)).0,
            path@.subrange(start as int, i as int) == spec_split_state(path@.take(i as int)).1,
        decreases len - i,
    {
        proof {
            assert(path@.take(i + 1 as int).drop_last() =~= path@.take(i as int));
        }
        let c: char = path.get_char(i);
        if c == '/' {
            if i > start {
                let seg: &str = path.substring_char(start, i);
                let ghost prior_views: Seq<Seq<char>> = segments@.map_values(|s2: String| s2@);
                segments.push(String::from_str(seg));
                proof {
                    assert(segments@.map_values(|s2: String| s2@) =~= prior_views.push(seg@));
                }
            }
            start = i + 1;
        }
        i = i + 1;
        proof {
            assert(path@.subrange(start as int, i as int) =~= if c == '/' {
                Seq::<char>::empty()
            } else {
                path@.subrange(start as int, i - 1 as int).push(path@[i - 1 as int])
            });
        }
    }
    proof {
        assert(path@.take(len as int) =~= path@);
    }
    if len > start {
        let seg: &str = path.substring_char(start, len);
        let ghost prior_views: Seq<Seq<char>> = segments@.map_values(|s2: String| s2@);
        segments.push(String::from_str(seg));
        proof {
            assert(segments@.map_values(|s2: String| s2@) =~= prior_views.push(seg@));
        }
    }
    segments
}

} // verus!
