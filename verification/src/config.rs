//! The stored `daysOfWeek` shape: a JSON array of weekday numbers,
//! e.g. `"[1,3,5]"`, with optional whitespace.  A text that does not
//! have this shape is malformed, and the task carrying it is skipped
//! for the sweep.  Entry values are capped: anything above 7 parses as
//! 8, a value that matches no weekday.

use vstd::prelude::*;
use crate::time::{spec_is_digit, spec_digit_val, is_digit, digit_val};

verus! {

/// JSON whitespace.
pub open spec fn spec_is_sp(c: char) -> bool {
    c == ' ' || c == '\t' || c == '\n' || c == '\r'
}

/// Whitespace check, executable.
fn is_sp(c: char) -> (r: bool)
    ensures
        r == spec_is_sp(c),
{
    c == ' ' || c == '\t' || c == '\n' || c == '\r'
}

/// The text without leading whitespace.
pub open spec fn spec_trim_front(s: Seq<char>) -> Seq<char>
    decreases s.len(),
{
    if s.len() > 0 && spec_is_sp(s[0]) {
        spec_trim_front(s.skip(1))
    } else {
        s
    }
}

/// The text without trailing whitespace.
pub open spec fn spec_trim_back(s: Seq<char>) -> Seq<char>
    decreases s.len(),
{
    if s.len() > 0 && spec_is_sp(s[s.len() - 1]) {
        spec_trim_back(s.drop_last())
    } else {
        s
    }
}

/// The text without surrounding whitespace.
pub open spec fn spec_trim(s: Seq<char>) -> Seq<char> {
    spec_trim_back(spec_trim_front(s))
}

/// Position of the first comma, if any.
pub open spec fn spec_find_comma(s: Seq<char>) -> Option<int>
    decreases s.len(),
{
    if s.len() == 0 {
        None
    } else if s[0] == ',' {
        Some(0int)
    } else {
        match spec_find_comma(s.skip(1)) {
            Some(k) => Some(k + 1),
            None => None,
        }
    }
}

/// Is the text one or more decimal digits?
pub open spec fn spec_all_digits(s: Seq<char>) -> bool {
    s.len() > 0 && forall|i: int| 0 <= i < s.len() ==> spec_is_digit(#[trigger] s[i])
}

/// Value of a digit text, capped: any value above 7 becomes 8, which
/// matches no weekday.
pub open spec fn spec_num_capped(s: Seq<char>) -> u32
    decreases s.len(),
{
    if s.len() == 0 {
        0
    } else {
        let prev = spec_num_capped(s.drop_last());
        let v = prev as int * 10 + spec_digit_val(s[s.len() - 1]);
        if v > 7 {
            8u32
        } else {
            v as u32
        }
    }
}

/// Value of one array entry: its trimmed text must be all digits.
pub open spec fn spec_entry_val(e: Seq<char>) -> Option<u32> {
    let t = spec_trim(e);
    if spec_all_digits(t) {
        Some(spec_num_capped(t))
    } else {
        None
    }
}

/// Values of a non-empty comma-separated entry list.
pub open spec fn spec_entries(u: Seq<char>) -> Option<Seq<u32>>
    decreases u.len(),
{
    match spec_find_comma(u) {
        Some(k) => if 0 <= k < u.len() {
            match (spec_entry_val(u.take(k)), spec_entries(u.skip(k + 1))) {
                (Some(v), Some(rest)) => Some(seq![v] + rest),
                _ => None,
            }
        } else {
            None
        },
        None => match spec_entry_val(u) {
            Some(v) => Some(seq![v]),
            None => None,
        },
    }
}

/// The parsed `daysOfWeek` list: `None` on any text that is not a JSON
/// array of digit entries.
pub open spec fn spec_parse_days(s: Seq<char>) -> Option<Seq<u32>> {
    let t = spec_trim(s);
    if t.len() >= 2 && t[0] == '[' && t[t.len() - 1] == ']' {
        let inner = t.subrange(1, t.len() - 1);
        if spec_trim(inner).len() == 0 {
            Some(Seq::empty())
        } else {
            spec_entries(inner)
        }
    } else {
        None
    }
}

/// Leading-whitespace removal, executable.
fn trim_front(s: &str) -> (r: &str)
    ensures
        r@ == spec_trim_front(s@),
    decreases s@.len(),
{
    let n = s.unicode_len();
    if n > 0 && is_sp(s.get_char(0)) {
        let rest = s.substring_char(1, n);
        proof {
            assert(rest@ =~= s@.skip(1));
        }
        trim_front(rest)
    } else {
        s
    }
}

/// Trailing-whitespace removal, executable.
fn trim_back(s: &str) -> (r: &str)
    ensures
        r@ == spec_trim_back(s@),
    decreases s@.len(),
{
    let n = s.unicode_len();
    if n > 0 && is_sp(s.get_char(n - 1)) {
        let rest = s.substring_char(0, n - 1);
        proof {
            assert(rest@ =~= s@.drop_last());
        }
        trim_back(rest)
    } else {
        s
    }
}

/// Surrounding-whitespace removal, executable.
fn trim(s: &str) -> (r: &str)
    ensures
        r@ == spec_trim(s@),
{
    trim_back(trim_front(s))
}

/// First comma, executable.
fn find_comma(s: &str) -> (r: Option<usize>)
    ensures
        match r {
            Some(u) => spec_find_comma(s@) == Some(u as int) && u < s@.len(),
            None => spec_find_comma(s@) is None,
        },
    decreases s@.len(),
{
    let n = s.unicode_len();
    if n == 0 {
        None
    } else if s.get_char(0) == ',' {
        Some(0)
    } else {
        let rest = s.substring_char(1, n);
        proof {
            assert(rest@ =~= s@.skip(1));
        }
        match find_comma(rest) {
            Some(k) => Some(k + 1),
            None => None,
        }
    }
}

/// One entry's capped value, executable.
fn parse_entry(e: &str) -> (r: Option<u32>)
    ensures
        r == spec_entry_val(e@),
{
    let t = trim(e);
    let n = t.unicode_len();
    if n == 0 {
        return None;
    }
    let mut i: usize = 0;
    let mut acc: u32 = 0;
    proof {
        assert(t@.take(0) =~= Seq::<char>::empty());
    }
    while i < n
        invariant
            i <= n,
            n == t@.len(),
            t@ == spec_trim(e@),
            acc == spec_num_capped(t@.take(i as int)),
            acc <= 8,
            forall|j: int| 0 <= j < i ==> spec_is_digit(#[trigger] t@[j]),
        decreases n - i,
    {
        let c = t.get_char(i);
        if !is_digit(c) {
            assert(!spec_is_digit(t@[i as int]));
            assert(!spec_all_digits(t@));
            return None;
        }
        let d = digit_val(c);
        let v = acc * 10 + d;
        let next: u32 = if v > 7 {
            8
        } else {
            v
        };
        proof {
            assert(t@.take(i + 1).drop_last() =~= t@.take(i as int));
            assert(t@.take(i + 1)[i as int] == t@[i as int]);
        }
        acc = next;
        i = i + 1;
    }
    proof {
        assert(t@.take(n as int) =~= t@);
        assert(spec_all_digits(t@));
    }
    Some(acc)
}

/// Entry list, executable.
fn parse_entries(u: &str) -> (r: Option<Vec<u32>>)
    ensures
        match r {
            Some(v) => spec_entries(u@) == Some(v@),
            None => spec_entries(u@) is None,
        },
    decreases u@.len(),
{
    let n = u.unicode_len();
    match find_comma(u) {
        Some(k) => {
            let head = u.substring_char(0, k);
            proof {
                assert(head@ =~= u@.take(k as int));
            }
            match parse_entry(head) {
                None => None,
                Some(v) => {
                    let rest_str = u.substring_char(k + 1, n);
                    proof {
                        assert(rest_str@ =~= u@.skip(k + 1));
                    }
                    match parse_entries(rest_str) {
                        None => None,
                        Some(mut rest) => {
                            rest.insert(0, v);
                            proof {
                                assert(rest@ =~= seq![v] + rest@.skip(1));
                            }
                            Some(rest)
                        },
                    }
                },
            }
        },
        None => {
            match parse_entry(u) {
                Some(v) => {
                    let out: Vec<u32> = vec![v];
                    proof {
                        assert(out@ =~= seq![v]);
                    }
                    Some(out)
                },
                None => None,
            }
        },
    }
}

/// Parse a stored `daysOfWeek` text, executable.
pub fn parse_days_of_week(s: &str) -> (r: Option<Vec<u32>>)
    ensures
        match r {
            Some(v) => spec_parse_days(s@) == Some(v@),
            None => spec_parse_days(s@) is None,
        },
{
    let t = trim(s);
    let n = t.unicode_len();
    if !(n >= 2 && t.get_char(0) == '[' && t.get_char(n - 1) == ']') {
        return None;
    }
    let inner = t.substring_char(1, n - 1);
    proof {
        assert(inner@ =~= t@.subrange(1, t@.len() - 1));
    }
    let trimmed_inner = trim(inner);
    if trimmed_inner.unicode_len() == 0 {
        let out: Vec<u32> = Vec::new();
        proof {
            assert(out@ =~= Seq::<u32>::empty());
        }
        return Some(out);
    }
    parse_entries(inner)
}

} // verus!
