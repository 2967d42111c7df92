use vstd::prelude::*;
use vstd::utf8::encode_utf8;

use crate::text::{chars_of, same_text, trim, trim_text};

verus! {

/// The position of the first `c` in `s`, or `s.len()` where there is none.
pub open spec fn find(s: Seq<char>, c: char) -> int
    decreases s.len(),
{
    if s.len() == 0 || s[0] == c {
        0
    } else {
        1 + find(s.drop_first(), c)
    }
}

pub proof fn lemma_find_bounds(s: Seq<char>, c: char)
    ensures
        0 <= find(s, c) <= s.len(),
        find(s, c) < s.len() ==> s[find(s, c)] == c,
        forall|j: int| 0 <= j < find(s, c) ==> s[j] != c,
    decreases s.len(),
{
    if s.len() > 0 && s[0] != c {
        lemma_find_bounds(s.drop_first(), c);
        assert forall|j: int| 0 <= j < find(s, c) implies s[j] != c by {
            if j > 0 {
                assert(s[j] == s.drop_first()[j - 1]);
            }
        }
    }
}

proof fn lemma_find_is(s: Seq<char>, c: char, k: int)
    requires
        0 <= k <= s.len(),
        forall|j: int| 0 <= j < k ==> s[j] != c,
        k < s.len() ==> s[k] == c,
    ensures
        find(s, c) == k,
    decreases k,
{
    if k > 0 {
        assert forall|j: int| 0 <= j < k - 1 implies s.drop_first()[j] != c by {
            assert(s.drop_first()[j] == s[j + 1]);
        }
        lemma_find_is(s.drop_first(), c, k - 1);
    }
}

/// The value of the first `loc=` line of a Cloudflare trace, trimmed: lines
/// end at `\n`, and a line's key is the text before its first `=`.
pub open spec fn trace_loc_value(s: Seq<char>) -> Option<Seq<char>>
    decreases s.len(),
{
    let n = find(s, '\n');
    let line = s.take(n);
    let e = find(line, '=');
    if e < line.len() && line.take(e) == "loc"@ {
        Some(trim(line.skip(e + 1)))
    } else if n < s.len() {
        proof {
            lemma_find_bounds(s, '\n');
        }
        trace_loc_value(s.skip(n + 1))
    } else {
        None
    }
}

/// The first index at or after `start` and before `end` that holds `c`, or `end`.
fn find_in(v: &Vec<char>, start: usize, end: usize, c: char) -> (k: usize)
    requires
        start <= end <= v.len(),
    ensures
        start <= k <= end,
        forall|j: int| start <= j < k ==> v@[j] != c,
        k < end ==> v@[k as int] == c,
{
    let mut k = start;
    while k < end && v[k] != c
        invariant
            start <= k <= end,
            end <= v.len(),
            forall|j: int| start <= j < k ==> v@[j] != c,
        decreases end - k,
    {
        k = k + 1;
    }
    k
}

/// The two-letter country code that a Cloudflare `/cdn-cgi/trace` response
/// reports on its `loc=` line, independent of any locale. A first `loc`
/// value whose UTF-8 form is not two bytes long gives `None`.
pub fn country_from_cloudflare_trace(trace: &str) -> (r: Option<&str>)
    ensures
        match trace_loc_value(trace@) {
            Some(v) => if encode_utf8(v).len() == 2 {
                r matches Some(c) && c@ == v
            } else {
                r is None
            },
            None => r is None,
        },
{
    let v = chars_of(trace);
    let len = v.len();
    let mut i: usize = 0;
    assert(v@.skip(0) =~= v@);
    loop
        invariant
            i <= len,
            len == v@.len(),
            v@ == trace@,
            trace_loc_value(trace@) == trace_loc_value(v@.skip(i as int)),
        decreases len - i,
    {
        let n = find_in(&v, i, len, '\n');
        let e = find_in(&v, i, n, '=');
        let ghost s = v@.skip(i as int);
        let ghost line = s.take(n - i);
        proof {
            assert forall|j: int| 0 <= j < n - i implies s[j] != '\n' by {
                assert(s[j] == v@[i + j]);
            }
            lemma_find_is(s, '\n', n - i);
            assert forall|j: int| 0 <= j < e - i implies line[j] != '=' by {
                assert(line[j] == v@[i + j]);
            }
            lemma_find_is(line, '=', e - i);
        }
        if e < n {
            let key = trace.substring_char(i, e);
            assert(key@ =~= line.take(e - i));
            if same_text(key, "loc") {
                let raw = trace.substring_char(e + 1, n);
                assert(raw@ =~= line.skip(e - i + 1));
                let country = trim_text(raw);
                if country.as_bytes().len() == 2 {
                    return Some(country);
                } else {
                    return None;
                }
            }
        }
        if n == len {
            return None;
        }
        assert(s.skip(n - i + 1) =~= v@.skip(n + 1));
        i = n + 1;
    }
}

} // verus!
