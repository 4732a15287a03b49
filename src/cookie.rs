use vstd::prelude::*;
use vstd::string::StrSliceExecFns;
use crate::text::{chars_of, opt_text, trim, trim_bounds};

verus! {

broadcast use vstd::string::group_string_axioms;

/// What a cookie pair that carries the session token starts with: the
/// cookie's name and the first `=`.
pub open spec fn session_prefix() -> Seq<char> {
    "session_token="@
}

/// Where the `;`-delimited segment of `s` that begins at `start` ends.
pub open spec fn segment_end(s: Seq<char>, start: int) -> int
    decreases s.len() - start,
{
    if start >= s.len() {
        s.len() as int
    } else if s[start] == ';' {
        start
    } else {
        segment_end(s, start + 1)
    }
}

pub open spec fn starts_with(s: Seq<char>, p: Seq<char>) -> bool {
    p.len() <= s.len() && s.subrange(0, p.len() as int) == p
}

/// The session token of the first segment from `start` on that, trimmed,
/// starts with the session cookie's name and `=`: whatever follows that `=`.
pub open spec fn token_from(s: Seq<char>, start: int) -> Option<Seq<char>>
    decreases s.len() - start,
{
    if start < 0 || start > s.len() {
        None
    } else {
        let end = segment_end(s, start);
        let seg = trim(s.subrange(start, end));
        if starts_with(seg, session_prefix()) {
            Some(seg.subrange(session_prefix().len() as int, seg.len() as int))
        } else if end < start || end >= s.len() {
            None
        } else {
            token_from(s, end + 1)
        }
    }
}

/// The session token that a `Cookie` header value carries, if any.
pub open spec fn session_token_of(header: Seq<char>) -> Option<Seq<char>> {
    token_from(header, 0)
}

proof fn lemma_segment_end_bounds(s: Seq<char>, start: int)
    requires
        0 <= start <= s.len(),
    ensures
        start <= segment_end(s, start) <= s.len(),
        segment_end(s, start) < s.len() ==> s[segment_end(s, start)] == ';',
    decreases s.len() - start,
{
    if start < s.len() && s[start] != ';' {
        lemma_segment_end_bounds(s, start + 1);
    }
}

/// Whether `chars[from..to]` starts with `p`.
fn has_prefix_at(chars: &Vec<char>, from: usize, to: usize, p: &Vec<char>) -> (r: bool)
    requires
        from <= to <= chars.len(),
    ensures
        r == starts_with(chars@.subrange(from as int, to as int), p@),
{
    if p.len() > to - from {
        return false;
    }
    let mut k: usize = 0;
    while k < p.len()
        invariant
            p.len() <= to - from,
            from <= to <= chars.len(),
            k <= p.len(),
            forall|j: int| 0 <= j < k ==> chars@[from + j] == p@[j],
        decreases p.len() - k,
    {
        if chars[from + k] != p[k] {
            assert(chars@.subrange(from as int, to as int).subrange(0, p@.len() as int)[k as int]
                != p@[k as int]);
            return false;
        }
        k += 1;
    }
    assert(chars@.subrange(from as int, to as int).subrange(0, p@.len() as int) =~= p@);
    true
}

/// Finds the session token in a `Cookie` header value: the header is split on
/// `;`, each pair is trimmed, and the first pair named `session_token` gives
/// its value (everything after its first `=`, further `=` included).
pub fn parse_session_token(cookie_str: &str) -> (r: Option<String>)
    ensures
        opt_text(r) == session_token_of(cookie_str@),
{
    let chars = chars_of(cookie_str);
    let prefix = chars_of("session_token=");
    proof {
        reveal_strlit("session_token=");
    }
    let n = chars.len();
    let mut start: usize = 0;
    loop
        invariant
            chars@ == cookie_str@,
            prefix@ == session_prefix(),
            n == chars.len(),
            start <= n,
            token_from(chars@, start as int) == session_token_of(chars@),
        decreases n - start,
    {
        let mut end = start;
        while end < n && chars[end] != ';'
            invariant
                chars@ == cookie_str@,
                n == chars.len(),
                start <= end <= n,
                segment_end(chars@, start as int) == segment_end(chars@, end as int),
            decreases n - end,
        {
            end += 1;
        }
        proof {
            lemma_segment_end_bounds(chars@, start as int);
        }
        let (a, b) = trim_bounds(&chars, start, end);
        if has_prefix_at(&chars, a, b, &prefix) {
            let value = cookie_str.substring_char(a + prefix.len(), b);
            assert(value@ =~= trim(chars@.subrange(start as int, end as int)).subrange(
                session_prefix().len() as int,
                (b - a) as int,
            ));
            return Some(value.to_string());
        }
        if end >= n {
            return None;
        }
        start = end + 1;
    }
}

} // verus!
