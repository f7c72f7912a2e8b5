//! Character-level string helpers shared by the endpoint and decoding rules.
use vstd::prelude::*;

verus! {

/// `s` with every trailing copy of `c` removed.
pub open spec fn trim_end_char(s: Seq<char>, c: char) -> Seq<char>
    decreases s.len(),
{
    if s.len() > 0 && s.last() == c {
        trim_end_char(s.drop_last(), c)
    } else {
        s
    }
}

/// `s` with every leading copy of `c` removed.
pub open spec fn trim_start_char(s: Seq<char>, c: char) -> Seq<char>
    decreases s.len(),
{
    if s.len() > 0 && s[0] == c {
        trim_start_char(s.drop_first(), c)
    } else {
        s
    }
}

/// Whether `s` ends with the non-empty `pat`.
pub open spec fn ends_with(s: Seq<char>, pat: Seq<char>) -> bool {
    pat.len() > 0 && s.len() >= pat.len() && s.subrange(s.len() - pat.len(), s.len() as int) == pat
}

/// `s` with every trailing repetition of `pat` removed.
pub open spec fn trim_end_pattern(s: Seq<char>, pat: Seq<char>) -> Seq<char>
    decreases s.len(),
{
    if ends_with(s, pat) {
        trim_end_pattern(s.subrange(0, s.len() - pat.len()), pat)
    } else {
        s
    }
}

pub proof fn lemma_trim_end_char_prefix(s: Seq<char>, c: char)
    ensures
        trim_end_char(s, c).len() <= s.len(),
        trim_end_char(s, c) == s.subrange(0, trim_end_char(s, c).len() as int),
        trim_end_char(s, c).len() > 0 ==> trim_end_char(s, c).last() != c,
    decreases s.len(),
{
    if s.len() > 0 && s.last() == c {
        lemma_trim_end_char_prefix(s.drop_last(), c);
        assert(s.drop_last().subrange(0, trim_end_char(s, c).len() as int) =~= s.subrange(
            0,
            trim_end_char(s, c).len() as int,
        ));
    } else {
        assert(s.subrange(0, s.len() as int) =~= s);
    }
}

/// The characters of `s`, one by one.
pub fn chars_of(s: &str) -> (r: Vec<char>)
    ensures
        r@ == s@,
{
    let n = s.unicode_len();
    let mut out: Vec<char> = Vec::new();
    let mut i: usize = 0;
    while i < n
        invariant
            n == s@.len(),
            i <= n,
            out@ == s@.subrange(0, i as int),
        decreases n - i,
    {
        out.push(s.get_char(i));
        i = i + 1;
        assert(out@ =~= s@.subrange(0, i as int));
    }
    assert(s@.subrange(0, n as int) =~= s@);
    out
}

/// Whether `s[..end]` ends with `pat`.
pub fn ends_with_at(s: &Vec<char>, end: usize, pat: &Vec<char>) -> (r: bool)
    requires
        end <= s.len(),
    ensures
        r == ends_with(s@.subrange(0, end as int), pat@),
{
    if pat.len() == 0 || end < pat.len() {
        return false;
    }
    let start = end - pat.len();
    let mut j: usize = 0;
    while j < pat.len()
        invariant
            start + pat.len() == end,
            end <= s.len(),
            j <= pat.len(),
            forall|k: int| 0 <= k < j ==> s@[start + k] == pat@[k],
        decreases pat.len() - j,
    {
        if s[start + j] != pat[j] {
            assert(s@.subrange(0, end as int).subrange(start as int, end as int)[j as int]
                != pat@[j as int]);
            return false;
        }
        j = j + 1;
    }
    assert(s@.subrange(0, end as int).subrange(start as int, end as int) =~= pat@);
    true
}

/// The number of characters left in `s[..end]` once every trailing copy of
/// `c` is removed.
pub fn trim_end_char_len(s: &Vec<char>, end: usize, c: char) -> (r: usize)
    requires
        end <= s.len(),
    ensures
        r as int == trim_end_char(s@.subrange(0, end as int), c).len(),
{
    let mut t: usize = end;
    while t > 0 && s[t - 1] == c
        invariant
            t <= end <= s.len(),
            trim_end_char(s@.subrange(0, t as int), c) == trim_end_char(
                s@.subrange(0, end as int),
                c,
            ),
        decreases t,
    {
        assert(s@.subrange(0, t as int).drop_last() =~= s@.subrange(0, t - 1));
        t = t - 1;
    }
    t
}

/// The number of leading copies of `c` in `s[from..end]`.
pub fn leading_char_count(s: &Vec<char>, from: usize, end: usize, c: char) -> (r: usize)
    requires
        from <= end <= s.len(),
    ensures
        from + r <= end,
        trim_start_char(s@.subrange(from as int, end as int), c) == s@.subrange(
            from + r,
            end as int,
        ),
{
    let mut k: usize = from;
    while k < end && s[k] == c
        invariant
            from <= k <= end <= s.len(),
            trim_start_char(s@.subrange(k as int, end as int), c) == trim_start_char(
                s@.subrange(from as int, end as int),
                c,
            ),
        decreases end - k,
    {
        assert(s@.subrange(k as int, end as int).drop_first() =~= s@.subrange(k + 1, end as int));
        k = k + 1;
    }
    k - from
}

/// A `String` holding the characters `s[from..to]`.
pub fn string_of_range(s: &str, from: usize, to: usize) -> (r: String)
    requires
        from <= to <= s@.len(),
    ensures
        r@ == s@.subrange(from as int, to as int),
{
    String::from_str(s.substring_char(from, to))
}

} // verus!
