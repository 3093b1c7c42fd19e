//! Text utilities of the pipeline: trimming the configured username and
//! cleaning quoting artifacts out of the extracted download link.

use vstd::prelude::*;

verus! {

/// Whether the character has the Unicode white-space property, as
/// `char::is_whitespace` decides it. Only the name is stated here; the
/// property is the standard library's.
pub uninterp spec fn is_space_char(c: char) -> bool;

/// Relies on `char::is_whitespace`: true exactly of characters with the
/// Unicode white-space property, a function of the character alone.
pub assume_specification[ char::is_whitespace ](c: char) -> (r: bool)
    ensures
        r == is_space_char(c),
;

/// `s` with leading white space removed.
pub open spec fn trim_start_spec(s: Seq<char>) -> Seq<char>
    decreases s.len(),
{
    if s.len() > 0 && is_space_char(s[0]) {
        trim_start_spec(s.skip(1))
    } else {
        s
    }
}

/// `s` with trailing white space removed.
pub open spec fn trim_end_spec(s: Seq<char>) -> Seq<char>
    decreases s.len(),
{
    if s.len() > 0 && is_space_char(s[s.len() - 1]) {
        trim_end_spec(s.drop_last())
    } else {
        s
    }
}

/// `s` with leading and trailing white space removed: what `str::trim`
/// leaves.
pub open spec fn trimmed(s: Seq<char>) -> Seq<char> {
    trim_end_spec(trim_start_spec(s))
}

/// Dropping a fully-white-space prefix does not change what trimming from
/// the start leaves.
proof fn lemma_trim_start_skip(s: Seq<char>, i: int)
    requires
        0 <= i <= s.len(),
        forall|j: int| 0 <= j < i ==> is_space_char(s[j]),
    ensures
        trim_start_spec(s) == trim_start_spec(s.skip(i)),
    decreases i,
{
    if i > 0 {
        lemma_trim_start_skip(s.skip(1), i - 1);
        assert(s.skip(1).skip(i - 1) =~= s.skip(i));
    } else {
        assert(s.skip(0) =~= s);
    }
}

/// Dropping a fully-white-space suffix does not change what trimming from
/// the end leaves.
proof fn lemma_trim_end_take(s: Seq<char>, i: int)
    requires
        0 <= i <= s.len(),
        forall|j: int| i <= j < s.len() ==> is_space_char(s[j]),
    ensures
        trim_end_spec(s) == trim_end_spec(s.take(i)),
    decreases s.len() - i,
{
    if i < s.len() {
        lemma_trim_end_take(s.drop_last(), i);
        assert(s.drop_last().take(i) =~= s.take(i));
    } else {
        assert(s.take(i) =~= s);
    }
}

/// The text with leading and trailing white space removed.
pub fn trim_text(s: &str) -> (r: &str)
    ensures
        r@ == trimmed(s@),
{
    let n = s.unicode_len();
    let mut start: usize = 0;
    while start < n && s.get_char(start).is_whitespace()
        invariant
            0 <= start <= n,
            n == s@.len(),
            forall|j: int| 0 <= j < start ==> is_space_char(s@[j]),
        decreases n - start,
    {
        start = start + 1;
    }
    let mut end: usize = n;
    while end > start && s.get_char(end - 1).is_whitespace()
        invariant
            start <= end <= n,
            n == s@.len(),
            forall|j: int| end <= j < n ==> is_space_char(s@[j]),
        decreases end,
    {
        end = end - 1;
    }
    proof {
        lemma_trim_start_skip(s@, start as int);
        let t = s@.skip(start as int);
        assert(forall|j: int| end - start <= j < t.len() ==> is_space_char(t[j]));
        lemma_trim_end_take(t, end - start);
        assert(t.take(end - start) =~= s@.subrange(start as int, end as int));
        if start < end {
            let u = s@.subrange(start as int, end as int);
            assert(!is_space_char(u[0]));
            assert(!is_space_char(u[u.len() - 1]));
        }
    }
    s.substring_char(start, end)
}

/// `s` with every double-quote character removed.
pub open spec fn without_quotes(s: Seq<char>) -> Seq<char>
    decreases s.len(),
{
    if s.len() == 0 {
        s
    } else {
        let rest = without_quotes(s.drop_last());
        if s.last() == '"' {
            rest
        } else {
            rest.push(s.last())
        }
    }
}

/// Relies on `String::push`: appends the one character at the end.
#[verifier::external_body]
fn push_char(s: &mut String, c: char)
    ensures
        final(s)@ == old(s)@.push(c),
{
    s.push(c);
}

/// The text with every double-quote character removed, as the extracted
/// download link is cleaned of quoting artifacts before use.
pub fn strip_quotes(s: &str) -> (r: String)
    ensures
        r@ == without_quotes(s@),
{
    let n = s.unicode_len();
    let mut r = String::new();
    let mut i: usize = 0;
    while i < n
        invariant
            0 <= i <= n,
            n == s@.len(),
            r@ == without_quotes(s@.take(i as int)),
        decreases n - i,
    {
        let c = s.get_char(i);
        if c != '"' {
            push_char(&mut r, c);
        }
        proof {
            assert(s@.take(i + 1).drop_last() =~= s@.take(i as int));
            assert(s@.take(i + 1).last() == s@[i as int]);
        }
        i = i + 1;
    }
    proof {
        assert(s@.take(n as int) =~= s@);
    }
    r
}

} // verus!
