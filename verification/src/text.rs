//! Character-level text helpers: splitting on a separator and trimming
//! surrounding whitespace.

use vstd::prelude::*;
use vstd::string::StrSliceExecFns;

verus! {

/// The characters of `s` with leading and trailing whitespace removed,
/// as `str::trim` computes it.
pub uninterp spec fn trim_of(s: Seq<char>) -> Seq<char>;

/// Relies on `str::trim`: returns `s` without leading and trailing
/// whitespace; the result depends on the characters of `s` alone.
#[verifier::external_body]
pub(crate) fn trim_str(s: &str) -> (r: &str)
    ensures
        r@ == trim_of(s@),
        s@.len() == 0 ==> r@.len() == 0,
{
    s.trim()
}

/// The views of a sequence of strings.
pub open spec fn views_of(v: Seq<String>) -> Seq<Seq<char>> {
    v.map_values(|t: String| t@)
}

pub proof fn lemma_views_of_push(v: Seq<String>, t: String)
    ensures
        views_of(v.push(t)) =~= views_of(v).push(t@),
{
}

/// First index of `sep` in `s`, or `s.len()` when `sep` does not occur.
pub open spec fn find_sep(s: Seq<char>, sep: char) -> nat
    decreases s.len(),
{
    if s.len() == 0 {
        0
    } else if s[0] == sep {
        0
    } else {
        (1 + find_sep(s.drop_first(), sep)) as nat
    }
}

/// `find_sep` is the unique index `j` with no separator before it and a
/// separator (or the end of the sequence) at it.
pub proof fn lemma_find_sep_at(s: Seq<char>, sep: char, j: int)
    requires
        0 <= j <= s.len(),
        forall|k: int| 0 <= k < j ==> s[k] != sep,
        j < s.len() ==> s[j] == sep,
    ensures
        find_sep(s, sep) == j,
    decreases s.len(),
{
    if s.len() == 0 {
    } else if s[0] == sep {
        if j > 0 {
            assert(s[0] != sep);
        }
    } else {
        if j == 0 {
            assert(s[0] == sep);
        }
        assert forall|k: int| 0 <= k < j - 1 implies s.drop_first()[k] != sep by {
            assert(s.drop_first()[k] == s[k + 1]);
        }
        if j - 1 < s.drop_first().len() {
            assert(s.drop_first()[j - 1] == s[j]);
        }
        lemma_find_sep_at(s.drop_first(), sep, j - 1);
    }
}

/// `s` split on `sep`: the tokens between occurrences of `sep`, in order;
/// `n` separators give `n + 1` tokens.
pub open spec fn split_on(s: Seq<char>, sep: char) -> Seq<Seq<char>>
    decreases s.len(),
{
    let i: int = find_sep(s, sep) as int;
    if i < s.len() {
        seq![s.subrange(0, i)] + split_on(s.subrange(i + 1, s.len() as int), sep)
    } else {
        seq![s]
    }
}

proof fn lemma_split_step(s: Seq<char>, sep: char, start: int, i: int)
    requires
        0 <= start <= i < s.len(),
        forall|k: int| start <= k < i ==> s[k] != sep,
        s[i] == sep,
    ensures
        split_on(s.skip(start), sep) == seq![s.subrange(start, i)] + split_on(
            s.skip(i + 1),
            sep,
        ),
{
    let t = s.skip(start);
    assert forall|k: int| 0 <= k < i - start implies t[k] != sep by {
        assert(t[k] == s[start + k]);
    }
    assert(t[i - start] == s[i]);
    lemma_find_sep_at(t, sep, i - start);
    assert(t.subrange(0, i - start) =~= s.subrange(start, i));
    assert(t.subrange(i - start + 1, t.len() as int) =~= s.skip(i + 1));
}

proof fn lemma_split_rest(s: Seq<char>, sep: char, start: int)
    requires
        0 <= start <= s.len(),
        forall|k: int| start <= k < s.len() ==> s[k] != sep,
    ensures
        split_on(s.skip(start), sep) == seq![s.subrange(start, s.len() as int)],
{
    let t = s.skip(start);
    assert forall|k: int| 0 <= k < t.len() implies t[k] != sep by {
        assert(t[k] == s[start + k]);
    }
    lemma_find_sep_at(t, sep, t.len() as int);
}

/// Splits `s` on every occurrence of `sep`, in order; `n` occurrences of the
/// separator yield `n + 1` tokens.
pub fn split_on_char(s: &str, sep: char) -> (r: Vec<String>)
    ensures
        views_of(r@) == split_on(s@, sep),
{
    let len = s.unicode_len();
    let mut r: Vec<String> = Vec::new();
    let mut start: usize = 0;
    let mut i: usize = 0;
    proof {
        assert(s@.skip(0) =~= s@);
        assert(views_of(r@) + split_on(s@, sep) =~= split_on(s@, sep));
    }
    while i < len
        invariant
            start <= i <= len,
            len == s@.len(),
            forall|k: int| start <= k < i ==> s@[k] != sep,
            views_of(r@) + split_on(s@.skip(start as int), sep) == split_on(s@, sep),
        decreases len - i,
    {
        let c = s.get_char(i);
        if c == sep {
            let token = s.substring_char(start, i).to_owned();
            proof {
                lemma_split_step(s@, sep, start as int, i as int);
                lemma_views_of_push(r@, token);
                assert(views_of(r@).push(token@) + split_on(s@.skip(i as int + 1), sep)
                    =~= views_of(r@) + (seq![token@] + split_on(s@.skip(i as int + 1), sep)));
            }
            r.push(token);
            start = i + 1;
        }
        i = i + 1;
    }
    let token = s.substring_char(start, len).to_owned();
    proof {
        lemma_split_rest(s@, sep, start as int);
        lemma_views_of_push(r@, token);
        assert(views_of(r@).push(token@) =~= views_of(r@) + seq![token@]);
    }
    r.push(token);
    r
}

} // verus!
