//! Character and string helpers shared by the trainer: the whitespace
//! predicate used when splitting key rows, trimming of typed input, and
//! case-insensitive matching of key characters.

use vstd::prelude::*;
use vstd::string::StrSliceExecFns;

verus! {

/// Characters treated as whitespace when key rows are split and typed
/// input is trimmed.
pub open spec fn is_space_char(c: char) -> bool {
    c == ' ' || c == '\t' || c == '\n' || c == '\r'
}

/// Executable twin of [`is_space_char`].
pub fn is_space(c: char) -> (r: bool)
    ensures
        r == is_space_char(c),
{
    c == ' ' || c == '\t' || c == '\n' || c == '\r'
}

/// The sequence with leading whitespace removed.
pub open spec fn trim_front(s: Seq<char>) -> Seq<char>
    decreases s.len(),
{
    if s.len() > 0 && is_space_char(s.first()) {
        trim_front(s.drop_first())
    } else {
        s
    }
}

/// The sequence with trailing whitespace removed.
pub open spec fn trim_back(s: Seq<char>) -> Seq<char>
    decreases s.len(),
{
    if s.len() > 0 && is_space_char(s.last()) {
        trim_back(s.drop_last())
    } else {
        s
    }
}

/// The sequence with both leading and trailing whitespace removed.
pub open spec fn trim_spaces(s: Seq<char>) -> Seq<char> {
    trim_back(trim_front(s))
}

proof fn lemma_trim_front_skip(s: Seq<char>, i: int)
    requires
        0 <= i <= s.len(),
        forall|k: int| 0 <= k < i ==> is_space_char(s[k]),
        i == s.len() || !is_space_char(s[i]),
    ensures
        trim_front(s) == s.skip(i),
    decreases i,
{
    if i == 0 {
        assert(s.skip(0) == s);
    } else {
        assert(is_space_char(s.first()));
        lemma_trim_front_skip(s.drop_first(), i - 1);
        assert(s.drop_first().skip(i - 1) == s.skip(i));
    }
}

proof fn lemma_trim_back_take(s: Seq<char>, j: int)
    requires
        0 <= j <= s.len(),
        forall|k: int| j <= k < s.len() ==> is_space_char(s[k]),
        j == 0 || !is_space_char(s[j - 1]),
    ensures
        trim_back(s) == s.take(j),
    decreases s.len(),
{
    if s.len() > 0 && is_space_char(s.last()) {
        assert(j < s.len());
        lemma_trim_back_take(s.drop_last(), j);
        assert(s.drop_last().take(j) == s.take(j));
    } else {
        assert(j == s.len());
        assert(s.take(j) == s);
    }
}

/// Copy of `s` with leading and trailing whitespace removed, the form in
/// which typed input is compared against the target word.
pub fn trim(s: &str) -> (r: String)
    ensures
        r@ == trim_spaces(s@),
{
    let n = s.unicode_len();
    let mut start: usize = 0;
    while start < n && is_space(s.get_char(start))
        invariant
            n == s@.len(),
            0 <= start <= n,
            forall|k: int| 0 <= k < start ==> is_space_char(s@[k]),
        decreases n - start,
    {
        start = start + 1;
    }
    let mut end: usize = n;
    while end > start && is_space(s.get_char(end - 1))
        invariant
            n == s@.len(),
            0 <= start <= end <= n,
            forall|k: int| end <= k < n ==> is_space_char(s@[k]),
        decreases end,
    {
        end = end - 1;
    }
    proof {
        lemma_trim_front_skip(s@, start as int);
        let t = s@.skip(start as int);
        lemma_trim_back_take(t, end - start);
        assert(t.take(end - start) =~= s@.subrange(start as int, end as int));
    }
    let r = s.substring_char(start, end);
    r.to_owned()
}

/// Character-wise equality of two string slices.
pub fn str_eq(a: &str, b: &str) -> (r: bool)
    ensures
        r == (a@ == b@),
{
    let na = a.unicode_len();
    let nb = b.unicode_len();
    if na != nb {
        return false;
    }
    let mut i: usize = 0;
    while i < na
        invariant
            na == a@.len(),
            na == b@.len(),
            0 <= i <= na,
            forall|k: int| 0 <= k < i ==> a@[k] == b@[k],
        decreases na - i,
    {
        if a.get_char(i) != b.get_char(i) {
            return false;
        }
        i = i + 1;
    }
    proof {
        assert(a@ =~= b@);
    }
    true
}

/// The whitespace-separated tokens of `cur + s`, where `cur` is the token
/// read so far: the accumulator form behind [`split_spaces`].
pub open spec fn split_acc(s: Seq<char>, cur: Seq<char>) -> Seq<Seq<char>>
    decreases s.len(),
{
    if s.len() == 0 {
        if cur.len() == 0 {
            Seq::empty()
        } else {
            seq![cur]
        }
    } else if is_space_char(s.first()) {
        if cur.len() == 0 {
            split_acc(s.drop_first(), cur)
        } else {
            seq![cur] + split_acc(s.drop_first(), Seq::empty())
        }
    } else {
        split_acc(s.drop_first(), cur.push(s.first()))
    }
}

/// The whitespace-separated tokens of `s`, in order; runs of whitespace
/// produce no empty tokens.
pub open spec fn split_spaces(s: Seq<char>) -> Seq<Seq<char>> {
    split_acc(s, Seq::empty())
}

/// The views of a vector of character rows.
pub open spec fn views_of_rows(rows: Seq<Vec<char>>) -> Seq<Seq<char>> {
    Seq::new(rows.len(), |i: int| rows[i]@)
}

/// Splits whitespace-separated key rows into one character vector per row.
pub fn parse_rows(s: &str) -> (r: Vec<Vec<char>>)
    ensures
        views_of_rows(r@) == split_spaces(s@),
{
    let n = s.unicode_len();
    let mut rows: Vec<Vec<char>> = Vec::new();
    let mut cur: Vec<char> = Vec::new();
    let mut i: usize = 0;
    proof {
        assert(s@.skip(0) =~= s@);
        assert(views_of_rows(rows@) =~= Seq::<Seq<char>>::empty());
        assert(views_of_rows(rows@) + split_acc(s@, Seq::<char>::empty()) =~= split_acc(
            s@,
            Seq::<char>::empty(),
        ));
    }
    while i < n
        invariant
            n == s@.len(),
            0 <= i <= n,
            split_spaces(s@) == views_of_rows(rows@) + split_acc(s@.skip(i as int), cur@),
        decreases n - i,
    {
        let c = s.get_char(i);
        proof {
            assert(s@.skip(i as int).first() == s@[i as int]);
            assert(s@.skip(i as int).drop_first() =~= s@.skip(i + 1));
        }
        if is_space(c) {
            if cur.len() > 0 {
                let ghost old_rows = rows@;
                let ghost done = cur@;
                rows.push(cur);
                cur = Vec::new();
                proof {
                    assert(views_of_rows(rows@) =~= views_of_rows(old_rows).push(done));
                    assert(views_of_rows(old_rows) + (seq![done] + split_acc(
                        s@.skip(i + 1),
                        Seq::empty(),
                    )) =~= views_of_rows(rows@) + split_acc(s@.skip(i + 1), cur@));
                }
            }
        } else {
            cur.push(c);
        }
        i = i + 1;
    }
    proof {
        assert(s@.skip(n as int) =~= Seq::<char>::empty());
    }
    if cur.len() > 0 {
        let ghost old_rows = rows@;
        let ghost done = cur@;
        rows.push(cur);
        proof {
            assert(views_of_rows(rows@) =~= views_of_rows(old_rows).push(done));
            assert(views_of_rows(old_rows) + seq![done] =~= views_of_rows(rows@));
        }
    }
    rows
}

/// Relies on `String::push`: appends the given character at the end of the
/// string.
#[verifier::external_body]
pub(crate) fn push_char(s: &mut String, c: char)
    ensures
        final(s)@ == old(s)@.push(c),
{
    s.push(c);
}

/// Whether `lo` is the lower-case ASCII letter whose upper-case form is `up`.
pub open spec fn lower_upper_pair(lo: char, up: char) -> bool {
    'a' <= lo && lo <= 'z' && 'A' <= up && up <= 'Z' && lo as u32 == up as u32 + 32
}

/// Whether two characters name the same key, ignoring ASCII case.
pub open spec fn same_key(a: char, b: char) -> bool {
    a == b || lower_upper_pair(a, b) || lower_upper_pair(b, a)
}

/// Executable twin of [`same_key`].
pub fn key_eq(a: char, b: char) -> (r: bool)
    ensures
        r == same_key(a, b),
{
    if a == b {
        return true;
    }
    let au = a as u32;
    let bu = b as u32;
    (97 <= au && au <= 122 && 65 <= bu && bu <= 90 && au == bu + 32) || (97 <= bu && bu <= 122
        && 65 <= au && au <= 90 && bu == au + 32)
}

} // verus!
