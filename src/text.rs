use vstd::prelude::*;

verus! {

/// Whether two pieces of text hold the same characters.
pub fn same_text(a: &str, b: &str) -> (r: bool)
    ensures
        r == (a@ == b@),
{
    let a: String = a.to_owned();
    let b: String = b.to_owned();
    a == b
}

/// The number of characters before the first `c`, or the whole length when
/// there is none.
pub open spec fn span_until(t: Seq<char>, c: char) -> nat
    decreases t.len(),
{
    if t.len() == 0 || t[0] == c {
        0
    } else {
        1 + span_until(t.drop_first(), c)
    }
}

pub proof fn lemma_span_until(t: Seq<char>, c: char, i: int)
    requires
        0 <= i <= t.len(),
        i == t.len() || t[i] == c,
        forall|m: int| 0 <= m < i ==> t[m] != c,
    ensures
        span_until(t, c) == i,
    decreases i,
{
    if i > 0 {
        lemma_span_until(t.drop_first(), c, i - 1);
    }
}

/// The position of the first `c` in `s`, or its length when there is none.
pub fn find_char(s: &str, c: char) -> (r: usize)
    ensures
        r == span_until(s@, c),
        r <= s@.len(),
{
    let n = s.unicode_len();
    let mut i: usize = 0;
    while i < n && s.get_char(i) != c
        invariant
            i <= n,
            n == s@.len(),
            forall|m: int| 0 <= m < i ==> s@[m] != c,
        decreases n - i,
    {
        i = i + 1;
    }
    proof {
        lemma_span_until(s@, c, i as int);
    }
    i
}

/// What `str::trim` returns for a text.
pub uninterp spec fn trimmed(s: Seq<char>) -> Seq<char>;

/// Relies on `str::trim`: the text without leading and trailing whitespace,
/// which depends on the characters alone.
#[verifier::external_body]
pub(crate) fn trim_text(s: &str) -> (r: String)
    ensures
        r@ == trimmed(s@),
{
    s.trim().to_owned()
}

/// What `str::to_lowercase` returns for a text.
pub uninterp spec fn lowered(s: Seq<char>) -> Seq<char>;

/// Relies on `str::to_lowercase`: the lowercase mapping of the text, which
/// depends on the characters alone.
#[verifier::external_body]
pub(crate) fn lower_text(s: &str) -> (r: String)
    ensures
        r@ == lowered(s@),
{
    s.to_lowercase()
}

/// Whether `s` begins with `prefix`.
pub fn starts_with(s: &str, prefix: &str) -> (r: bool)
    ensures
        r == prefix@.is_prefix_of(s@),
{
    let n = s.unicode_len();
    let p = prefix.unicode_len();
    if p > n {
        return false;
    }
    let mut i: usize = 0;
    while i < p
        invariant
            p <= n,
            n == s@.len(),
            p == prefix@.len(),
            i <= p,
            forall|m: int| 0 <= m < i ==> prefix@[m] == s@[m],
        decreases p - i,
    {
        if s.get_char(i) != prefix.get_char(i) {
            assert(prefix@[i as int] != s@.subrange(0, p as int)[i as int]);
            return false;
        }
        i = i + 1;
    }
    assert(prefix@ =~= s@.subrange(0, p as int));
    true
}

/// The pieces of `s` between occurrences of `sep`; two separators in a row
/// delimit an empty piece.
pub open spec fn pieces(s: Seq<char>, sep: char) -> Seq<Seq<char>>
    decreases s.len(),
{
    if s.len() == 0 {
        seq![Seq::empty()]
    } else {
        let w = pieces(s.drop_last(), sep);
        if s.last() == sep {
            w.push(Seq::empty())
        } else {
            w.update(w.len() - 1, w.last().push(s.last()))
        }
    }
}

/// The text of each string.
pub open spec fn texts(v: Seq<String>) -> Seq<Seq<char>> {
    v.map_values(|s: String| s@)
}

pub proof fn lemma_pieces_nonempty(s: Seq<char>, sep: char)
    ensures
        pieces(s, sep).len() >= 1,
    decreases s.len(),
{
    if s.len() > 0 {
        lemma_pieces_nonempty(s.drop_last(), sep);
    }
}

/// Splits `line` at each `sep`.
pub fn split_on(line: &str, sep: char) -> (r: Vec<String>)
    ensures
        texts(r@) == pieces(line@, sep),
{
    let n = line.unicode_len();
    let mut words: Vec<String> = Vec::new();
    let mut start: usize = 0;
    let mut i: usize = 0;
    proof {
        assert(line@.take(0) =~= Seq::<char>::empty());
        assert(line@.subrange(0, 0) =~= Seq::<char>::empty());
        assert(texts(words@) =~= Seq::<Seq<char>>::empty());
        assert(pieces(line@.take(0), sep) =~= texts(words@).push(line@.subrange(0, 0)));
    }
    while i < n
        invariant
            n == line@.len(),
            start <= i <= n,
            pieces(line@.take(i as int), sep) == texts(words@).push(
                line@.subrange(start as int, i as int),
            ),
        decreases n - i,
    {
        proof {
            assert(line@.take(i + 1).drop_last() =~= line@.take(i as int));
            lemma_pieces_nonempty(line@.take(i as int), sep);
        }
        let ghost w = texts(words@).push(line@.subrange(start as int, i as int));
        if line.get_char(i) == sep {
            let ghost before = words@;
            let word = line.substring_char(start, i).to_owned();
            words.push(word);
            proof {
                assert(texts(words@) =~= texts(before).push(line@.subrange(start as int, i as int)));
                assert(line@.subrange(i + 1, i + 1) =~= Seq::<char>::empty());
                assert(texts(words@).push(line@.subrange(i + 1, i + 1)) =~= w.push(Seq::empty()));
            }
            start = i + 1;
        } else {
            proof {
                assert(line@.subrange(start as int, i + 1) =~= line@.subrange(start as int, i as int).push(
                    line@[i as int],
                ));
                assert(texts(words@).push(line@.subrange(start as int, i + 1)) =~= w.update(
                    w.len() - 1,
                    w.last().push(line@[i as int]),
                ));
            }
        }
        i = i + 1;
    }
    let ghost before = words@;
    let word = line.substring_char(start, n).to_owned();
    words.push(word);
    proof {
        assert(line@.take(n as int) =~= line@);
        assert(texts(words@) =~= texts(before).push(word@));
    }
    words
}

} // verus!
