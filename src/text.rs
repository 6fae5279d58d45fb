//! Small verified helpers on text.
use vstd::prelude::*;

verus! {

/// The characters of `s`, in order.
pub fn chars_of(s: &str) -> (r: Vec<char>)
    ensures
        r@ == s@,
{
    broadcast use vstd::string::axiom_spec_iter;

    let mut out: Vec<char> = Vec::new();
    for c in it: s.chars()
        invariant
            it.seq() == s@,
            out@ == it.seq().take(it.index()),
    {
        out.push(c);
        assert(out@ =~= it.seq().take(it.index() + 1));
    }
    assert(out@ =~= s@);
    out
}

/// Relies on `String::push`: appends one character at the end.
#[verifier::external_body]
pub fn push_char(s: &mut String, c: char)
    ensures
        final(s)@ == old(s)@.push(c),
{
    s.push(c)
}

/// A `String` holding `v[from..to]`.
pub fn string_of(v: &Vec<char>, from: usize, to: usize) -> (r: String)
    requires
        from <= to <= v@.len(),
    ensures
        r@ == v@.subrange(from as int, to as int),
{
    let mut out = String::new();
    let mut i: usize = from;
    while i < to
        invariant
            from <= i <= to <= v@.len(),
            out@ == v@.subrange(from as int, i as int),
        decreases to - i,
    {
        push_char(&mut out, v[i]);
        i = i + 1;
        assert(out@ =~= v@.subrange(from as int, i as int));
    }
    out
}

/// The whitespace that separates the fields of a line: the characters of
/// Unicode's White_Space property, as `char::is_whitespace` knows them.
pub open spec fn is_space(c: char) -> bool {
    ('\t' <= c && c <= '\r') || c == ' ' || c == '\u{85}' || c == '\u{A0}' || c == '\u{1680}'
        || ('\u{2000}' <= c && c <= '\u{200A}') || c == '\u{2028}' || c == '\u{2029}' || c
        == '\u{202F}' || c == '\u{205F}' || c == '\u{3000}'
}

pub fn space(c: char) -> (r: bool)
    ensures
        r == is_space(c),
{
    ('\t' <= c && c <= '\r') || c == ' ' || c == '\u{85}' || c == '\u{A0}' || c == '\u{1680}'
        || ('\u{2000}' <= c && c <= '\u{200A}') || c == '\u{2028}' || c == '\u{2029}' || c
        == '\u{202F}' || c == '\u{205F}' || c == '\u{3000}'
}

/// Splits the rest of a line, `s`, into words; `words` are the words already
/// found and `cur` the word being read.
pub open spec fn split_from(s: Seq<char>, words: Seq<Seq<char>>, cur: Seq<char>) -> Seq<Seq<char>>
    decreases s.len(),
{
    if s.len() == 0 {
        if cur.len() > 0 {
            words.push(cur)
        } else {
            words
        }
    } else if is_space(s[0]) {
        split_from(
            s.drop_first(),
            if cur.len() > 0 {
                words.push(cur)
            } else {
                words
            },
            Seq::empty(),
        )
    } else {
        split_from(s.drop_first(), words, cur.push(s[0]))
    }
}

/// The maximal runs of non-whitespace characters of `s`, in order.
pub open spec fn words_of(s: Seq<char>) -> Seq<Seq<char>> {
    split_from(s, Seq::empty(), Seq::empty())
}

/// A word of a line, as the positions where it starts and ends.
#[derive(Clone, Copy, Debug)]
pub struct Span {
    pub start: usize,
    pub end: usize,
}

/// The words of `s`, as spans into it.
pub fn split_words(s: &Vec<char>) -> (r: Vec<Span>)
    ensures
        r@.len() == words_of(s@).len(),
        forall|i: int| 0 <= i < r@.len() ==> (#[trigger] r@[i]).start <= r@[i].end <= s@.len(),
        forall|i: int|
            0 <= i < r@.len() ==> s@.subrange(r@[i].start as int, r@[i].end as int)
                == #[trigger] words_of(s@)[i],
{
    let mut spans: Vec<Span> = Vec::new();
    let ghost mut words: Seq<Seq<char>> = Seq::empty();
    let mut start: usize = 0;
    let mut i: usize = 0;
    assert(s@.subrange(0, s@.len() as int) =~= s@);
    assert(s@.subrange(0, 0) =~= Seq::<char>::empty());
    while i < s.len()
        invariant
            start <= i <= s@.len(),
            spans@.len() == words.len(),
            forall|k: int|
                0 <= k < spans@.len() ==> (#[trigger] spans@[k]).start <= spans@[k].end <= s@.len(),
            forall|k: int|
                0 <= k < spans@.len() ==> s@.subrange(spans@[k].start as int, spans@[k].end as int)
                    == #[trigger] words[k],
            words_of(s@) == split_from(
                s@.subrange(i as int, s@.len() as int),
                words,
                s@.subrange(start as int, i as int),
            ),
        decreases s@.len() - i,
    {
        let ghost rest = s@.subrange(i as int, s@.len() as int);
        assert(rest.drop_first() =~= s@.subrange(i + 1, s@.len() as int));
        let ghost old_spans = spans;
        let ghost old_words = words;
        if space(s[i]) {
            if start < i {
                spans.push(Span { start, end: i });
                proof {
                    words = words.push(s@.subrange(start as int, i as int));
                }
                assert forall|k: int| 0 <= k < spans@.len() implies (#[trigger] spans@[k]).start
                    <= spans@[k].end <= s@.len() && s@.subrange(
                    spans@[k].start as int,
                    spans@[k].end as int,
                ) == words[k] by {
                    if k < spans@.len() - 1 {
                        assert(spans@[k] == old_spans@[k]);
                        assert(words[k] == old_words[k]);
                    } else {
                        assert(spans@[k] == Span { start, end: i });
                    }
                }
            }
            i = i + 1;
            start = i;
            assert(s@.subrange(start as int, i as int) =~= Seq::<char>::empty());
        } else {
            assert(s@.subrange(start as int, i + 1) =~= s@.subrange(start as int, i as int).push(
                s@[i as int],
            ));
            i = i + 1;
        }
    }
    assert(s@.subrange(i as int, s@.len() as int) =~= Seq::<char>::empty());
    let ghost old_spans = spans;
    let ghost old_words = words;
    if start < i {
        spans.push(Span { start, end: i });
        proof {
            words = words.push(s@.subrange(start as int, i as int));
        }
        assert forall|k: int| 0 <= k < spans@.len() implies (#[trigger] spans@[k]).start
            <= spans@[k].end <= s@.len() && s@.subrange(spans@[k].start as int, spans@[k].end as int)
            == words[k] by {
            if k < spans@.len() - 1 {
                assert(spans@[k] == old_spans@[k]);
                assert(words[k] == old_words[k]);
            } else {
                assert(spans@[k] == Span { start, end: i });
            }
        }
    }
    assert(words_of(s@) == words);
    spans
}

} // verus!
