//! Splitting of text at delimiter characters.

use vstd::prelude::*;
use vstd::std_specs::iter::IteratorSpec;

verus! {

/// The characters at which a text is cut.
#[derive(Clone, Copy, Debug, PartialEq, Eq)]
pub enum Delimiter {
    /// Exactly this character.
    Char(char),
    /// Any character with the Unicode property `White_Space`.
    Whitespace,
}

/// Whether `c` has the Unicode property `White_Space`: the controls U+0009
/// to U+000D and U+0085, and the spaces U+0020, U+00A0, U+1680, U+2000 to
/// U+200A, U+2028, U+2029, U+202F, U+205F and U+3000.
pub open spec fn is_whitespace(c: char) -> bool {
    ||| '\u{9}' <= c <= '\u{D}'
    ||| c == ' '
    ||| c == '\u{85}'
    ||| c == '\u{A0}'
    ||| c == '\u{1680}'
    ||| '\u{2000}' <= c <= '\u{200A}'
    ||| c == '\u{2028}'
    ||| c == '\u{2029}'
    ||| c == '\u{202F}'
    ||| c == '\u{205F}'
    ||| c == '\u{3000}'
}

impl Delimiter {
    /// Whether `c` is one of the characters this delimiter stands for.
    pub open spec fn matches(self, c: char) -> bool {
        match self {
            Delimiter::Char(d) => c == d,
            Delimiter::Whitespace => is_whitespace(c),
        }
    }

    /// Tests a character against the delimiter.
    pub fn test(&self, c: char) -> (hit: bool)
        ensures
            hit == self.matches(c),
    {
        match self {
            Delimiter::Char(d) => c == *d,
            Delimiter::Whitespace => {
                ('\u{9}' <= c && c <= '\u{D}') || c == ' ' || c == '\u{85}' || c == '\u{A0}' || c
                    == '\u{1680}' || ('\u{2000}' <= c && c <= '\u{200A}') || c == '\u{2028}' || c
                    == '\u{2029}' || c == '\u{202F}' || c == '\u{205F}' || c == '\u{3000}'
            },
        }
    }
}

/// Position of the first delimiter in `s`, or `s.len()` where `s` holds none.
pub open spec fn first_delimiter(s: Seq<char>, d: Delimiter) -> nat
    decreases s.len(),
{
    if s.len() == 0 || d.matches(s[0]) {
        0
    } else {
        1 + first_delimiter(s.drop_first(), d)
    }
}

/// The pieces of `s` between its delimiters, in order. Every delimiter
/// separates two pieces, so a text with `n` delimiters has `n + 1` pieces,
/// some of which may be empty; the empty text has the one piece `""`.
pub open spec fn split(s: Seq<char>, d: Delimiter) -> Seq<Seq<char>>
    decreases s.len(),
{
    let i = first_delimiter(s, d) as int;
    if i < s.len() {
        seq![s.take(i)] + split(s.skip(i + 1), d)
    } else {
        seq![s]
    }
}

/// The number of delimiters in `s`.
pub open spec fn count_delimiters(s: Seq<char>, d: Delimiter) -> nat
    decreases s.len(),
{
    if s.len() == 0 {
        0
    } else if d.matches(s[0]) {
        1 + count_delimiters(s.drop_first(), d)
    } else {
        count_delimiters(s.drop_first(), d)
    }
}

/// Whether `piece` holds no delimiter.
pub open spec fn free_of(piece: Seq<char>, d: Delimiter) -> bool {
    forall|j: int| 0 <= j < piece.len() ==> !d.matches(#[trigger] piece[j])
}

/// The pieces put together again, with `sep` between neighbours.
pub open spec fn join(pieces: Seq<Seq<char>>, sep: char) -> Seq<char>
    decreases pieces.len(),
{
    if pieces.len() == 0 {
        Seq::empty()
    } else if pieces.len() == 1 {
        pieces[0]
    } else {
        pieces[0] + seq![sep] + join(pieces.drop_first(), sep)
    }
}

/// Finds the first delimiter of `text`, counted in characters.
pub fn find_delimiter(text: &str, d: Delimiter) -> (at: Option<usize>)
    ensures
        match at {
            Some(i) => i < text@.len() && i == first_delimiter(text@, d),
            None => first_delimiter(text@, d) == text@.len(),
        },
{
    let total = text.unicode_len();
    let mut i: usize = 0;
    let mut chars = text.chars();
    assert(text@.skip(0) == text@);
    loop
        invariant
            total == text@.len(),
            i <= total,
            chars.obeys_prophetic_iter_laws(),
            chars.remaining() == text@.skip(i as int),
            forall|j: int| 0 <= j < i ==> !d.matches(#[trigger] text@[j]),
        ensures
            i == total,
        decreases total - i,
    {
        match chars.next() {
            None => {
                break ;
            },
            Some(c) => {
                assert(c == text@[i as int]);
                if d.test(c) {
                    proof {
                        lemma_first_delimiter_at(text@, d, i as int);
                    }
                    return Some(i);
                }
                i = i + 1;
            },
        }
    }
    proof {
        lemma_first_delimiter_at(text@, d, i as int);
    }
    None
}

/// Cuts `text` at every delimiter and returns the pieces in order.
pub fn split_text(text: &str, d: Delimiter) -> (pieces: Vec<String>)
    ensures
        pieces.deep_view() == split(text@, d),
{
    let total = text.unicode_len();
    let mut pieces: Vec<String> = Vec::new();
    let mut start: usize = 0;
    let mut i: usize = 0;
    let mut chars = text.chars();
    assert(text@.skip(0) == text@);
    assert(pieces.deep_view() + split(text@, d) == split(text@, d));
    loop
        invariant
            total == text@.len(),
            start <= i <= total,
            chars.obeys_prophetic_iter_laws(),
            chars.remaining() == text@.skip(i as int),
            forall|j: int| start <= j < i ==> !d.matches(#[trigger] text@[j]),
            split(text@, d) == pieces.deep_view() + split(text@.skip(start as int), d),
        ensures
            i == total,
        decreases total - i,
    {
        match chars.next() {
            None => {
                break ;
            },
            Some(c) => {
                assert(c == text@[i as int]);
                if d.test(c) {
                    let piece = text.substring_char(start, i).to_owned();
                    proof {
                        let tail = text@.skip(start as int);
                        lemma_first_delimiter_at(tail, d, i - start);
                        assert(tail.take(i - start) == piece@);
                        assert(tail.skip(i - start + 1) == text@.skip(i + 1));
                    }
                    let ghost before = pieces.deep_view();
                    pieces.push(piece);
                    assert(pieces.deep_view() == before.push(piece@));
                    start = i + 1;
                }
                i = i + 1;
            },
        }
    }
    let piece = text.substring_char(start, i).to_owned();
    proof {
        let tail = text@.skip(start as int);
        lemma_first_delimiter_at(tail, d, i - start);
        assert(tail == piece@);
    }
    let ghost before = pieces.deep_view();
    pieces.push(piece);
    assert(pieces.deep_view() == before.push(piece@));
    pieces
}

/// `first_delimiter` stays within `s`, stands on a delimiter unless it is
/// `s.len()`, and no delimiter stands before it.
pub proof fn lemma_first_delimiter(s: Seq<char>, d: Delimiter)
    ensures
        first_delimiter(s, d) <= s.len(),
        first_delimiter(s, d) < s.len() ==> d.matches(s[first_delimiter(s, d) as int]),
        forall|j: int| 0 <= j < first_delimiter(s, d) ==> !d.matches(#[trigger] s[j]),
    decreases s.len(),
{
    if s.len() == 0 || d.matches(s[0]) {
    } else {
        let rest = s.drop_first();
        lemma_first_delimiter(rest, d);
        assert forall|j: int| 0 <= j < first_delimiter(s, d) implies !d.matches(#[trigger] s[j]) by {
            if j > 0 {
                assert(s[j] == rest[j - 1]);
            }
        }
    }
}

/// A position that no delimiter precedes, and that is the end of `s` or holds
/// a delimiter, is the first delimiter of `s`.
pub proof fn lemma_first_delimiter_at(s: Seq<char>, d: Delimiter, i: int)
    requires
        0 <= i <= s.len(),
        forall|j: int| 0 <= j < i ==> !d.matches(#[trigger] s[j]),
        i < s.len() ==> d.matches(s[i]),
    ensures
        first_delimiter(s, d) == i,
    decreases s.len(),
{
    if i == 0 {
    } else {
        let rest = s.drop_first();
        assert(!d.matches(s[0]));
        assert forall|j: int| 0 <= j < i - 1 implies !d.matches(#[trigger] rest[j]) by {
            assert(rest[j] == s[j + 1]);
        }
        lemma_first_delimiter_at(rest, d, i - 1);
    }
}

/// A split has one piece more than the text has delimiters.
pub proof fn lemma_split_count(s: Seq<char>, d: Delimiter)
    ensures
        split(s, d).len() == count_delimiters(s, d) + 1,
    decreases s.len(),
{
    if s.len() == 0 {
    } else {
        let rest = s.drop_first();
        lemma_split_count(rest, d);
        lemma_first_delimiter(rest, d);
        if d.matches(s[0]) {
            assert(s.skip(1) == rest);
        } else {
            let i = first_delimiter(s, d) as int;
            if i < s.len() {
                assert(s.skip(i + 1) == rest.skip(i));
            }
        }
    }
}

/// A split has at least one piece, and none of its pieces holds a
/// delimiter.
pub proof fn lemma_split_pieces_are_free(s: Seq<char>, d: Delimiter)
    ensures
        split(s, d).len() >= 1,
        forall|k: int| 0 <= k < split(s, d).len() ==> free_of(#[trigger] split(s, d)[k], d),
    decreases s.len(),
{
    lemma_first_delimiter(s, d);
    let i = first_delimiter(s, d) as int;
    if i < s.len() {
        let rest = split(s.skip(i + 1), d);
        lemma_split_pieces_are_free(s.skip(i + 1), d);
        assert forall|k: int| 0 <= k < split(s, d).len() implies free_of(
            #[trigger] split(s, d)[k],
            d,
        ) by {
            if k > 0 {
                assert(split(s, d)[k] == rest[k - 1]);
            }
        }
    }
}

/// Joining the pieces of a split with the separator gives the text back.
pub proof fn lemma_join_of_split(s: Seq<char>, sep: char)
    ensures
        join(split(s, Delimiter::Char(sep)), sep) == s,
    decreases s.len(),
{
    let d = Delimiter::Char(sep);
    lemma_first_delimiter(s, d);
    let i = first_delimiter(s, d) as int;
    if i < s.len() {
        let rest = s.skip(i + 1);
        lemma_join_of_split(rest, sep);
        lemma_split_pieces_are_free(rest, d);
        let pieces = split(s, d);
        assert(pieces.drop_first() == split(rest, d));
        assert(s == s.take(i) + seq![sep] + rest);
    }
}

/// Splitting a joined text gives the pieces back, where no piece holds a
/// delimiter and the separator is one. With `lemma_join_of_split`, this
/// makes splitting at a character the inverse of joining.
pub proof fn lemma_split_of_join(pieces: Seq<Seq<char>>, sep: char, d: Delimiter)
    requires
        pieces.len() >= 1,
        d.matches(sep),
        forall|k: int| 0 <= k < pieces.len() ==> free_of(#[trigger] pieces[k], d),
    ensures
        split(join(pieces, sep), d) == pieces,
    decreases pieces.len(),
{
    let text = join(pieces, sep);
    let head = pieces[0];
    assert(free_of(head, d));
    if pieces.len() == 1 {
        lemma_first_delimiter_at(text, d, text.len() as int);
    } else {
        let others = pieces.drop_first();
        assert forall|k: int| 0 <= k < others.len() implies free_of(#[trigger] others[k], d) by {
            assert(others[k] == pieces[k + 1]);
        }
        lemma_split_of_join(others, sep, d);
        lemma_first_delimiter_at(text, d, head.len() as int);
        assert(text.take(head.len() as int) == head);
        assert(text.skip(head.len() as int + 1) == join(others, sep));
        assert(split(text, d) == seq![head] + others);
    }
}

} // verus!
