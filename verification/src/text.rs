//! Splitting and comparing text.
//!
//! Text is modelled as a sequence of characters. [`split`] says what the
//! pieces of a text are, [`join`] puts pieces back together, and two laws of
//! this module say that `split` is the only way to cut a text into pieces
//! that are free of the separator. [`split_once`] cuts a text in two at the
//! first separator.

use vstd::prelude::*;
use vstd::utf8::*;

verus! {

/// The pieces of `text` that lie between the occurrences of `sep`, in order.
/// A text without `sep` is a single piece, and so is the empty text.
pub open spec fn split(text: Seq<char>, sep: char) -> Seq<Seq<char>>
    decreases text.len(),
{
    if text.len() == 0 {
        seq![Seq::empty()]
    } else {
        let before = split(text.drop_last(), sep);
        if text.last() == sep {
            before.push(Seq::empty())
        } else {
            before.drop_last().push(before.last().push(text.last()))
        }
    }
}

/// The pieces written one after the other, with `sep` between neighbours.
pub open spec fn join(pieces: Seq<Seq<char>>, sep: char) -> Seq<char>
    decreases pieces.len(),
{
    if pieces.len() == 0 {
        Seq::empty()
    } else if pieces.len() == 1 {
        pieces[0]
    } else {
        join(pieces.drop_last(), sep).push(sep) + pieces.last()
    }
}

/// No piece holds the separator.
pub open spec fn free_of(pieces: Seq<Seq<char>>, sep: char) -> bool {
    forall|i: int| 0 <= i < pieces.len() ==> !(#[trigger] pieces[i]).contains(sep)
}

/// Splitting cuts a text into at least one piece, no piece holds the
/// separator, and joining the pieces gives the text back.
pub proof fn lemma_split_joins_back(text: Seq<char>, sep: char)
    ensures
        split(text, sep).len() >= 1,
        free_of(split(text, sep), sep),
        join(split(text, sep), sep) == text,
    decreases text.len(),
{
    if text.len() != 0 {
        let shorter = text.drop_last();
        let before = split(shorter, sep);
        let pieces = split(text, sep);
        lemma_split_joins_back(shorter, sep);
        assert(shorter.push(text.last()) =~= text);
        if text.last() == sep {
            assert(pieces.drop_last() =~= before);
        } else {
            assert(pieces.drop_last() =~= before.drop_last());
            assert(!before.last().contains(sep));
            assert(free_of(pieces, sep));
            assert(join(pieces, sep) =~= join(before, sep).push(text.last()));
        }
    }
}

/// Pieces that are free of the separator are what splitting their join gives:
/// a text can be cut into such pieces in one way only.
pub proof fn lemma_split_is_unique(pieces: Seq<Seq<char>>, sep: char)
    requires
        pieces.len() >= 1,
        free_of(pieces, sep),
    ensures
        split(join(pieces, sep), sep) == pieces,
    decreases join(pieces, sep).len(),
{
    let text = join(pieces, sep);
    let tail = pieces.last();
    if tail.len() > 0 {
        // The text ends with the last character of the last piece.
        let shorter = pieces.drop_last().push(tail.drop_last());
        assert(shorter.drop_last() =~= pieces.drop_last());
        assert(text.drop_last() =~= join(shorter, sep));
        assert(!tail.drop_last().contains(sep)) by {
            if tail.drop_last().contains(sep) {
                let k = choose|k: int| 0 <= k < tail.len() - 1 && tail.drop_last()[k] == sep;
                assert(tail[k] == sep);
            }
        }
        assert(free_of(shorter, sep));
        lemma_split_is_unique(shorter, sep);
        assert(tail.contains(tail.last()));
        assert(tail.drop_last().push(tail.last()) =~= tail);
    } else if pieces.len() == 1 {
        assert(pieces[0] =~= Seq::<char>::empty());
    } else {
        // The text ends with the separator that stands before the empty last piece.
        let fewer = pieces.drop_last();
        assert(text.drop_last() =~= join(fewer, sep));
        lemma_split_is_unique(fewer, sep);
        assert(tail =~= Seq::<char>::empty());
    }
}

/// The texts as the sequence of their characters.
pub open spec fn text_views(texts: Seq<&str>) -> Seq<Seq<char>> {
    texts.map_values(|text: &str| text@)
}

/// Cuts `text` at every `sep`. The pieces borrow from `text`; each is cut out
/// with a pass over the text up to the end of the piece.
pub fn split_text<'a>(text: &'a str, sep: char) -> (pieces: Vec<&'a str>)
    ensures
        text_views(pieces@) == split(text@, sep),
{
    let total = text.unicode_len();
    let mut pieces: Vec<&'a str> = Vec::new();
    let mut start: usize = 0;
    let mut at: usize = 0;
    for c in it: text.chars()
        invariant
            total == text@.len(),
            it.seq() == text@,
            at == it.index(),
            start <= at,
            pieces@.len() + 1 == split(text@.take(at as int), sep).len(),
            forall|i: int|
                0 <= i < pieces@.len() ==> (#[trigger] pieces@[i])@ == split(
                    text@.take(at as int),
                    sep,
                )[i],
            split(text@.take(at as int), sep).last() == text@.subrange(start as int, at as int),
    {
        assert(text@.take(at as int + 1).drop_last() =~= text@.take(at as int));
        if c == sep {
            pieces.push(text.substring_char(start, at));
            start = at + 1;
        }
        at = at + 1;
    }
    assert(text@.take(total as int) =~= text@);
    pieces.push(text.substring_char(start, total));
    pieces
}

/// Whether the first `sep` of `text` stands at `at`.
pub open spec fn is_first(text: Seq<char>, sep: char, at: int) -> bool {
    0 <= at < text.len() && text[at] == sep && !text.take(at).contains(sep)
}

/// The text before the first `sep` and the text behind it; nothing where the
/// text holds no `sep`.
pub open spec fn split_once(text: Seq<char>, sep: char) -> Option<(Seq<char>, Seq<char>)> {
    if text.contains(sep) {
        let at = choose|at: int| is_first(text, sep, at);
        Some((text.take(at), text.skip(at + 1)))
    } else {
        None
    }
}

/// A text has one first separator at most.
pub proof fn lemma_first_is_unique(text: Seq<char>, sep: char, i: int, j: int)
    requires
        is_first(text, sep, i),
        is_first(text, sep, j),
    ensures
        i == j,
{
    if i < j {
        assert(text.take(j)[i] == sep);
    }
    if j < i {
        assert(text.take(i)[j] == sep);
    }
}

/// A head without the separator, the separator and any tail are cut into that
/// head and that tail, whatever the tail holds.
pub proof fn lemma_split_once_cuts(head: Seq<char>, tail: Seq<char>, sep: char)
    requires
        !head.contains(sep),
    ensures
        split_once(head.push(sep) + tail, sep) == Some((head, tail)),
{
    let text = head.push(sep) + tail;
    let at = head.len() as int;
    assert(text[at] == sep);
    assert(text.take(at) =~= head);
    assert(text.skip(at + 1) =~= tail);
    assert(is_first(text, sep, at));
    lemma_first_is_unique(text, sep, at, choose|k: int| is_first(text, sep, k));
}

/// Joining starts with the first piece: behind it come the separator and the
/// join of the other pieces.
pub proof fn lemma_join_starts_with_first(pieces: Seq<Seq<char>>, sep: char)
    requires
        pieces.len() >= 2,
    ensures
        join(pieces, sep) == pieces[0].push(sep) + join(pieces.skip(1), sep),
    decreases pieces.len(),
{
    let rest = pieces.skip(1);
    if pieces.len() == 2 {
        assert(pieces.drop_last() =~= seq![pieces[0]]);
        assert(join(pieces.drop_last(), sep) == pieces[0]);
        assert(join(rest, sep) == pieces[1]);
    } else {
        lemma_join_starts_with_first(pieces.drop_last(), sep);
        assert(pieces.drop_last().skip(1) =~= rest.drop_last());
        assert(join(pieces, sep) =~= pieces[0].push(sep) + join(rest, sep));
    }
}

/// Cutting once and splitting agree: a text of two pieces or more is cut into
/// its first piece and the join of the others, and a text of one piece is not
/// cut.
pub proof fn lemma_split_once_is_first_and_rest(text: Seq<char>, sep: char)
    ensures
        split_once(text, sep) == if split(text, sep).len() >= 2 {
            Some((split(text, sep)[0], join(split(text, sep).skip(1), sep)))
        } else {
            None
        },
{
    let pieces = split(text, sep);
    lemma_split_joins_back(text, sep);
    if pieces.len() >= 2 {
        lemma_join_starts_with_first(pieces, sep);
        lemma_split_once_cuts(pieces[0], join(pieces.skip(1), sep), sep);
    } else {
        assert(text == pieces[0]);
    }
}

/// The two texts of a cut as sequences of characters.
pub open spec fn pair_view(parts: Option<(&str, &str)>) -> Option<(Seq<char>, Seq<char>)> {
    match parts {
        Some((head, tail)) => Some((head@, tail@)),
        None => None,
    }
}

/// Cuts `text` in two at its first `sep`. The parts borrow from `text`.
pub fn split_once_text<'a>(text: &'a str, sep: char) -> (parts: Option<(&'a str, &'a str)>)
    ensures
        pair_view(parts) == split_once(text@, sep),
{
    let total = text.unicode_len();
    let mut at: usize = 0;
    for c in it: text.chars()
        invariant
            total == text@.len(),
            it.seq() == text@,
            at == it.index(),
            !text@.take(at as int).contains(sep),
    {
        if c == sep {
            proof {
                assert(is_first(text@, sep, at as int));
                lemma_first_is_unique(
                    text@,
                    sep,
                    at as int,
                    choose|k: int| is_first(text@, sep, k),
                );
                assert(text@.subrange(0, at as int) =~= text@.take(at as int));
                assert(text@.subrange(at as int + 1, total as int) =~= text@.skip(at as int + 1));
            }
            return Some((text.substring_char(0, at), text.substring_char(at + 1, total)));
        }
        assert(text@.take(at as int + 1) =~= text@.take(at as int).push(c));
        at = at + 1;
    }
    assert(text@.take(total as int) =~= text@);
    None
}

/// Whether two texts hold the same characters.
pub fn same_text(a: &str, b: &str) -> (same: bool)
    ensures
        same == (a@ == b@),
{
    let x = a.as_bytes();
    let y = b.as_bytes();
    proof {
        encode_utf8_decode_utf8(a@);
        encode_utf8_decode_utf8(b@);
    }
    if x.len() != y.len() {
        return false;
    }
    let mut i: usize = 0;
    while i < x.len()
        invariant
            x@ == encode_utf8(a@),
            y@ == encode_utf8(b@),
            x@.len() == y@.len(),
            i <= x@.len(),
            forall|j: int| 0 <= j < i ==> x@[j] == y@[j],
        decreases x@.len() - i,
    {
        if x[i] != y[i] {
            return false;
        }
        i = i + 1;
    }
    assert(x@ =~= y@);
    true
}

} // verus!
