//! Slugs: the part of an output file's name that is derived from a title.

use crate::text::{alphanumeric, lowercase};
use vstd::prelude::*;

verus! {

/// The character that joins the words of a slug.
pub open spec fn separator() -> char {
    '-'
}

/// What becomes of one character of a title: letters and digits stay,
/// everything else turns into the separator.
pub open spec fn masked(c: char) -> char {
    if alphanumeric(c) {
        c
    } else {
        separator()
    }
}

/// A text with every character that is no letter or digit replaced by the
/// separator.
pub open spec fn mask(text: Seq<char>) -> Seq<char> {
    text.map_values(|c: char| masked(c))
}

/// The pieces of `text` between separators, empty pieces included. A text
/// with `k` separators has `k + 1` pieces.
pub open spec fn split(text: Seq<char>) -> Seq<Seq<char>>
    decreases text.len(),
{
    if text.len() == 0 {
        seq![Seq::<char>::empty()]
    } else {
        let before = split(text.drop_last());
        if text.last() == separator() {
            before.push(Seq::<char>::empty())
        } else {
            before.drop_last().push(before.last().push(text.last()))
        }
    }
}

/// The pieces of `text` that are not empty, in order.
pub open spec fn words(text: Seq<char>) -> Seq<Seq<char>> {
    split(text).filter(|piece: Seq<char>| piece.len() > 0)
}

/// The pieces written one after another with a separator between neighbours.
pub open spec fn join(pieces: Seq<Seq<char>>) -> Seq<char>
    decreases pieces.len(),
{
    if pieces.len() == 0 {
        Seq::<char>::empty()
    } else if pieces.len() == 1 {
        pieces[0]
    } else {
        join(pieces.drop_last()).push(separator()) + pieces.last()
    }
}

/// `text` with every run of separators collapsed to one and the separators
/// at both ends removed.
pub open spec fn collapse(text: Seq<char>) -> Seq<char> {
    join(words(text))
}

/// The slug of a title: lowercase it, mask it, collapse the separators.
pub open spec fn slug_of(title: Seq<char>) -> Seq<char> {
    collapse(mask(lowercase(title)))
}

/// Whether the last piece of `text` is still open, that is, whether `text`
/// ends in a character that is no separator.
pub open spec fn in_word(text: Seq<char>) -> bool {
    text.len() > 0 && text.last() != separator()
}

/// The shape every slug has: no separator at either end and no two
/// separators in a row.
pub open spec fn well_shaped(slug: Seq<char>) -> bool {
    &&& slug.len() > 0 ==> slug.first() != separator() && slug.last() != separator()
    &&& forall|i: int|
        0 <= i < slug.len() - 1 ==> !(#[trigger] slug[i] == separator() && slug[i + 1]
            == separator())
}

/// A text always has a last piece, and that piece is empty unless the text
/// ends inside a word.
proof fn lemma_split_last(text: Seq<char>)
    ensures
        split(text).len() >= 1,
        split(text).last().len() > 0 <==> in_word(text),
    decreases text.len(),
{
    if text.len() > 0 {
        lemma_split_last(text.drop_last());
    }
}

/// Joining one more piece adds a separator and the piece, or the piece alone
/// where it is the first.
proof fn lemma_join_push(pieces: Seq<Seq<char>>, piece: Seq<char>)
    ensures
        join(pieces.push(piece)) == if pieces.len() == 0 {
            piece
        } else {
            join(pieces).push(separator()) + piece
        },
{
    assert(pieces.push(piece).drop_last() == pieces);
}

/// How the collapsed text grows when one character is added at the end.
pub proof fn lemma_collapse_push(text: Seq<char>, c: char)
    ensures
        collapse(text.push(c)) == if c == separator() {
            collapse(text)
        } else if in_word(text) {
            collapse(text).push(c)
        } else if words(text).len() == 0 {
            seq![c]
        } else {
            collapse(text).push(separator()).push(c)
        },
        words(text.push(c)).len() > 0 <==> words(text).len() > 0 || c != separator(),
{
    let keep = |piece: Seq<char>| piece.len() > 0;
    let pieces = split(text);
    let closed = pieces.drop_last();
    let open = pieces.last();
    lemma_split_last(text);
    assert(text.push(c).drop_last() == text);
    assert(pieces == closed.push(open));
    closed.lemma_filter_push(open, keep);
    if c == separator() {
        pieces.lemma_filter_push(Seq::<char>::empty(), keep);
    } else {
        closed.lemma_filter_push(open.push(c), keep);
        lemma_join_push(closed.filter(keep), open.push(c));
        if in_word(text) {
            lemma_join_push(closed.filter(keep), open);
        } else {
            assert(open.push(c) == seq![c]);
        }
    }
}

/// The empty text has no words and collapses to the empty text.
proof fn lemma_collapse_nothing()
    ensures
        words(Seq::<char>::empty()).len() == 0,
        collapse(Seq::<char>::empty()) == Seq::<char>::empty(),
{
    let keep = |piece: Seq<char>| piece.len() > 0;
    let pieces = split(Seq::<char>::empty());
    assert(pieces == Seq::<Seq<char>>::empty().push(Seq::<char>::empty()));
    Seq::<Seq<char>>::empty().lemma_filter_push(Seq::<char>::empty(), keep);
    reveal_with_fuel(Seq::filter, 1);
    assert(Seq::<Seq<char>>::empty().filter(keep).len() == 0);
}

/// A text that ends inside a word has at least that word.
proof fn lemma_open_word_counts(text: Seq<char>)
    requires
        in_word(text),
    ensures
        words(text).len() > 0,
{
    let keep = |piece: Seq<char>| piece.len() > 0;
    let pieces = split(text);
    lemma_split_last(text);
    assert(pieces == pieces.drop_last().push(pieces.last()));
    pieces.drop_last().lemma_filter_push(pieces.last(), keep);
}

/// A collapsed text is empty exactly when the text has no words.
proof fn lemma_collapse_empty(text: Seq<char>)
    ensures
        collapse(text).len() == 0 <==> words(text).len() == 0,
    decreases text.len(),
{
    if text.len() == 0 {
        lemma_collapse_nothing();
        assert(text == Seq::<char>::empty());
    } else {
        lemma_collapse_empty(text.drop_last());
        lemma_collapse_push(text.drop_last(), text.last());
        assert(text.drop_last().push(text.last()) == text);
    }
}

/// A collapsed text is well shaped, and each of its characters is the
/// separator or a character of the text.
pub proof fn lemma_collapse_shape(text: Seq<char>)
    ensures
        well_shaped(collapse(text)),
        forall|i: int|
            0 <= i < collapse(text).len() ==> #[trigger] collapse(text)[i] == separator()
                || text.contains(collapse(text)[i]),
    decreases text.len(),
{
    if text.len() == 0 {
        lemma_collapse_nothing();
        assert(text == Seq::<char>::empty());
    } else {
        let before = text.drop_last();
        let c = text.last();
        lemma_collapse_shape(before);
        lemma_collapse_empty(before);
        lemma_collapse_push(before, c);
        if in_word(before) {
            lemma_open_word_counts(before);
        }
        assert(before.push(c) == text);
        let old_slug = collapse(before);
        let new_slug = collapse(text);
        assert forall|i: int| 0 <= i < new_slug.len() implies #[trigger] new_slug[i]
            == separator() || text.contains(new_slug[i]) by {
            if i < old_slug.len() && old_slug[i] != separator() {
                let j = choose|j: int| 0 <= j < before.len() && before[j] == old_slug[i];
                assert(text[j] == old_slug[i]);
            }
        }
    }
}

/// Replaces every character of `text` that is no letter or digit by the
/// separator.
pub fn mask_text(text: &str) -> (r: String)
    ensures
        r@ == mask(text@),
{
    let mut r = String::new();
    for c in it: text.chars()
        invariant
            it.seq() == text@,
            r@ == mask(text@.take(it.index() as int)),
    {
        let ghost done = text@.take(it.index() as int);
        let m: char = if c.is_alphanumeric() {
            c
        } else {
            '-'
        };
        r.push(m);
        assert(text@.take(it.index() + 1) == done.push(c));
        assert(mask(done.push(c)) == mask(done).push(masked(c)));
    }
    assert(text@.take(text@.len() as int) == text@);
    r
}

/// Collapses every run of separators in `text` to one and drops the
/// separators at both ends.
pub fn collapse_separators(text: &str) -> (r: String)
    ensures
        r@ == collapse(text@),
{
    let mut r = String::new();
    let mut started = false;
    let mut open = false;
    proof {
        lemma_collapse_nothing();
        assert(text@.take(0) == Seq::<char>::empty());
    }
    for c in it: text.chars()
        invariant
            it.seq() == text@,
            r@ == collapse(text@.take(it.index() as int)),
            started <==> words(text@.take(it.index() as int)).len() > 0,
            open <==> in_word(text@.take(it.index() as int)),
    {
        proof {
            let done = text@.take(it.index() as int);
            lemma_collapse_push(done, c);
            assert(text@.take(it.index() + 1) == done.push(c));
        }
        if c == '-' {
            open = false;
        } else {
            if started && !open {
                r.push('-');
            }
            r.push(c);
            started = true;
            open = true;
        }
    }
    assert(text@.take(text@.len() as int) == text@);
    r
}

/// The slug of `s`: lowercase letters and digits of the title, with a single
/// separator wherever the title has anything else between them.
pub fn slugify(s: &str) -> (slug: String)
    ensures
        slug@ == slug_of(s@),
        well_shaped(slug@),
        forall|i: int|
            0 <= i < slug@.len() ==> #[trigger] slug@[i] == separator() || (alphanumeric(
                slug@[i],
            ) && lowercase(s@).contains(slug@[i])),
{
    let lowered = s.to_lowercase();
    let masked_text = mask_text(&lowered);
    let slug = collapse_separators(&masked_text);
    proof {
        lemma_slug_shape(s@);
    }
    slug
}

/// Every slug is well shaped, and each of its characters is the separator or
/// a letter or digit of the lowercased title.
pub proof fn lemma_slug_shape(title: Seq<char>)
    ensures
        well_shaped(slug_of(title)),
        forall|i: int|
            0 <= i < slug_of(title).len() ==> #[trigger] slug_of(title)[i] == separator() || (
            alphanumeric(slug_of(title)[i]) && lowercase(title).contains(slug_of(title)[i])),
{
    let lowered = lowercase(title);
    let slug = slug_of(title);
    lemma_collapse_shape(mask(lowered));
    assert forall|i: int| 0 <= i < slug.len() implies #[trigger] slug[i] == separator() || (
    alphanumeric(slug[i]) && lowered.contains(slug[i])) by {
        if slug[i] != separator() {
            let j = choose|j: int| 0 <= j < mask(lowered).len() && mask(lowered)[j] == slug[i];
            assert(mask(lowered)[j] == masked(lowered[j]));
            assert(lowered[j] == slug[i]);
        }
    }
}

/// A text of separators only collapses to the empty text.
proof fn lemma_collapse_separators(text: Seq<char>)
    requires
        forall|i: int| 0 <= i < text.len() ==> text[i] == separator(),
    ensures
        words(text).len() == 0,
        collapse(text) == Seq::<char>::empty(),
    decreases text.len(),
{
    if text.len() == 0 {
        lemma_collapse_nothing();
        assert(text == Seq::<char>::empty());
    } else {
        lemma_collapse_separators(text.drop_last());
        lemma_collapse_push(text.drop_last(), text.last());
        assert(text.drop_last().push(text.last()) == text);
    }
}

/// A title whose lowercase form has no letter and no digit has the empty
/// slug.
pub proof fn lemma_slug_of_punctuation(title: Seq<char>)
    requires
        forall|i: int|
            0 <= i < lowercase(title).len() ==> !alphanumeric(#[trigger] lowercase(title)[i]),
    ensures
        slug_of(title) == Seq::<char>::empty(),
{
    lemma_collapse_separators(mask(lowercase(title)));
}

/// Titles that are equal byte for byte have equal slugs.
pub proof fn lemma_slug_deterministic(a: Seq<char>, b: Seq<char>)
    requires
        vstd::utf8::encode_utf8(a) == vstd::utf8::encode_utf8(b),
    ensures
        slug_of(a) == slug_of(b),
{
    vstd::utf8::encode_utf8_decode_utf8(a);
    vstd::utf8::encode_utf8_decode_utf8(b);
}

} // verus!
