//! Text that the fixtures are made of: decimal numerals, hyphenated words,
//! separated lists.

use vstd::prelude::*;

verus! {

/// `String::push` of std: the character is appended, nothing else changes.
pub assume_specification[ String::push ](text: &mut String, c: char)
    ensures
        final(text)@ == old(text)@.push(c),
;

/// What `str::to_lowercase` of std returns for a text: its lowercase form under
/// the Unicode case mapping, which depends on the text alone.
pub uninterp spec fn lowercase(text: Seq<char>) -> Seq<char>;

/// `str::to_lowercase` of std: the result is the lowercase form of the text.
pub assume_specification[ str::to_lowercase ](text: &str) -> (lower: String)
    ensures
        lower@ == lowercase(text@),
;

/// The character that writes the digit `d`.
pub open spec fn digit(d: nat) -> char
    recommends
        d < 10,
{
    (48 + d) as char
}

/// The decimal numeral of `n`, without sign and without leading zeros.
pub open spec fn decimal(n: nat) -> Seq<char>
    decreases n,
{
    if n < 10 {
        seq![digit(n)]
    } else {
        decimal(n / 10).push(digit(n % 10))
    }
}

fn digit_char(d: u64) -> (c: char)
    requires
        d < 10,
    ensures
        c == digit(d as nat),
{
    let code: u8 = 48 + d as u8;
    code as char
}

/// Appends the decimal numeral of `n` to `out`.
pub fn push_decimal(n: u64, out: &mut String)
    ensures
        final(out)@ == old(out)@ + decimal(n as nat),
    decreases n,
{
    if n >= 10 {
        push_decimal(n / 10, out);
    }
    out.push(digit_char(n % 10));
}

/// The decimal numeral of `n` as a string.
pub fn decimal_string(n: u64) -> (text: String)
    ensures
        text@ == decimal(n as nat),
{
    let mut text = String::new();
    push_decimal(n, &mut text);
    text
}

/// `text` with every space replaced by a hyphen.
pub open spec fn hyphenated(text: Seq<char>) -> Seq<char> {
    text.map_values(|c: char| if c == ' ' { '-' } else { c })
}

/// A hyphenated text has the length of the text and no space.
pub proof fn lemma_hyphenated_has_no_space(text: Seq<char>)
    ensures
        hyphenated(text).len() == text.len(),
        !hyphenated(text).contains(' '),
{
}

/// Replaces every space of `text` by a hyphen.
pub fn replace_spaces(text: &str) -> (out: String)
    ensures
        out@ == hyphenated(text@),
{
    let mut out = String::new();
    for c in it: text.chars()
        invariant
            it.seq() == text@,
            out@ == hyphenated(text@.take(it.index() as int)),
    {
        out.push(if c == ' ' { '-' } else { c });
    }
    out
}

/// The texts that a vector of strings holds, in order.
pub open spec fn texts(strings: Seq<String>) -> Seq<Seq<char>> {
    Seq::new(strings.len(), |i: int| strings[i]@)
}

/// The pieces written one after the other with `sep` between neighbours.
pub open spec fn joined(pieces: Seq<Seq<char>>, sep: char) -> Seq<char>
    decreases pieces.len(),
{
    if pieces.len() == 0 {
        Seq::empty()
    } else if pieces.len() == 1 {
        pieces[0]
    } else {
        joined(pieces.drop_last(), sep).push(sep) + pieces.last()
    }
}

/// `pieces` is `text` cut at every occurrence of `sep`: joining the pieces gives
/// the text back and no piece holds a separator. A text without separator is
/// its own single piece; the empty text is one empty piece.
pub open spec fn is_split(pieces: Seq<Seq<char>>, text: Seq<char>, sep: char) -> bool {
    &&& pieces.len() >= 1
    &&& joined(pieces, sep) == text
    &&& forall|i: int| 0 <= i < pieces.len() ==> !(#[trigger] pieces[i]).contains(sep)
}

/// Appending a character to the last piece appends it to the joined text.
proof fn lemma_joined_grow_last(pieces: Seq<Seq<char>>, sep: char, c: char)
    requires
        pieces.len() >= 1,
    ensures
        joined(pieces.drop_last().push(pieces.last().push(c)), sep) == joined(pieces, sep).push(c),
{
    let grown = pieces.drop_last().push(pieces.last().push(c));
    assert(grown.drop_last() =~= pieces.drop_last());
    if pieces.len() > 1 {
        assert(joined(grown, sep) =~= joined(pieces, sep).push(c));
    }
}

/// Where two texts without separator follow a separator at the end of one
/// text, they are the same piece, and so is what stands before them.
proof fn lemma_last_piece_is_unique(
    head: Seq<char>,
    last: Seq<char>,
    other_head: Seq<char>,
    other_last: Seq<char>,
    sep: char,
)
    requires
        head.push(sep) + last == other_head.push(sep) + other_last,
        !last.contains(sep),
        !other_last.contains(sep),
    ensures
        head == other_head,
        last == other_last,
{
    let text = head.push(sep) + last;
    let other = other_head.push(sep) + other_last;
    assert(text.len() == head.len() + 1 + last.len());
    assert(other.len() == other_head.len() + 1 + other_last.len());
    if last.len() < other_last.len() {
        // the separator that follows `head` would stand inside `other_last`
        let at = head.len() as int;
        let inside = at - other_head.len() - 1;
        assert(0 <= inside < other_last.len());
        assert(text[at] == head.push(sep)[at]);
        assert(other[at] == other_last[inside]);
        assert(other_last[inside] == sep);
        assert(other_last.contains(sep));
    }
    if other_last.len() < last.len() {
        // the separator that follows `other_head` would stand inside `last`
        let at = other_head.len() as int;
        let inside = at - head.len() - 1;
        assert(0 <= inside < last.len());
        assert(other[at] == other_head.push(sep)[at]);
        assert(text[at] == last[inside]);
        assert(last[inside] == sep);
        assert(last.contains(sep));
    }
    assert(last.len() == other_last.len());
    assert(head.len() == other_head.len());
    assert forall|i: int| 0 <= i < head.len() implies head[i] == other_head[i] by {
        assert(text[i] == head.push(sep)[i]);
        assert(other[i] == other_head.push(sep)[i]);
    }
    assert(head =~= other_head);
    assert forall|i: int| 0 <= i < last.len() implies last[i] == other_last[i] by {
        assert(text[head.len() + 1 + i] == last[i]);
        assert(other[other_head.len() + 1 + i] == other_last[i]);
    }
    assert(last =~= other_last);
}

/// A text is cut at its separators in one way only.
pub proof fn lemma_split_is_unique(
    pieces: Seq<Seq<char>>,
    others: Seq<Seq<char>>,
    text: Seq<char>,
    sep: char,
)
    requires
        is_split(pieces, text, sep),
        is_split(others, text, sep),
    ensures
        pieces == others,
    decreases pieces.len(),
{
    if pieces.len() == 1 && others.len() == 1 {
        assert(pieces =~= others);
    } else if pieces.len() == 1 {
        let at = joined(others.drop_last(), sep).len() as int;
        assert(text[at] == sep);
        assert(pieces[0].contains(sep));
    } else if others.len() == 1 {
        let at = joined(pieces.drop_last(), sep).len() as int;
        assert(text[at] == sep);
        assert(others[0].contains(sep));
    } else {
        let head = joined(pieces.drop_last(), sep);
        let other_head = joined(others.drop_last(), sep);
        lemma_last_piece_is_unique(head, pieces.last(), other_head, others.last(), sep);
        assert(is_split(pieces.drop_last(), head, sep));
        assert(is_split(others.drop_last(), head, sep));
        lemma_split_is_unique(pieces.drop_last(), others.drop_last(), head, sep);
        assert(pieces =~= pieces.drop_last().push(pieces.last()));
        assert(others =~= others.drop_last().push(others.last()));
    }
}

/// Cuts `text` at every occurrence of `sep`.
pub fn split(text: &str, sep: char) -> (pieces: Vec<String>)
    ensures
        is_split(texts(pieces@), text@, sep),
{
    let mut pieces: Vec<String> = Vec::new();
    let mut current = String::new();
    for c in it: text.chars()
        invariant
            it.seq() == text@,
            joined(texts(pieces@).push(current@), sep) == text@.take(it.index() as int),
            forall|i: int| 0 <= i < pieces.len() ==> !(#[trigger] texts(pieces@)[i]).contains(sep),
            !current@.contains(sep),
    {
        let ghost before = texts(pieces@).push(current@);
        if c == sep {
            pieces.push(current);
            current = String::new();
            proof {
                assert(texts(pieces@) =~= before);
                assert(texts(pieces@).push(current@).drop_last() =~= before);
                assert(text@.take(it.index() + 1) =~= text@.take(it.index() as int).push(sep));
                assert(joined(before, sep).push(sep) + Seq::<char>::empty() =~= joined(before, sep).push(sep));
            }
        } else {
            current.push(c);
            proof {
                lemma_joined_grow_last(before, sep, c);
                assert(texts(pieces@).push(current@) =~= before.drop_last().push(before.last().push(c)));
                assert(text@.take(it.index() + 1) =~= text@.take(it.index() as int).push(c));
            }
        }
    }
    proof {
        assert(text@.take(text@.len() as int) =~= text@);
    }
    let ghost before = texts(pieces@).push(current@);
    pieces.push(current);
    proof {
        assert(texts(pieces@) =~= before);
    }
    pieces
}

} // verus!
