//! Strings as sequences of characters: taking them apart and putting them
//! together.

use itertools::Itertools;
use vstd::prelude::*;
use vstd::string::*;

verus! {

/// The parts in order, with `sep` between each two neighbours.
pub open spec fn joined(parts: Seq<Seq<char>>, sep: Seq<char>) -> Seq<char>
    decreases parts.len(),
{
    if parts.len() == 0 {
        Seq::empty()
    } else if parts.len() == 1 {
        parts[0]
    } else {
        joined(parts.drop_last(), sep) + sep + parts.last()
    }
}

/// The pieces of `text` between occurrences of `sep`: a separator closes a
/// piece and opens the next, any other character extends the last piece. A
/// text without separator is one piece; the empty text is one empty piece.
pub open spec fn pieces(text: Seq<char>, sep: char) -> Seq<Seq<char>>
    decreases text.len(),
{
    if text.len() == 0 {
        seq![Seq::empty()]
    } else {
        let before = pieces(text.drop_last(), sep);
        if text.last() == sep {
            before.push(Seq::empty())
        } else {
            before.drop_last().push(before.last().push(text.last()))
        }
    }
}

/// There is always at least one piece.
pub proof fn lemma_pieces_nonempty(text: Seq<char>, sep: char)
    ensures
        pieces(text, sep).len() >= 1,
    decreases text.len(),
{
    if text.len() > 0 {
        lemma_pieces_nonempty(text.drop_last(), sep);
    }
}

/// Taking a text apart loses nothing: the pieces, joined by the separator,
/// are the text again, and no piece holds the separator.
pub proof fn law_pieces_join_back(text: Seq<char>, sep: char)
    ensures
        joined(pieces(text, sep), seq![sep]) == text,
        forall|i: int| 0 <= i < pieces(text, sep).len() ==> !(#[trigger] pieces(text, sep)[i]).contains(sep),
    decreases text.len(),
{
    if text.len() == 0 {
        assert(joined(pieces(text, sep), seq![sep]) =~= text);
    } else {
        let init = text.drop_last();
        let before = pieces(init, sep);
        let all = pieces(text, sep);
        law_pieces_join_back(init, sep);
        lemma_pieces_nonempty(init, sep);
        if text.last() == sep {
            assert(all.drop_last() =~= before);
            assert(joined(all, seq![sep]) =~= joined(before, seq![sep]) + seq![sep] + Seq::<char>::empty());
            assert(joined(all, seq![sep]) =~= init.push(sep));
            assert(init.push(sep) =~= text);
            assert forall|i: int| 0 <= i < all.len() implies !(#[trigger] all[i]).contains(sep) by {
                if i < before.len() {
                    assert(all[i] == before[i]);
                }
            }
        } else {
            let open = before.last().push(text.last());
            assert(all.drop_last() =~= before.drop_last());
            assert(all.last() == open);
            if before.len() == 1 {
                assert(joined(before, seq![sep]) == before[0]);
                assert(joined(all, seq![sep]) =~= init.push(text.last()));
            } else {
                assert(joined(before, seq![sep]) == joined(before.drop_last(), seq![sep]) + seq![sep]
                    + before.last());
                assert(joined(all, seq![sep]) =~= joined(before.drop_last(), seq![sep]) + seq![sep]
                    + open);
                assert(joined(all, seq![sep]) =~= init.push(text.last()));
            }
            assert(init.push(text.last()) =~= text);
            assert forall|i: int| 0 <= i < all.len() implies !(#[trigger] all[i]).contains(sep) by {
                if i < all.len() - 1 {
                    assert(all[i] == before[i]);
                } else {
                    assert(!before[before.len() - 1].contains(sep));
                    if open.contains(sep) {
                        let j = choose|j: int| 0 <= j < open.len() && open[j] == sep;
                        assert(before.last()[j] == sep);
                    }
                }
            }
        }
    }
}

/// The characters of a string.
pub fn chars_of(text: &str) -> (chars: Vec<char>)
    ensures
        chars@ == text@,
{
    let mut chars: Vec<char> = Vec::new();
    for c in it: text.chars()
        invariant
            it.seq() == text@,
            chars@ == it.seq().take(it.index() as int),
    {
        chars.push(c);
    }
    chars
}

/// `String::from_iter` on the characters of a vector: the string that holds
/// exactly these characters, in this order.
#[verifier::external_body]
pub(crate) fn text_of(chars: Vec<char>) -> (text: String)
    ensures
        text@ == chars@,
{
    String::from_iter(chars)
}

/// `Itertools::format`, written out into a string: the parts in order, with
/// `sep` between each two neighbours, and nothing before the first or after
/// the last.
#[verifier::external_body]
pub(crate) fn join_with(parts: &Vec<String>, sep: &str) -> (text: String)
    ensures
        text@ == joined(parts.deep_view(), sep@),
{
    format!("{}", parts.iter().format(sep))
}

/// Whether two vectors hold the same characters.
pub fn same_chars(a: &Vec<char>, b: &Vec<char>) -> (same: bool)
    ensures
        same == (a@ == b@),
{
    if a.len() != b.len() {
        return false;
    }
    let mut i: usize = 0;
    while i < a.len()
        invariant
            i <= a.len(),
            a.len() == b.len(),
            forall|j: int| 0 <= j < i ==> a@[j] == b@[j],
        decreases a.len() - i,
    {
        if a[i] != b[i] {
            return false;
        }
        i += 1;
    }
    assert(a@ =~= b@);
    true
}

/// Whether two strings hold the same characters.
pub fn same_text(a: &str, b: &str) -> (same: bool)
    ensures
        same == (a@ == b@),
{
    String::from_str(a) == String::from_str(b)
}

/// Whether `text` holds the character `c`.
pub fn has_char(text: &str, c: char) -> (found: bool)
    ensures
        found == text@.contains(c),
{
    let mut found = false;
    for x in it: text.chars()
        invariant
            it.seq() == text@,
            found == it.seq().take(it.index() as int).contains(c),
    {
        let ghost before = it.seq().take(it.index() as int);
        proof {
            assert(it.seq().take(it.index() + 1) =~= before.push(x));
            if before.contains(c) {
                let i = choose|i: int| 0 <= i < before.len() && before[i] == c;
                assert(before.push(x)[i] == c);
            }
            if x == c {
                assert(before.push(x)[before.len() as int] == c);
            }
        }
        if x == c {
            found = true;
        }
    }
    assert(text@.take(text@.len() as int) =~= text@);
    found
}

} // verus!
