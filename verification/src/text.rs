//! Splitting text into runs of characters: fields between whitespace, and
//! filled lines between line feeds.

use vstd::prelude::*;

verus! {

/// Whether `c` is whitespace: one of the 25 characters with the Unicode
/// property `White_Space`.
pub open spec fn is_whitespace(c: char) -> bool {
    let code = c as u32;
    ||| 0x09 <= code <= 0x0D
    ||| code == 0x20
    ||| code == 0x85
    ||| code == 0xA0
    ||| code == 0x1680
    ||| 0x2000 <= code <= 0x200A
    ||| code == 0x2028
    ||| code == 0x2029
    ||| code == 0x202F
    ||| code == 0x205F
    ||| code == 0x3000
}

/// What ends a run of characters.
#[derive(Clone, Copy, PartialEq, Eq, Structural, Debug)]
pub enum Separator {
    /// Any whitespace character.
    Whitespace,
    /// The line feed and nothing else.
    LineFeed,
}

impl Separator {
    /// Whether `c` separates two runs.
    pub open spec fn spec_separates(self, c: char) -> bool {
        match self {
            Separator::Whitespace => is_whitespace(c),
            Separator::LineFeed => c == '\n',
        }
    }

    /// Whether `c` separates two runs.
    pub fn separates(self, c: char) -> (separates: bool)
        ensures
            separates == self.spec_separates(c),
    {
        match self {
            Separator::Whitespace => {
                let code: u32 = c as u32;
                (0x09 <= code && code <= 0x0D) || code == 0x20 || code == 0x85 || code == 0xA0
                    || code == 0x1680 || (0x2000 <= code && code <= 0x200A) || code == 0x2028
                    || code == 0x2029 || code == 0x202F || code == 0x205F || code == 0x3000
            },
            Separator::LineFeed => c == '\n',
        }
    }
}

/// The runs of `text`: its longest stretches without a separator, from
/// left to right. Separators belong to no run, and no run is empty.
pub open spec fn runs(text: Seq<char>, separator: Separator) -> Seq<Seq<char>>
    decreases text.len(),
{
    if text.len() == 0 {
        Seq::empty()
    } else {
        let before = runs(text.drop_last(), separator);
        if separator.spec_separates(text.last()) {
            before
        } else if text.len() >= 2 && !separator.spec_separates(text[text.len() - 2]) {
            before.drop_last().push(before.last().push(text.last()))
        } else {
            before.push(seq![text.last()])
        }
    }
}

/// No run is empty and no run holds a separator.
pub proof fn lemma_runs_are_filled_and_clean(text: Seq<char>, separator: Separator)
    ensures
        forall|i: int|
            0 <= i < runs(text, separator).len() ==> (#[trigger] runs(text, separator)[i]).len()
                > 0,
        forall|i: int, j: int|
            0 <= i < runs(text, separator).len() && 0 <= j < runs(text, separator)[i].len()
                ==> !separator.spec_separates(#[trigger] runs(text, separator)[i][j]),
        text.len() > 0 && !separator.spec_separates(text.last()) ==> runs(text, separator).len() > 0,
    decreases text.len(),
{
    if text.len() > 0 {
        let before = runs(text.drop_last(), separator);
        let after = runs(text, separator);
        lemma_runs_are_filled_and_clean(text.drop_last(), separator);
        if !separator.spec_separates(text.last()) {
            if text.len() >= 2 && !separator.spec_separates(text[text.len() - 2]) {
                assert(text.drop_last().last() == text[text.len() - 2]);
                let grown = before.last().push(text.last());
                assert(after.len() == before.len());
                assert forall|i: int| 0 <= i < after.len() implies (#[trigger] after[i]).len()
                    > 0 by {
                    if i < after.len() - 1 {
                        assert(after[i] == before[i]);
                    } else {
                        assert(after[i] == grown);
                    }
                }
                assert forall|i: int, j: int|
                    0 <= i < after.len() && 0 <= j < after[i].len() implies !separator.spec_separates(
                    #[trigger] after[i][j],
                ) by {
                    if i < after.len() - 1 {
                        assert(after[i] == before[i]);
                    } else {
                        assert(after[i] == grown);
                        if j < grown.len() - 1 {
                            assert(grown[j] == before.last()[j]);
                        }
                    }
                }
            } else {
                assert forall|i: int| 0 <= i < after.len() implies (#[trigger] after[i]).len()
                    > 0 by {
                    if i < after.len() - 1 {
                        assert(after[i] == before[i]);
                    }
                }
                assert forall|i: int, j: int|
                    0 <= i < after.len() && 0 <= j < after[i].len() implies !separator.spec_separates(
                    #[trigger] after[i][j],
                ) by {
                    if i < after.len() - 1 {
                        assert(after[i] == before[i]);
                    }
                }
            }
        }
    }
}

/// The runs hold all characters of the text that are no separators, in
/// the order of the text, and nothing else.
pub proof fn lemma_runs_hold_all_other_characters(text: Seq<char>, separator: Separator)
    ensures
        runs(text, separator).flatten_alt() == text.filter(
            |c: char| !separator.spec_separates(c),
        ),
    decreases text.len(),
{
    reveal(Seq::filter);
    let kept = |c: char| !separator.spec_separates(c);
    if text.len() == 0 {
        assert(text.filter(kept) =~= Seq::<char>::empty());
    } else {
        let before = runs(text.drop_last(), separator);
        lemma_runs_hold_all_other_characters(text.drop_last(), separator);
        lemma_runs_are_filled_and_clean(text.drop_last(), separator);
        if !separator.spec_separates(text.last()) {
            if text.len() >= 2 && !separator.spec_separates(text[text.len() - 2]) {
                assert(text.drop_last().last() == text[text.len() - 2]);
                let grown = before.last().push(text.last());
                let after = before.drop_last().push(grown);
                assert(after.drop_last() =~= before.drop_last());
                assert(after.flatten_alt() =~= before.flatten_alt().push(text.last()));
            } else {
                let after = before.push(seq![text.last()]);
                assert(after.drop_last() =~= before);
                assert(after.flatten_alt() =~= before.flatten_alt().push(text.last()));
            }
        }
    }
}

/// A text without any separator is one run, and an empty text has none.
pub proof fn lemma_run_without_separator(text: Seq<char>, separator: Separator)
    requires
        forall|i: int| 0 <= i < text.len() ==> !separator.spec_separates(text[i]),
    ensures
        runs(text, separator) == if text.len() == 0 {
            Seq::<Seq<char>>::empty()
        } else {
            seq![text]
        },
    decreases text.len(),
{
    if text.len() > 0 {
        let before = text.drop_last();
        lemma_run_without_separator(before, separator);
        if text.len() >= 2 {
            assert(before.last() == text[text.len() - 2]);
            assert(before.push(text.last()) =~= text);
            assert(seq![before].last() == before);
            assert(seq![before].drop_last().push(text) =~= seq![text]);
        } else {
            assert(seq![text.last()] =~= text);
            assert(Seq::<Seq<char>>::empty().push(seq![text.last()]) =~= seq![text]);
        }
    }
}

/// The fields of a line: its runs between whitespace.
pub open spec fn fields(line: Seq<char>) -> Seq<Seq<char>> {
    runs(line, Separator::Whitespace)
}

/// The filled lines of a text: its runs between line feeds.
pub open spec fn filled_lines(text: Seq<char>) -> Seq<Seq<char>> {
    runs(text, Separator::LineFeed)
}

/// The runs of `text` as strings, in order.
pub fn split_runs(text: &str, separator: Separator) -> (parts: Vec<String>)
    ensures
        parts.deep_view() == runs(text@, separator),
{
    let mut parts: Vec<String> = Vec::new();
    let mut current = String::new();
    let mut in_run = false;
    let source = text.chars();
    for c in it: source
        invariant
            it.seq() == text@,
            in_run == (it.index() > 0 && !separator.spec_separates(text@[it.index() - 1])),
            in_run ==> parts.deep_view().push(current@) == runs(text@.take(it.index()), separator),
            !in_run ==> parts.deep_view() == runs(text@.take(it.index()), separator),
            !in_run ==> current@.len() == 0,
    {
        let ghost seen = text@.take(it.index());
        let ghost next = text@.take(it.index() + 1);
        let ghost done = parts.deep_view();
        assert(next.drop_last() =~= seen);
        assert(next.last() == c);
        if separator.separates(c) {
            if in_run {
                parts.push(current);
                assert(parts.deep_view() =~= done.push(current@));
                current = String::new();
                in_run = false;
            }
        } else {
            let ghost word = current@;
            current.push(c);
            if in_run {
                assert(done.push(word).drop_last() =~= done);
            } else {
                assert(current@ =~= seq![c]);
            }
            in_run = true;
        }
    }
    assert(text@.take(text@.len() as int) =~= text@);
    if in_run {
        let ghost done = parts.deep_view();
        parts.push(current);
        assert(parts.deep_view() =~= done.push(current@));
    }
    parts
}

} // verus!
