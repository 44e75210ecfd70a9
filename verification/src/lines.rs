//! Counting the lines of a text.

use crate::text;
use vstd::prelude::*;

verus! {

/// The number of line breaks in `text`.
pub open spec fn line_breaks(text: Seq<char>) -> nat
    decreases text.len(),
{
    if text.len() == 0 {
        0
    } else if text.last() == '\n' {
        line_breaks(text.drop_last()) + 1
    } else {
        line_breaks(text.drop_last())
    }
}

/// The number of lines of `text`, where a line break ends a line and what follows the last one
/// is a line if there is anything.
pub open spec fn line_count(text: Seq<char>) -> nat {
    if text.len() == 0 || text.last() == '\n' {
        line_breaks(text)
    } else {
        line_breaks(text) + 1
    }
}

/// The number of line breaks in all of `lines`.
pub open spec fn total_line_breaks(lines: Seq<Seq<char>>) -> nat
    decreases lines.len(),
{
    if lines.len() == 0 {
        0
    } else {
        total_line_breaks(lines.drop_last()) + line_breaks(lines.last())
    }
}

/// The line breaks of two texts in a row are those of the one and those of the other.
pub proof fn lemma_line_breaks_concat(first: Seq<char>, second: Seq<char>)
    ensures
        line_breaks(first + second) == line_breaks(first) + line_breaks(second),
    decreases second.len(),
{
    if second.len() == 0 {
        assert(first + second =~= first);
    } else {
        assert((first + second).drop_last() =~= first + second.drop_last());
        lemma_line_breaks_concat(first, second.drop_last());
    }
}

/// A text without a line break in it counts none.
pub proof fn lemma_no_line_breaks(text: Seq<char>)
    requires
        !text.contains('\n'),
    ensures
        line_breaks(text) == 0,
    decreases text.len(),
{
    if text.len() > 0 {
        let shorter = text.drop_last();
        assert(text[text.len() - 1] == text.last());
        assert(forall|i: int| 0 <= i < shorter.len() ==> shorter[i] == #[trigger] text[i]);
        lemma_no_line_breaks(shorter);
    }
}

/// Lines without a line break in any of them count none.
pub proof fn lemma_no_total_line_breaks(lines: Seq<Seq<char>>)
    requires
        forall|i: int| 0 <= i < lines.len() ==> !(#[trigger] lines[i]).contains('\n'),
    ensures
        total_line_breaks(lines) == 0,
    decreases lines.len(),
{
    if lines.len() > 0 {
        lemma_no_total_line_breaks(lines.drop_last());
        assert(lines[lines.len() - 1] == lines.last());
        lemma_no_line_breaks(lines.last());
    }
}

/// A line break counts as one.
pub proof fn lemma_single_line_break()
    ensures
        line_breaks(seq!['\n']) == 1,
{
    reveal_with_fuel(line_breaks, 2);
}

/// Joining lines adds a line break between each two of them, and no other.
pub proof fn lemma_joined_line_breaks(lines: Seq<Seq<char>>)
    requires
        lines.len() > 0,
    ensures
        line_breaks(text::joined(lines)) == total_line_breaks(lines) + (lines.len() - 1),
    decreases lines.len(),
{
    if lines.len() == 1 {
        reveal_with_fuel(total_line_breaks, 2);
    } else {
        let before = text::joined(lines.drop_last());
        lemma_joined_line_breaks(lines.drop_last());
        lemma_line_breaks_concat(before, seq!['\n']);
        lemma_line_breaks_concat(before + seq!['\n'], lines.last());
        lemma_single_line_break();
    }
}

/// Truncating adds no line break.
pub proof fn lemma_truncated_line_breaks(whole: Seq<char>, limit: nat)
    ensures
        line_breaks(text::truncated(whole, limit)) <= line_breaks(whole),
{
    let mark = text::TRUNCATION_SUFFIX@;
    reveal_strlit("...[truncated]");
    if text::utf8_len(whole) <= limit {
    } else if limit <= mark.len() {
        lemma_no_line_breaks(mark.take(limit as int));
    } else {
        let kept_limit = (limit - mark.len()) as nat;
        let kept = text::longest_prefix(whole, kept_limit);
        text::lemma_longest_prefix(whole, kept_limit);
        lemma_line_breaks_concat(kept, mark);
        lemma_no_line_breaks(mark);
        assert(whole =~= kept + whole.skip(kept.len() as int));
        lemma_line_breaks_concat(kept, whole.skip(kept.len() as int));
    }
}

} // verus!
