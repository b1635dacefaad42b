//! Properties of the store operations, stated over the models that their
//! contracts use.
use vstd::prelude::*;

use crate::text::{agrees, is_blank, is_refusal_text, is_white_space, trim_of};
use crate::todo::{after_clear, with_entry};

verus! {

/// `t` stands in `list` at exactly one position.
pub open spec fn occurs_once(list: Seq<Seq<char>>, t: Seq<char>) -> bool {
    exists|i: int|
        0 <= i < list.len() && #[trigger] list[i] == t && forall|j: int|
            0 <= j < list.len() && #[trigger] list[j] == t ==> j == i
}

/// Offering the same text twice to a list without repeated entries leaves
/// its trimmed form in the list exactly once: the second offer changes
/// nothing.
pub proof fn lemma_offer_twice(list: Seq<Seq<char>>, text: Seq<char>)
    requires
        list.no_duplicates(),
        !is_blank(text),
    ensures
        with_entry(with_entry(list, text), text) == with_entry(list, text),
        occurs_once(with_entry(with_entry(list, text), text), trim_of(text)),
{
    let t = trim_of(text);
    let once = with_entry(list, text);
    if !list.contains(t) {
        assert(once[list.len() as int] == t);
    }
    assert(once.contains(t));
    let i = choose|i: int| 0 <= i < once.len() && once[i] == t;
    assert(once.no_duplicates()) by {
        if !list.contains(t) {
            assert forall|a: int, b: int| 0 <= a < b < once.len() implies once[a] != once[b] by {
                if b == list.len() {
                    assert(list[a] == once[a]);
                }
            }
        }
    }
    assert(once[i] == t);
}

/// Offering a blank text, empty or white space only, leaves a list as it is.
pub proof fn lemma_blank_ignored(list: Seq<Seq<char>>, text: Seq<char>)
    requires
        is_blank(text),
    ensures
        with_entry(list, text) == list,
{
}

/// Clearing a list keeps it whole when the answer is `n` or `N`, and empties
/// it on any other answer, an empty one included.
pub proof fn lemma_clear_answer(list: Seq<Seq<char>>, answer: Seq<char>)
    ensures
        is_refusal_text(trim_of(answer)) ==> after_clear(list, answer) == list,
        !is_refusal_text(trim_of(answer)) ==> after_clear(list, answer).len() == 0,
{
}

/// A trimmed text is empty or has no white space at either end.
pub proof fn lemma_trim_ends(s: Seq<char>)
    ensures
        trim_of(s).len() == 0 || (!is_white_space(trim_of(s)[0]) && !is_white_space(
            trim_of(s).last(),
        )),
    decreases s.len(),
{
    if s.len() > 0 && is_white_space(s[0]) {
        lemma_trim_ends(s.drop_first());
    } else if s.len() > 0 && is_white_space(s.last()) {
        lemma_trim_ends(s.drop_last());
    }
}

/// Trimming a text twice gives what trimming it once gives.
pub proof fn lemma_trim_twice(s: Seq<char>)
    ensures
        trim_of(trim_of(s)) == trim_of(s),
{
    lemma_trim_ends(s);
}

/// White space around a text that neither starts nor ends with white space
/// is all that trimming removes.
pub proof fn lemma_trim_padded(before: Seq<char>, core: Seq<char>, after: Seq<char>)
    requires
        forall|i: int| 0 <= i < before.len() ==> is_white_space(#[trigger] before[i]),
        forall|i: int| 0 <= i < after.len() ==> is_white_space(#[trigger] after[i]),
        core.len() > 0,
        !is_white_space(core[0]),
        !is_white_space(core.last()),
    ensures
        trim_of(before + core + after) == core,
    decreases before.len() + after.len(),
{
    let s = before + core + after;
    if before.len() > 0 {
        assert(s[0] == before[0]);
        assert(s.drop_first() =~= before.drop_first() + core + after);
        lemma_trim_padded(before.drop_first(), core, after);
    } else if after.len() > 0 {
        assert(s[0] == core[0]);
        assert(s.last() == after.last());
        assert(s.drop_last() =~= before + core + after.drop_last());
        lemma_trim_padded(before, core, after.drop_last());
    } else {
        assert(s =~= core);
    }
}

/// An answer that is `n` or `N` with only white space around it, a line
/// break after it for one, refuses: the list is kept whole.
pub proof fn lemma_padded_refusal(
    list: Seq<Seq<char>>,
    before: Seq<char>,
    c: char,
    after: Seq<char>,
)
    requires
        c == 'n' || c == 'N',
        forall|i: int| 0 <= i < before.len() ==> is_white_space(#[trigger] before[i]),
        forall|i: int| 0 <= i < after.len() ==> is_white_space(#[trigger] after[i]),
    ensures
        !agrees(before + seq![c] + after),
        after_clear(list, before + seq![c] + after) == list,
{
    lemma_trim_padded(before, seq![c], after);
}

} // verus!
