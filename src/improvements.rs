//! Notes on how a rewrite differs from the text it came from.

use vstd::prelude::*;
use vstd::string::StringExecFns;
use crate::text::{
    contains_text, count_words, has_infix, lemma_word_count_append, space_char, word_count,
};

verus! {

broadcast use vstd::string::group_string_axioms;

/// The note given when the rewrite is longer than the original.
pub open spec fn details_note() -> Seq<char> {
    "Added more details and quantified information"@
}

/// The note given when the rewrite names an improvement, optimisation or enhancement.
pub open spec fn impact_note() -> Seq<char> {
    "Strengthened impact and achievement descriptions"@
}

/// The note given when the rewrite has more words than the original.
pub open spec fn wording_note() -> Seq<char> {
    "Enriched professional expressions and terminology"@
}

/// The note given when no other note applies.
pub open spec fn fallback_note() -> Seq<char> {
    "Optimized language expressions and professionalism"@
}

/// The rewrite holds one of the words that mark a stronger phrasing.
pub open spec fn names_improvement(polished: Seq<char>) -> bool {
    has_infix(polished, "improve"@) || has_infix(polished, "optim"@) || has_infix(
        polished,
        "enhance"@,
    )
}

/// The notes that apply before the fallback, in the order they are checked.
pub open spec fn matched_notes(original: Seq<char>, polished: Seq<char>) -> Seq<Seq<char>> {
    (if polished.len() > original.len() {
        seq![details_note()]
    } else {
        Seq::empty()
    }) + (if names_improvement(polished) {
        seq![impact_note()]
    } else {
        Seq::empty()
    }) + (if word_count(polished) > word_count(original) {
        seq![wording_note()]
    } else {
        Seq::empty()
    })
}

/// The improvement notes for rewriting `original` into `polished`.
pub open spec fn improvement_notes(original: Seq<char>, polished: Seq<char>) -> Seq<Seq<char>> {
    let m = matched_notes(original, polished);
    if m.len() == 0 {
        seq![fallback_note()]
    } else {
        m
    }
}

/// The text of each string in `v`.
pub open spec fn texts(v: Seq<String>) -> Seq<Seq<char>> {
    v.map_values(|s: String| s@)
}

/// Describes, as short notes, how `polished` differs from `original`.
pub fn extract_improvements(original: &str, polished: &str) -> (r: Vec<String>)
    ensures
        texts(r@) == improvement_notes(original@, polished@),
        r.len() >= 1,
{
    let mut r: Vec<String> = Vec::new();
    let ghost mut m: Seq<Seq<char>> = Seq::empty();
    if polished.unicode_len() > original.unicode_len() {
        r.push(String::from_str("Added more details and quantified information"));
        proof { m = m.push(details_note()); }
    }
    if contains_text(polished, "improve") || contains_text(polished, "optim") || contains_text(
        polished,
        "enhance",
    ) {
        r.push(String::from_str("Strengthened impact and achievement descriptions"));
        proof { m = m.push(impact_note()); }
    }
    assert(texts(r@) =~= m);
    if count_words(polished) > count_words(original) {
        r.push(String::from_str("Enriched professional expressions and terminology"));
        proof { m = m.push(wording_note()); }
    }
    assert(texts(r@) =~= m);
    assert(m =~= matched_notes(original@, polished@));
    if r.len() == 0 {
        r.push(String::from_str("Optimized language expressions and professionalism"));
        assert(texts(r@) =~= seq![fallback_note()]);
    }
    r
}

/// Every pair of texts, the empty ones included, gets at least one note.
pub proof fn lemma_notes_never_empty(original: Seq<char>, polished: Seq<char>)
    ensures
        improvement_notes(original, polished).len() >= 1,
{
}

/// A rewrite that leaves the text as it was, and names no improvement,
/// gets the fallback note alone.
pub proof fn lemma_unchanged_gets_fallback(text: Seq<char>)
    requires
        !names_improvement(text),
    ensures
        improvement_notes(text, text) == seq![fallback_note()],
{
    assert(matched_notes(text, text) =~= Seq::empty());
}

/// The phrase whose appending triggers the first three notes.
pub open spec fn optimized_suffix() -> Seq<char> {
    " and optimized results "@
}

/// Appending " and optimized results " makes the text longer, names an
/// optimisation and adds words, so the first three notes come, in their order.
pub proof fn lemma_appended_optimization(original: Seq<char>)
    ensures
        improvement_notes(original, original + optimized_suffix()) == seq![
            details_note(),
            impact_note(),
            wording_note(),
        ],
{
    let suffix = optimized_suffix();
    let polished = original + suffix;
    reveal_strlit(" and optimized results ");
    reveal_strlit("optim");
    assert(suffix.len() == 23);
    let i: int = original.len() as int + 5;
    assert(polished.subrange(i, i + 5) =~= "optim"@);
    assert(has_infix(polished, "optim"@));
    lemma_word_count_append(original, suffix);
    assert(space_char(suffix[0]));
    assert(word_count(suffix) == 3) by {
        reveal_with_fuel(word_count, 24);
    }
    assert(matched_notes(original, polished) =~= seq![
        details_note(),
        impact_note(),
        wording_note(),
    ]);
}

} // verus!
