//! The filtered view: the indices of the catalog entries that match a query.

use vstd::prelude::*;
use crate::text::{
    contains_str, is_substring, lemma_empty_is_substring, lowercase, lowercase_of, matches_query,
};

verus! {

/// The names held by a vector of strings, each as its characters.
pub open spec fn names_of(v: Seq<String>) -> Seq<Seq<char>> {
    v.map_values(|s: String| s@)
}

/// The positions held by a vector of indices, as integers.
pub open spec fn indices_of(v: Seq<usize>) -> Seq<int> {
    v.map_values(|i: usize| i as int)
}

/// The folded forms of names, each in the place of its name.
pub open spec fn folds_of(names: Seq<Seq<char>>) -> Seq<Seq<char>> {
    names.map_values(|name: Seq<char>| lowercase_of(name))
}

/// The indices of the texts that hold `part`, in ascending order.
pub open spec fn containing_indices(texts: Seq<Seq<char>>, part: Seq<char>) -> Seq<int>
    decreases texts.len(),
{
    if texts.len() == 0 {
        Seq::empty()
    } else {
        let before = containing_indices(texts.drop_last(), part);
        if is_substring(part, texts.last()) {
            before.push(texts.len() - 1)
        } else {
            before
        }
    }
}

/// The indices of the names that match `query`, in ascending order: those
/// of the folded names that hold the folded query.
pub open spec fn matching_indices(names: Seq<Seq<char>>, query: Seq<char>) -> Seq<int> {
    containing_indices(folds_of(names), lowercase_of(query))
}

/// The names that a sequence of indices selects.
pub open spec fn selected_names(names: Seq<Seq<char>>, view: Seq<int>) -> Seq<Seq<char>> {
    view.map_values(|i: int| names[i])
}

/// A sequence of indices is the view of the texts that hold `part`: its
/// entries lie in the texts and name texts that hold it, they ascend
/// strictly, and no index of such a text is left out.
pub open spec fn is_containing_view(
    view: Seq<int>,
    texts: Seq<Seq<char>>,
    part: Seq<char>,
) -> bool {
    &&& forall|k: int|
        0 <= k < view.len() ==> 0 <= #[trigger] view[k] < texts.len() && is_substring(
            part,
            texts[view[k]],
        )
    &&& forall|k: int, l: int| 0 <= k < l < view.len() ==> #[trigger] view[k] < #[trigger] view[l]
    &&& forall|i: int|
        0 <= i < texts.len() && is_substring(part, #[trigger] texts[i]) ==> view.contains(i)
}

/// A sequence of indices is a filtered view of the names under the query:
/// its entries lie in the catalog and match, they ascend strictly, so the
/// catalog's order is kept, and no matching index is left out.
pub open spec fn is_filtered_view(view: Seq<int>, names: Seq<Seq<char>>, query: Seq<char>) -> bool {
    &&& forall|k: int|
        0 <= k < view.len() ==> 0 <= #[trigger] view[k] < names.len() && matches_query(
            names[view[k]],
            query,
        )
    &&& forall|k: int, l: int| 0 <= k < l < view.len() ==> #[trigger] view[k] < #[trigger] view[l]
    &&& forall|i: int|
        0 <= i < names.len() && matches_query(#[trigger] names[i], query) ==> view.contains(i)
}

/// The containing indices are the view of the texts that hold the part.
pub proof fn lemma_containing_indices(texts: Seq<Seq<char>>, part: Seq<char>)
    ensures
        is_containing_view(containing_indices(texts, part), texts, part),
        containing_indices(texts, part).len() <= texts.len(),
    decreases texts.len(),
{
    if texts.len() > 0 {
        let shorter = texts.drop_last();
        let before = containing_indices(shorter, part);
        let view = containing_indices(texts, part);
        lemma_containing_indices(shorter, part);
        assert forall|i: int|
            0 <= i < texts.len() && is_substring(part, #[trigger] texts[i]) implies view.contains(
            i,
        ) by {
            if i < texts.len() - 1 {
                assert(shorter[i] == texts[i]);
                let k = choose|k: int| 0 <= k < before.len() && before[k] == i;
                assert(view[k] == i);
            } else {
                assert(view[view.len() - 1] == i);
            }
        }
    }
}

/// There is one view of the texts that hold the part, and
/// `containing_indices` gives it.
pub proof fn lemma_containing_view_is_unique(
    view: Seq<int>,
    texts: Seq<Seq<char>>,
    part: Seq<char>,
)
    ensures
        is_containing_view(view, texts, part) <==> view == containing_indices(texts, part),
    decreases texts.len(),
{
    lemma_containing_indices(texts, part);
    if is_containing_view(view, texts, part) {
        if texts.len() == 0 {
            if view.len() > 0 {
                assert(0 <= view[0] < texts.len());
            }
        } else {
            let shorter = texts.drop_last();
            let last_holds = is_substring(part, texts.last());
            let rest = if last_holds {
                view.drop_last()
            } else {
                view
            };
            assert forall|k: int| 0 <= k < rest.len() implies 0 <= #[trigger] rest[k]
                < shorter.len() && is_substring(part, shorter[rest[k]]) by {
                if last_holds {
                    assert(view[k] < view[view.len() - 1]);
                }
            }
            assert forall|i: int|
                0 <= i < shorter.len() && is_substring(
                    part,
                    #[trigger] shorter[i],
                ) implies rest.contains(i) by {
                let at = choose|at: int| 0 <= at < view.len() && view[at] == i;
                assert(rest[at] == i);
            }
            lemma_containing_view_is_unique(rest, shorter, part);
        }
        assert(view =~= containing_indices(texts, part));
    }
}

/// A filtered view of names is the view of their folded forms that hold
/// the folded query.
pub proof fn lemma_filtered_view_of_folds(view: Seq<int>, names: Seq<Seq<char>>, query: Seq<char>)
    ensures
        is_filtered_view(view, names, query) <==> is_containing_view(
            view,
            folds_of(names),
            lowercase_of(query),
        ),
{
    let texts = folds_of(names);
    let part = lowercase_of(query);
    if is_filtered_view(view, names, query) {
        assert forall|i: int|
            0 <= i < texts.len() && is_substring(part, #[trigger] texts[i]) implies view.contains(
            i,
        ) by {
            assert(matches_query(names[i], query));
        }
    }
    if is_containing_view(view, texts, part) {
        assert forall|i: int|
            0 <= i < names.len() && matches_query(#[trigger] names[i], query) implies view.contains(
            i,
        ) by {
            assert(is_substring(part, texts[i]));
        }
    }
}

/// The matching indices are a filtered view.
pub proof fn lemma_matching_indices(names: Seq<Seq<char>>, query: Seq<char>)
    ensures
        is_filtered_view(matching_indices(names, query), names, query),
        matching_indices(names, query).len() <= names.len(),
{
    lemma_containing_indices(folds_of(names), lowercase_of(query));
    lemma_filtered_view_of_folds(matching_indices(names, query), names, query);
}

/// There is one filtered view, and `matching_indices` gives it.
pub proof fn lemma_filtered_view_is_unique(
    view: Seq<int>,
    names: Seq<Seq<char>>,
    query: Seq<char>,
)
    ensures
        is_filtered_view(view, names, query) <==> view == matching_indices(names, query),
{
    lemma_filtered_view_of_folds(view, names, query);
    lemma_containing_view_is_unique(view, folds_of(names), lowercase_of(query));
}

/// Every text holds the empty part.
pub proof fn lemma_empty_part_is_in_all(texts: Seq<Seq<char>>, part: Seq<char>)
    requires
        part.len() == 0,
    ensures
        containing_indices(texts, part) == Seq::new(texts.len(), |i: int| i),
    decreases texts.len(),
{
    if texts.len() > 0 {
        lemma_empty_part_is_in_all(texts.drop_last(), part);
        lemma_empty_is_substring(part, texts.last());
    }
}

/// Every name matches the query that folds to nothing.
pub proof fn lemma_blank_query_matches_all(names: Seq<Seq<char>>, query: Seq<char>)
    requires
        lowercase_of(query).len() == 0,
    ensures
        matching_indices(names, query) == Seq::new(names.len(), |i: int| i),
{
    lemma_empty_part_is_in_all(folds_of(names), lowercase_of(query));
}

/// Folds each name.
pub fn fold_names(names: &Vec<String>) -> (folded: Vec<String>)
    ensures
        names_of(folded@) == folds_of(names_of(names@)),
{
    let mut folded: Vec<String> = Vec::new();
    let mut i: usize = 0;
    while i < names.len()
        invariant
            i <= names.len(),
            names_of(folded@) == folds_of(names_of(names@)).take(i as int),
        decreases names.len() - i,
    {
        folded.push(lowercase(names[i].as_str()));
        proof {
            let all = folds_of(names_of(names@));
            assert(all.take(i + 1) =~= all.take(i as int).push(all[i as int]));
        }
        i += 1;
    }
    folded
}

/// Computes the view of the folded names that hold the folded query.
pub fn view_of_folded(folded_names: &Vec<String>, folded_query: &str) -> (view: Vec<usize>)
    ensures
        indices_of(view@) == containing_indices(names_of(folded_names@), folded_query@),
        is_containing_view(indices_of(view@), names_of(folded_names@), folded_query@),
        folded_query@.len() == 0 ==> indices_of(view@) == Seq::new(
            folded_names@.len(),
            |i: int| i,
        ),
{
    let mut view: Vec<usize> = Vec::new();
    let mut i: usize = 0;
    while i < folded_names.len()
        invariant
            i <= folded_names.len(),
            indices_of(view@) == containing_indices(
                names_of(folded_names@).take(i as int),
                folded_query@,
            ),
        decreases folded_names.len() - i,
    {
        let hit = contains_str(folded_names[i].as_str(), folded_query);
        proof {
            let all = names_of(folded_names@);
            assert(all.take(i + 1).drop_last() =~= all.take(i as int));
        }
        if hit {
            view.push(i);
        }
        i += 1;
    }
    proof {
        let all = names_of(folded_names@);
        assert(all.take(i as int) =~= all);
        lemma_containing_indices(all, folded_query@);
        if folded_query@.len() == 0 {
            lemma_empty_part_is_in_all(all, folded_query@);
        }
    }
    view
}

/// Computes the filtered view of `names` under `query`.
pub fn filtered_view(names: &Vec<String>, query: &str) -> (view: Vec<usize>)
    ensures
        indices_of(view@) == matching_indices(names_of(names@), query@),
        is_filtered_view(indices_of(view@), names_of(names@), query@),
        query@.len() == 0 ==> indices_of(view@) == Seq::new(names@.len(), |i: int| i),
{
    let folded_names = fold_names(names);
    let folded_query = lowercase(query);
    proof {
        lemma_matching_indices(names_of(names@), query@);
    }
    view_of_folded(&folded_names, folded_query.as_str())
}

} // verus!
