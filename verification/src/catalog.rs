//! The catalog: the names found on the search path, ordered by their folded
//! forms, with repeats that stand side by side removed.

use vstd::prelude::*;
use crate::filter::{fold_names, folds_of, names_of};
use crate::text::{
    folded_le, lemma_lex_le_reflexive, lemma_lex_le_total, lemma_lex_le_transitive, lex_le,
    lowercase_of, str_le,
};

verus! {

/// The names ascend by their folded forms.
pub open spec fn sorted_by_fold(names: Seq<Seq<char>>) -> bool {
    forall|i: int, j: int| 0 <= i <= j < names.len() ==> folded_le(names[i], names[j])
}

/// No name equals the one before it.
pub open spec fn adjacent_distinct(names: Seq<Seq<char>>) -> bool {
    forall|i: int| 0 < i < names.len() ==> names[i - 1] != #[trigger] names[i]
}

/// No two neighbours have the same folded form.
pub open spec fn adjacent_fold_distinct(names: Seq<Seq<char>>) -> bool {
    forall|i: int|
        0 < i < names.len() ==> lowercase_of(names[i - 1]) != lowercase_of(#[trigger] names[i])
}

/// A sequence of names is a catalog: ordered by fold, no name beside its equal.
pub open spec fn is_catalog(names: Seq<Seq<char>>) -> bool {
    sorted_by_fold(names) && adjacent_distinct(names)
}

/// Where a name enters an ordered sequence: behind the last name that does
/// not come after it, so behind its equals.
pub open spec fn insertion_point(sorted: Seq<Seq<char>>, name: Seq<char>) -> int
    decreases sorted.len(),
{
    if sorted.len() == 0 {
        0
    } else if folded_le(sorted.last(), name) {
        sorted.len() as int
    } else {
        insertion_point(sorted.drop_last(), name)
    }
}

/// The names in the order of their folded forms, names of equal fold in the
/// order in which they came.
pub open spec fn stable_sorted(names: Seq<Seq<char>>) -> Seq<Seq<char>>
    decreases names.len(),
{
    if names.len() == 0 {
        Seq::empty()
    } else {
        let before = stable_sorted(names.drop_last());
        before.insert(insertion_point(before, names.last()), names.last())
    }
}

/// The names without those that repeat the name before them.
pub open spec fn without_repeats(names: Seq<Seq<char>>) -> Seq<Seq<char>>
    decreases names.len(),
{
    if names.len() <= 1 {
        names
    } else {
        let before = without_repeats(names.drop_last());
        if names.last() == names[names.len() - 2] {
            before
        } else {
            before.push(names.last())
        }
    }
}

/// The catalog made of the names found: sorted, then freed of repeats.
pub open spec fn catalog_of(found: Seq<Seq<char>>) -> Seq<Seq<char>> {
    without_repeats(stable_sorted(found))
}

/// Where a key enters an ordered sequence of keys: behind the last key that
/// does not come after it, so behind its equals.
pub open spec fn key_insertion_point(ordered: Seq<Seq<char>>, key: Seq<char>) -> int
    decreases ordered.len(),
{
    if ordered.len() == 0 {
        0
    } else if lex_le(ordered.last(), key) {
        ordered.len() as int
    } else {
        key_insertion_point(ordered.drop_last(), key)
    }
}

/// The keys in their order, equal keys in the order in which they came.
pub open spec fn sorted_keys(keys: Seq<Seq<char>>) -> Seq<Seq<char>>
    decreases keys.len(),
{
    if keys.len() == 0 {
        Seq::empty()
    } else {
        let before = sorted_keys(keys.drop_last());
        before.insert(key_insertion_point(before, keys.last()), keys.last())
    }
}

/// The names in the order of their keys, each name with the key in its
/// place, names of equal keys in the order in which they came.
pub open spec fn sorted_by_keys(names: Seq<Seq<char>>, keys: Seq<Seq<char>>) -> Seq<Seq<char>>
    decreases names.len(),
{
    if names.len() == 0 || keys.len() != names.len() {
        Seq::empty()
    } else {
        let before = sorted_by_keys(names.drop_last(), keys.drop_last());
        let ordered = sorted_keys(keys.drop_last());
        before.insert(key_insertion_point(ordered, keys.last()), names.last())
    }
}

/// The keys are ordered.
pub open spec fn keys_ascend(keys: Seq<Seq<char>>) -> bool {
    forall|i: int, j: int| 0 <= i <= j < keys.len() ==> lex_le(keys[i], keys[j])
}

/// The insertion point of a key lies behind every key that does not come
/// after the new one and before every key that does.
pub proof fn lemma_key_insertion_point(ordered: Seq<Seq<char>>, key: Seq<char>)
    requires
        keys_ascend(ordered),
    ensures
        0 <= key_insertion_point(ordered, key) <= ordered.len(),
        forall|j: int|
            0 <= j < key_insertion_point(ordered, key) ==> lex_le(#[trigger] ordered[j], key),
        forall|j: int|
            key_insertion_point(ordered, key) <= j < ordered.len() ==> !lex_le(
                #[trigger] ordered[j],
                key,
            ) && lex_le(key, ordered[j]),
    decreases ordered.len(),
{
    if ordered.len() > 0 {
        let p = key_insertion_point(ordered, key);
        if lex_le(ordered.last(), key) {
            assert forall|j: int| 0 <= j < p implies lex_le(#[trigger] ordered[j], key) by {
                lemma_lex_le_transitive(ordered[j], ordered.last(), key);
            }
        } else {
            let shorter = ordered.drop_last();
            lemma_key_insertion_point(shorter, key);
            assert forall|j: int| 0 <= j < p implies lex_le(#[trigger] ordered[j], key) by {
                assert(shorter[j] == ordered[j]);
            }
            assert forall|j: int| p <= j < ordered.len() implies !lex_le(
                #[trigger] ordered[j],
                key,
            ) && lex_le(key, ordered[j]) by {
                if j < shorter.len() {
                    assert(shorter[j] == ordered[j]);
                } else {
                    lemma_lex_le_total(ordered[j], key);
                }
            }
        }
    }
}

/// Sorting keys gives an ordered sequence that holds each key as often as
/// the keys given do.
pub proof fn lemma_sorted_keys(keys: Seq<Seq<char>>)
    ensures
        keys_ascend(sorted_keys(keys)),
        sorted_keys(keys).len() == keys.len(),
        sorted_keys(keys).to_multiset() == keys.to_multiset(),
    decreases keys.len(),
{
    broadcast use vstd::seq_lib::group_to_multiset_ensures;

    if keys.len() > 0 {
        let shorter = keys.drop_last();
        let before = sorted_keys(shorter);
        let key = keys.last();
        let p = key_insertion_point(before, key);
        let grown = before.insert(p, key);
        lemma_sorted_keys(shorter);
        lemma_key_insertion_point(before, key);
        assert forall|i: int, j: int| 0 <= i <= j < grown.len() implies lex_le(
            grown[i],
            grown[j],
        ) by {
            if i == j {
                lemma_lex_le_reflexive(grown[i]);
            }
        }
        assert(keys =~= shorter.push(key));
    }
}

/// Sorting by keys puts each name where sorting the keys puts its key: the
/// result is as long as the names given, holds each name as often as they
/// do, and holds at each place a name whose key stands at that place among
/// the sorted keys.
pub proof fn lemma_sorted_by_keys(names: Seq<Seq<char>>, keys: Seq<Seq<char>>)
    requires
        keys.len() == names.len(),
    ensures
        sorted_by_keys(names, keys).len() == names.len(),
        sorted_by_keys(names, keys).to_multiset() == names.to_multiset(),
        forall|i: int|
            0 <= i < names.len() ==> exists|j: int|
                0 <= j < names.len() && #[trigger] sorted_by_keys(names, keys)[i] == names[j]
                    && sorted_keys(keys)[i] == keys[j],
    decreases names.len(),
{
    broadcast use vstd::seq_lib::group_to_multiset_ensures;

    if names.len() > 0 {
        let fewer = names.drop_last();
        let fewer_keys = keys.drop_last();
        let before = sorted_by_keys(fewer, fewer_keys);
        let ordered = sorted_keys(fewer_keys);
        let p = key_insertion_point(ordered, keys.last());
        let sorted = sorted_by_keys(names, keys);
        lemma_sorted_by_keys(fewer, fewer_keys);
        lemma_sorted_keys(fewer_keys);
        lemma_key_insertion_point(ordered, keys.last());
        assert(names =~= fewer.push(names.last()));
        assert forall|i: int| 0 <= i < names.len() implies exists|j: int|
            0 <= j < names.len() && #[trigger] sorted[i] == names[j] && sorted_keys(keys)[i]
                == keys[j] by {
            if i == p {
                assert(sorted[i] == names[names.len() - 1]);
            } else {
                let at = if i < p {
                    i
                } else {
                    i - 1
                };
                let j = choose|j: int|
                    0 <= j < fewer.len() && #[trigger] before[at] == fewer[j] && ordered[at]
                        == fewer_keys[j];
                assert(sorted[i] == names[j] && sorted_keys(keys)[i] == keys[j]);
            }
        }
    }
}

/// The insertion point lies behind every name that does not come after the
/// new one and before every name that does.
pub proof fn lemma_insertion_point(sorted: Seq<Seq<char>>, name: Seq<char>)
    requires
        sorted_by_fold(sorted),
    ensures
        0 <= insertion_point(sorted, name) <= sorted.len(),
        forall|j: int|
            0 <= j < insertion_point(sorted, name) ==> folded_le(#[trigger] sorted[j], name),
        forall|j: int|
            insertion_point(sorted, name) <= j < sorted.len() ==> !folded_le(
                #[trigger] sorted[j],
                name,
            ) && folded_le(name, sorted[j]),
    decreases sorted.len(),
{
    if sorted.len() > 0 {
        let p = insertion_point(sorted, name);
        if folded_le(sorted.last(), name) {
            assert forall|j: int| 0 <= j < p implies folded_le(#[trigger] sorted[j], name) by {
                assert(folded_le(sorted[j], sorted[sorted.len() - 1]));
                lemma_lex_le_transitive(
                    lowercase_of(sorted[j]),
                    lowercase_of(sorted.last()),
                    lowercase_of(name),
                );
            }
        } else {
            let shorter = sorted.drop_last();
            lemma_insertion_point(shorter, name);
            assert forall|j: int| 0 <= j < p implies folded_le(#[trigger] sorted[j], name) by {
                assert(shorter[j] == sorted[j]);
            }
            assert forall|j: int| p <= j < sorted.len() implies !folded_le(
                #[trigger] sorted[j],
                name,
            ) && folded_le(name, sorted[j]) by {
                if j < shorter.len() {
                    assert(shorter[j] == sorted[j]);
                } else {
                    lemma_lex_le_total(lowercase_of(sorted[j]), lowercase_of(name));
                }
            }
        }
    }
}

/// A name put at its insertion point leaves the sequence ordered.
pub proof fn lemma_insert_keeps_sorted(sorted: Seq<Seq<char>>, name: Seq<char>)
    requires
        sorted_by_fold(sorted),
    ensures
        sorted_by_fold(sorted.insert(insertion_point(sorted, name), name)),
{
    let p = insertion_point(sorted, name);
    let grown = sorted.insert(p, name);
    lemma_insertion_point(sorted, name);
    assert forall|i: int, j: int| 0 <= i <= j < grown.len() implies folded_le(
        grown[i],
        grown[j],
    ) by {
        if i == j {
            lemma_lex_le_reflexive(lowercase_of(grown[i]));
        }
    }
}

/// Sorting gives an ordered sequence that holds each name as often as the
/// names found do.
pub proof fn lemma_stable_sorted(names: Seq<Seq<char>>)
    ensures
        sorted_by_fold(stable_sorted(names)),
        stable_sorted(names).len() == names.len(),
        stable_sorted(names).to_multiset() == names.to_multiset(),
    decreases names.len(),
{
    broadcast use vstd::seq_lib::group_to_multiset_ensures;

    if names.len() > 0 {
        let shorter = names.drop_last();
        let before = stable_sorted(shorter);
        lemma_stable_sorted(shorter);
        lemma_insertion_point(before, names.last());
        lemma_insert_keeps_sorted(before, names.last());
        assert(names =~= shorter.push(names.last()));
    }
}

/// A name enters ordered names where its folded form enters their folded
/// forms.
pub proof fn lemma_insertion_points_agree(sorted: Seq<Seq<char>>, name: Seq<char>)
    ensures
        insertion_point(sorted, name) == key_insertion_point(folds_of(sorted), lowercase_of(name)),
    decreases sorted.len(),
{
    if sorted.len() > 0 {
        lemma_insertion_points_agree(sorted.drop_last(), name);
        assert(folds_of(sorted).drop_last() =~= folds_of(sorted.drop_last()));
    }
}

/// Sorting names is sorting them by their folded forms as keys.
pub proof fn lemma_stable_sorted_by_folds(names: Seq<Seq<char>>)
    ensures
        stable_sorted(names) == sorted_by_keys(names, folds_of(names)),
        folds_of(stable_sorted(names)) == sorted_keys(folds_of(names)),
    decreases names.len(),
{
    if names.len() > 0 {
        let shorter = names.drop_last();
        let before = stable_sorted(shorter);
        let p = insertion_point(before, names.last());
        lemma_stable_sorted_by_folds(shorter);
        lemma_stable_sorted(shorter);
        lemma_insertion_point(before, names.last());
        lemma_insertion_points_agree(before, names.last());
        assert(folds_of(names).drop_last() =~= folds_of(shorter));
    }
}

/// The test whether a name has the given folded form.
pub open spec fn has_fold(fold: Seq<char>) -> spec_fn(Seq<char>) -> bool {
    |name: Seq<char>| lowercase_of(name) == fold
}

/// The names of one folded form, in the order in which they stand.
pub open spec fn of_fold(names: Seq<Seq<char>>, fold: Seq<char>) -> Seq<Seq<char>> {
    names.filter(has_fold(fold))
}

/// Where no name has the folded form, none is selected.
proof fn lemma_of_fold_empty(names: Seq<Seq<char>>, fold: Seq<char>)
    requires
        forall|i: int| 0 <= i < names.len() ==> lowercase_of(#[trigger] names[i]) != fold,
    ensures
        of_fold(names, fold) == Seq::<Seq<char>>::empty(),
    decreases names.len(),
{
    reveal(Seq::filter);
    if names.len() > 0 {
        lemma_of_fold_empty(names.drop_last(), fold);
    }
}

/// Sorting is stable: the names of each folded form keep the order in which
/// they were found. With the order of the folded forms this fixes the whole
/// sorted sequence.
pub proof fn lemma_sort_is_stable(names: Seq<Seq<char>>, fold: Seq<char>)
    ensures
        of_fold(stable_sorted(names), fold) == of_fold(names, fold),
    decreases names.len(),
{
    reveal(Seq::filter);
    if names.len() > 0 {
        let shorter = names.drop_last();
        let name = names.last();
        let before = stable_sorted(shorter);
        let p = insertion_point(before, name);
        let test = has_fold(fold);
        lemma_sort_is_stable(shorter, fold);
        lemma_stable_sorted(shorter);
        lemma_insertion_point(before, name);
        let front = before.take(p);
        let back = before.skip(p);
        assert(before =~= front + back);
        assert(before.insert(p, name) =~= (front + seq![name]) + back);
        assert(seq![name].drop_last() =~= Seq::<Seq<char>>::empty());
        assert(Seq::<Seq<char>>::empty().filter(test) =~= Seq::<Seq<char>>::empty());
        if test(name) {
            lemma_of_fold_empty(back, fold);
        }
    }
}

/// Removing repeats leaves no name beside its equal, keeps the last name,
/// keeps exactly the names that were there, and keeps their order.
pub proof fn lemma_without_repeats(names: Seq<Seq<char>>)
    ensures
        adjacent_distinct(without_repeats(names)),
        without_repeats(names).len() <= names.len(),
        names.len() > 0 ==> without_repeats(names).len() > 0 && without_repeats(names).last()
            == names.last(),
        forall|name: Seq<char>| names.contains(name) <==> without_repeats(names).contains(name),
        sorted_by_fold(names) ==> sorted_by_fold(without_repeats(names)),
    decreases names.len(),
{
    let kept = without_repeats(names);
    if names.len() > 1 {
        let shorter = names.drop_last();
        let before = without_repeats(shorter);
        lemma_without_repeats(shorter);
        assert forall|name: Seq<char>| names.contains(name) <==> kept.contains(name) by {
            if names.contains(name) {
                let i = choose|i: int| 0 <= i < names.len() && names[i] == name;
                if i < shorter.len() {
                    assert(shorter[i] == name);
                    assert(shorter.contains(name));
                    let k = choose|k: int| 0 <= k < before.len() && before[k] == name;
                    assert(kept[k] == name);
                } else {
                    assert(kept.last() == name);
                }
            }
            if kept.contains(name) {
                let k = choose|k: int| 0 <= k < kept.len() && kept[k] == name;
                if k < before.len() {
                    assert(shorter.contains(name));
                }
            }
        }
        if sorted_by_fold(names) {
            assert forall|i: int, j: int| 0 <= i <= j < kept.len() implies folded_le(
                kept[i],
                kept[j],
            ) by {
                if i < before.len() && j == before.len() {
                    assert(shorter.contains(before[i]));
                }
            }
        }
    }
}

/// The catalog is ordered by fold, holds no name beside its equal, and
/// holds exactly the names that were found.
pub proof fn lemma_catalog_of(found: Seq<Seq<char>>)
    ensures
        is_catalog(catalog_of(found)),
        catalog_of(found).len() <= found.len(),
        forall|name: Seq<char>| found.contains(name) <==> catalog_of(found).contains(name),
{
    broadcast use vstd::seq_lib::group_to_multiset_ensures;

    lemma_stable_sorted(found);
    lemma_without_repeats(stable_sorted(found));
    assert forall|name: Seq<char>| found.contains(name) <==> stable_sorted(found).contains(
        name,
    ) by {
        assert(found.to_multiset().count(name) == stable_sorted(found).to_multiset().count(name));
    }
}

/// Where the names found hold no two different names of the same folded
/// form, no two neighbours in the catalog have the same folded form.
pub proof fn lemma_catalog_fold_distinct(found: Seq<Seq<char>>)
    requires
        forall|i: int, j: int|
            0 <= i < found.len() && 0 <= j < found.len() && lowercase_of(#[trigger] found[i])
                == lowercase_of(#[trigger] found[j]) ==> found[i] == found[j],
    ensures
        adjacent_fold_distinct(catalog_of(found)),
{
    let catalog = catalog_of(found);
    lemma_catalog_of(found);
    assert forall|i: int| 0 < i < catalog.len() implies lowercase_of(catalog[i - 1])
        != lowercase_of(#[trigger] catalog[i]) by {
        assert(found.contains(catalog[i - 1]));
        assert(found.contains(catalog[i]));
    }
}

/// Orders names by the keys given with them, keeping names of equal keys
/// in the order in which they came.
pub fn sort_by_keys(names: &Vec<String>, keys: &Vec<String>) -> (sorted: Vec<String>)
    requires
        keys.len() == names.len(),
    ensures
        names_of(sorted@) == sorted_by_keys(names_of(names@), names_of(keys@)),
{
    let mut sorted: Vec<String> = Vec::new();
    let mut ordered: Vec<String> = Vec::new();
    let mut i: usize = 0;
    while i < names.len()
        invariant
            i <= names.len(),
            keys.len() == names.len(),
            sorted.len() == i,
            ordered.len() == i,
            names_of(ordered@) == sorted_keys(names_of(keys@).take(i as int)),
            names_of(sorted@) == sorted_by_keys(
                names_of(names@).take(i as int),
                names_of(keys@).take(i as int),
            ),
        decreases names.len() - i,
    {
        let key = keys[i].clone();
        let ghost before = names_of(ordered@);
        proof {
            let all = names_of(names@);
            let all_keys = names_of(keys@);
            assert(all.take(i + 1).drop_last() =~= all.take(i as int));
            assert(all_keys.take(i + 1).drop_last() =~= all_keys.take(i as int));
            assert(before.take(i as int) =~= before);
        }
        let mut p: usize = ordered.len();
        while p > 0 && !str_le(ordered[p - 1].as_str(), key.as_str())
            invariant
                p <= ordered.len(),
                before == names_of(ordered@),
                key_insertion_point(before, key@) == key_insertion_point(
                    before.take(p as int),
                    key@,
                ),
            decreases p,
        {
            proof {
                assert(before.take(p as int).drop_last() =~= before.take(p - 1));
            }
            p -= 1;
        }
        sorted.insert(p, names[i].clone());
        ordered.insert(p, key);
        i += 1;
    }
    proof {
        assert(names_of(names@).take(i as int) =~= names_of(names@));
        assert(names_of(keys@).take(i as int) =~= names_of(keys@));
    }
    sorted
}

/// Orders names by their folded forms, keeping names of equal fold in the
/// order in which they came.
pub fn sort_names(names: &Vec<String>) -> (sorted: Vec<String>)
    ensures
        names_of(sorted@) == stable_sorted(names_of(names@)),
{
    let keys = fold_names(names);
    proof {
        lemma_stable_sorted_by_folds(names_of(names@));
    }
    sort_by_keys(names, &keys)
}

/// Drops each name that repeats the name before it.
pub fn dedup_names(names: &Vec<String>) -> (kept: Vec<String>)
    ensures
        names_of(kept@) == without_repeats(names_of(names@)),
{
    let mut kept: Vec<String> = Vec::new();
    let mut i: usize = 0;
    while i < names.len()
        invariant
            i <= names.len(),
            names_of(kept@) == without_repeats(names_of(names@).take(i as int)),
        decreases names.len() - i,
    {
        proof {
            let all = names_of(names@);
            assert(all.take(i + 1).drop_last() =~= all.take(i as int));
        }
        if i == 0 || names[i] != names[i - 1] {
            kept.push(names[i].clone());
        }
        i += 1;
    }
    proof {
        assert(names_of(names@).take(i as int) =~= names_of(names@));
    }
    kept
}

/// Builds the catalog from the names found on the search path.
pub fn get_commands(found: &Vec<String>) -> (commands: Vec<String>)
    ensures
        names_of(commands@) == catalog_of(names_of(found@)),
        is_catalog(names_of(commands@)),
{
    let sorted = sort_names(found);
    let commands = dedup_names(&sorted);
    proof {
        lemma_catalog_of(names_of(found@));
    }
    commands
}

} // verus!
