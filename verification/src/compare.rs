//! The comparison of declared names against imported names.

use vstd::prelude::*;

verus! {

/// The test that keeps a declared name: it is not among `imported`.
pub open spec fn is_missing_from(imported: Seq<Seq<char>>) -> spec_fn(Seq<char>) -> bool {
    |name: Seq<char>| !imported.contains(name)
}

/// The declared names that are not imported, in the order in which they were
/// declared. A name that is declared twice and never imported stays twice.
pub open spec fn unused(declared: Seq<Seq<char>>, imported: Seq<Seq<char>>) -> Seq<Seq<char>> {
    declared.filter(is_missing_from(imported))
}

/// Every unused name is a declared name, and none of them is imported.
pub proof fn lemma_unused_is_subset(declared: Seq<Seq<char>>, imported: Seq<Seq<char>>)
    ensures
        unused(declared, imported).len() <= declared.len(),
        forall|k: int|
            0 <= k < unused(declared, imported).len() ==> declared.contains(
                #[trigger] unused(declared, imported)[k],
            ),
        forall|k: int|
            0 <= k < unused(declared, imported).len() ==> !imported.contains(
                #[trigger] unused(declared, imported)[k],
            ),
{
    let kept = unused(declared, imported);
    declared.lemma_filter_len(is_missing_from(imported));
    assert forall|k: int| 0 <= k < kept.len() implies declared.contains(#[trigger] kept[k])
        && !imported.contains(kept[k]) by {
        declared.lemma_filter_pred(is_missing_from(imported), k);
        assert(kept.contains(kept[k]));
        declared.lemma_filter_contains_rev(is_missing_from(imported), kept[k]);
    }
}

/// Two results that the comparison may give for the same two lists are the same
/// list: the comparison has no state and no choice.
pub proof fn lemma_unused_is_deterministic(
    declared: Seq<Seq<char>>,
    imported: Seq<Seq<char>>,
    first: Seq<Seq<char>>,
    second: Seq<Seq<char>>,
)
    requires
        first == unused(declared, imported),
        second == unused(declared, imported),
    ensures
        first == second,
{
}

/// Where every declared name is imported, nothing is unused.
pub proof fn lemma_unused_of_full_coverage(declared: Seq<Seq<char>>, imported: Seq<Seq<char>>)
    requires
        forall|k: int| 0 <= k < declared.len() ==> imported.contains(#[trigger] declared[k]),
    ensures
        unused(declared, imported) == Seq::<Seq<char>>::empty(),
{
    let kept = unused(declared, imported);
    if kept.len() > 0 {
        lemma_unused_is_subset(declared, imported);
        let name = kept[0];
        assert(declared.contains(name));
        let k = choose|k: int| 0 <= k < declared.len() && declared[k] == name;
        assert(imported.contains(declared[k]));
    }
    assert(kept =~= Seq::<Seq<char>>::empty());
}

/// Where no declared name is imported, every declared name is unused, in the
/// declared order.
pub proof fn lemma_unused_of_no_coverage(declared: Seq<Seq<char>>, imported: Seq<Seq<char>>)
    requires
        forall|k: int| 0 <= k < declared.len() ==> !imported.contains(#[trigger] declared[k]),
    ensures
        unused(declared, imported) == declared,
    decreases declared.len(),
{
    reveal(Seq::filter);
    if declared.len() > 0 {
        let front = declared.drop_last();
        assert forall|k: int| 0 <= k < front.len() implies !imported.contains(
            #[trigger] front[k],
        ) by {
            assert(front[k] == declared[k]);
        }
        lemma_unused_of_no_coverage(front, imported);
        assert(!imported.contains(declared[declared.len() - 1]));
        assert(front.push(declared.last()) =~= declared);
    }
}

/// Whether `name` is one of `list`, by exact comparison of the characters.
pub fn contains_name(list: &Vec<String>, name: &String) -> (found: bool)
    ensures
        found == list.deep_view().contains(name@),
{
    let mut i: usize = 0;
    while i < list.len()
        invariant
            i <= list.len(),
            forall|j: int| 0 <= j < i ==> list.deep_view()[j] != name@,
        decreases list.len() - i,
    {
        if list[i] == *name {
            assert(list.deep_view()[i as int] == name@);
            return true;
        }
        i += 1;
    }
    false
}

/// Keeps the entries of `all_deps` that `found_deps` does not hold.
pub fn missing_names(all_deps: &Vec<String>, found_deps: &Vec<String>) -> (mismatches: Vec<String>)
    ensures
        mismatches.deep_view() == unused(all_deps.deep_view(), found_deps.deep_view()),
{
    let mut mismatches: Vec<String> = Vec::new();
    let ghost declared = all_deps.deep_view();
    let ghost imported = found_deps.deep_view();
    proof {
        reveal(Seq::filter);
        assert(declared.take(0) =~= Seq::<Seq<char>>::empty());
        assert(mismatches.deep_view() =~= Seq::<Seq<char>>::empty());
    }
    let mut i: usize = 0;
    while i < all_deps.len()
        invariant
            i <= all_deps.len(),
            declared == all_deps.deep_view(),
            imported == found_deps.deep_view(),
            mismatches.deep_view() == unused(declared.take(i as int), imported),
        decreases all_deps.len() - i,
    {
        let item = &all_deps[i];
        let ghost before = mismatches.deep_view();
        proof {
            assert(declared.take(i + 1) =~= declared.take(i as int).push(item@));
            declared.take(i as int).lemma_filter_push(item@, is_missing_from(imported));
        }
        if !contains_name(found_deps, item) {
            mismatches.push(item.clone());
            assert(mismatches.deep_view() =~= before.push(item@));
        }
        i += 1;
    }
    proof {
        assert(declared.take(all_deps.len() as int) =~= declared);
    }
    mismatches
}

} // verus!
