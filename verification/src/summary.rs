//! The counts of a scan.

use vstd::prelude::*;
use crate::models::{
    CategorySummary, HostedNimMatch, HostedNimMatchView, LocalNimMatch, LocalNimMatchView,
    NimFindings, NimFindingsView, Summary,
};

verus! {

/// The source collections that a run of container references names.
pub open spec fn local_repositories(ms: Seq<LocalNimMatchView>) -> Set<Seq<char>> {
    Set::new(|r: Seq<char>| exists|i: int| 0 <= i < ms.len() && #[trigger] ms[i].repository == r)
}

/// The source collections that a run of hosted references names.
pub open spec fn hosted_repositories(ms: Seq<HostedNimMatchView>) -> Set<Seq<char>> {
    Set::new(|r: Seq<char>| exists|i: int| 0 <= i < ms.len() && #[trigger] ms[i].repository == r)
}

/// The source collections with at least one reference of any kind.
pub open spec fn repositories(
    source_code: NimFindingsView,
    actions_workflow: NimFindingsView,
) -> Set<Seq<char>> {
    local_repositories(source_code.local_nim) + hosted_repositories(source_code.hosted_nim)
        + local_repositories(actions_workflow.local_nim) + hosted_repositories(
        actions_workflow.hosted_nim,
    )
}

/// Adds a name to a list of distinct names unless it is there.
fn note_repository(seen: &mut Vec<String>, name: &String)
    requires
        old(seen).deep_view().no_duplicates(),
    ensures
        final(seen).deep_view().no_duplicates(),
        final(seen).deep_view().to_set() == old(seen).deep_view().to_set().insert(name@),
{
    let ghost before = seen.deep_view();
    let mut i: usize = 0;
    while i < seen.len()
        invariant
            i <= seen.len(),
            *seen == *old(seen),
            before == seen.deep_view(),
            before.no_duplicates(),
            forall|j: int| 0 <= j < i ==> #[trigger] before[j] != name@,
        decreases seen.len() - i,
    {
        if seen[i] == *name {
            assert(before[i as int] == name@);
            assert(before.to_set() =~= before.to_set().insert(name@));
            return ;
        }
        i += 1;
    }
    seen.push(name.clone());
    assert(seen.deep_view() =~= before.push(name@));
    assert(before.push(name@).to_set() =~= before.to_set().insert(name@)) by {
        let after = before.push(name@);
        assert forall|r: Seq<char>| after.to_set().contains(r) implies before.to_set().insert(
            name@,
        ).contains(r) by {
            let j = choose|j: int| 0 <= j < after.len() && after[j] == r;
            if j < before.len() {
                assert(before[j] == r);
            }
        }
        assert forall|r: Seq<char>| before.to_set().insert(name@).contains(
            r,
        ) implies after.to_set().contains(r) by {
            if r == name@ {
                assert(after[before.len() as int] == r);
            } else {
                let j = choose|j: int| 0 <= j < before.len() && before[j] == r;
                assert(after[j] == r);
            }
        }
    }
}

fn note_local(seen: &mut Vec<String>, ms: &Vec<LocalNimMatch>)
    requires
        old(seen).deep_view().no_duplicates(),
    ensures
        final(seen).deep_view().no_duplicates(),
        final(seen).deep_view().to_set() == old(seen).deep_view().to_set() + local_repositories(
            ms.deep_view(),
        ),
{
    let ghost start = seen.deep_view().to_set();
    let ghost all = ms.deep_view();
    let mut k: usize = 0;
    assert(local_repositories(all.take(0)) =~= Set::empty());
    assert(start + Set::<Seq<char>>::empty() =~= start);
    while k < ms.len()
        invariant
            k <= ms.len(),
            all == ms.deep_view(),
            seen.deep_view().no_duplicates(),
            seen.deep_view().to_set() == start + local_repositories(all.take(k as int)),
        decreases ms.len() - k,
    {
        note_repository(seen, &ms[k].repository);
        proof {
            let prev = all.take(k as int);
            let next = all.take(k + 1);
            let name = ms@[k as int].repository@;
            assert(all[k as int].repository == name);
            assert forall|r: Seq<char>| local_repositories(next).contains(r) implies (
            local_repositories(prev).insert(name)).contains(r) by {
                let i = choose|i: int| 0 <= i < next.len() && #[trigger] next[i].repository == r;
                if i < k {
                    assert(prev[i].repository == r);
                }
            }
            assert forall|r: Seq<char>| (local_repositories(prev).insert(name)).contains(
                r,
            ) implies local_repositories(next).contains(r) by {
                if r == name {
                    assert(next[k as int].repository == r);
                } else {
                    let i = choose|i: int|
                        0 <= i < prev.len() && #[trigger] prev[i].repository == r;
                    assert(next[i].repository == r);
                }
            }
            assert(local_repositories(next) =~= local_repositories(prev).insert(name));
            assert((start + local_repositories(prev)).insert(name) =~= start + local_repositories(
                next,
            ));
        }
        k += 1;
    }
    assert(all.take(k as int) =~= all);
}

fn note_hosted(seen: &mut Vec<String>, ms: &Vec<HostedNimMatch>)
    requires
        old(seen).deep_view().no_duplicates(),
    ensures
        final(seen).deep_view().no_duplicates(),
        final(seen).deep_view().to_set() == old(seen).deep_view().to_set() + hosted_repositories(
            ms.deep_view(),
        ),
{
    let ghost start = seen.deep_view().to_set();
    let ghost all = ms.deep_view();
    let mut k: usize = 0;
    assert(hosted_repositories(all.take(0)) =~= Set::empty());
    assert(start + Set::<Seq<char>>::empty() =~= start);
    while k < ms.len()
        invariant
            k <= ms.len(),
            all == ms.deep_view(),
            seen.deep_view().no_duplicates(),
            seen.deep_view().to_set() == start + hosted_repositories(all.take(k as int)),
        decreases ms.len() - k,
    {
        note_repository(seen, &ms[k].repository);
        proof {
            let prev = all.take(k as int);
            let next = all.take(k + 1);
            let name = ms@[k as int].repository@;
            assert(all[k as int].repository == name);
            assert forall|r: Seq<char>| hosted_repositories(next).contains(r) implies (
            hosted_repositories(prev).insert(name)).contains(r) by {
                let i = choose|i: int| 0 <= i < next.len() && #[trigger] next[i].repository == r;
                if i < k {
                    assert(prev[i].repository == r);
                }
            }
            assert forall|r: Seq<char>| (hosted_repositories(prev).insert(name)).contains(
                r,
            ) implies hosted_repositories(next).contains(r) by {
                if r == name {
                    assert(next[k as int].repository == r);
                } else {
                    let i = choose|i: int|
                        0 <= i < prev.len() && #[trigger] prev[i].repository == r;
                    assert(next[i].repository == r);
                }
            }
            assert(hosted_repositories(next) =~= hosted_repositories(prev).insert(name));
            assert((start + hosted_repositories(prev)).insert(name) =~= start
                + hosted_repositories(next));
        }
        k += 1;
    }
    assert(all.take(k as int) =~= all);
}

impl Summary {
    /// Counts the references of each family in each category, and the source
    /// collections that contributed at least one reference.
    pub fn calculate(source_code: &NimFindings, actions_workflow: &NimFindings) -> (r: Summary)
        requires
            source_code@.local_nim.len() + actions_workflow@.local_nim.len() <= usize::MAX,
            source_code@.hosted_nim.len() + actions_workflow@.hosted_nim.len() <= usize::MAX,
        ensures
            r.source_code.local_nim == source_code@.local_nim.len(),
            r.source_code.hosted_nim == source_code@.hosted_nim.len(),
            r.actions_workflow.local_nim == actions_workflow@.local_nim.len(),
            r.actions_workflow.hosted_nim == actions_workflow@.hosted_nim.len(),
            r.total_local_nim == source_code@.local_nim.len() + actions_workflow@.local_nim.len(),
            r.total_hosted_nim == source_code@.hosted_nim.len()
                + actions_workflow@.hosted_nim.len(),
            repositories(source_code@, actions_workflow@).finite(),
            r.repos_with_nim == repositories(source_code@, actions_workflow@).len(),
    {
        let mut seen: Vec<String> = Vec::new();
        assert(seen.deep_view() =~= Seq::empty());
        assert(seen.deep_view().to_set() =~= Set::empty());
        note_local(&mut seen, &source_code.local_nim);
        note_hosted(&mut seen, &source_code.hosted_nim);
        note_local(&mut seen, &actions_workflow.local_nim);
        note_hosted(&mut seen, &actions_workflow.hosted_nim);
        proof {
            assert(seen.deep_view().to_set() =~= repositories(source_code@, actions_workflow@));
            seen.deep_view().unique_seq_to_set();
        }
        Summary {
            total_local_nim: source_code.local_nim.len() + actions_workflow.local_nim.len(),
            total_hosted_nim: source_code.hosted_nim.len() + actions_workflow.hosted_nim.len(),
            repos_with_nim: seen.len(),
            source_code: CategorySummary {
                local_nim: source_code.local_nim.len(),
                hosted_nim: source_code.hosted_nim.len(),
            },
            actions_workflow: CategorySummary {
                local_nim: actions_workflow.local_nim.len(),
                hosted_nim: actions_workflow.hosted_nim.len(),
            },
        }
    }
}

} // verus!
