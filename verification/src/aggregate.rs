//! Grouping findings by what they refer to.

use vstd::prelude::*;
use crate::models::{
    AggregatedFindings, AggregatedFindingsView, AggregatedHostedNim, AggregatedHostedNimView,
    AggregatedLocalNim, AggregatedLocalNimView, HostedNimMatch, HostedNimMatchView, LocalNimMatch,
    LocalNimMatchView, NimFindings, NimFindingsView, NimLocation, NimLocationView, SourceType,
};
use crate::seqs::{first_index, lemma_filter_none, lemma_first_index_is, lemma_first_index_props};
use crate::text::{concat, copy_opt, decimal, usize_to_string};

verus! {

/// The place of a container reference, under its category's label.
pub open spec fn local_location(m: LocalNimMatchView, category: SourceType) -> NimLocationView {
    NimLocationView {
        source_type: category.label(),
        repository: m.repository,
        file_path: m.file_path,
        line_number: m.line_number,
        match_context: m.match_context,
    }
}

/// Whether an entry stands for the image and tag of a reference.
pub open spec fn same_image(e: AggregatedLocalNimView, m: LocalNimMatchView) -> bool {
    e.image_url == m.image_url && e.tag == m.tag
}

/// The test for the entries of a reference's image and tag.
pub open spec fn image_test(m: LocalNimMatchView) -> spec_fn(AggregatedLocalNimView) -> bool {
    |e: AggregatedLocalNimView| same_image(e, m)
}

/// The entries after one more container reference: its place joins the
/// first entry of its image and tag, or opens a new entry at the end.
pub open spec fn merge_local(
    entries: Seq<AggregatedLocalNimView>,
    m: LocalNimMatchView,
    category: SourceType,
) -> Seq<AggregatedLocalNimView> {
    let i = first_index(entries, image_test(m)) as int;
    let place = local_location(m, category);
    if i < entries.len() {
        entries.update(
            i,
            AggregatedLocalNimView { locations: entries[i].locations.push(place), ..entries[i] },
        )
    } else {
        entries.push(
            AggregatedLocalNimView {
                image_url: m.image_url,
                tag: m.tag,
                resolved_tag: m.resolved_tag,
                locations: seq![place],
            },
        )
    }
}

/// The entries after a run of container references of one category.
pub open spec fn merge_all_local(
    entries: Seq<AggregatedLocalNimView>,
    ms: Seq<LocalNimMatchView>,
    category: SourceType,
) -> Seq<AggregatedLocalNimView>
    decreases ms.len(),
{
    if ms.len() == 0 {
        entries
    } else {
        merge_local(merge_all_local(entries, ms.drop_last(), category), ms.last(), category)
    }
}

fn location_of_local(m: &LocalNimMatch, category: SourceType) -> (r: NimLocation)
    ensures
        r@ == local_location(m@, category),
{
    NimLocation {
        source_type: String::from_str(category.as_str()),
        repository: m.repository.clone(),
        file_path: m.file_path.clone(),
        line_number: m.line_number,
        match_context: m.match_context.clone(),
    }
}

fn find_local(entries: &Vec<AggregatedLocalNim>, m: &LocalNimMatch) -> (i: usize)
    ensures
        i == first_index(entries.deep_view(), image_test(m@)),
        i <= entries.len(),
{
    let ghost views = entries.deep_view();
    let mut i: usize = 0;
    while i < entries.len()
        invariant
            i <= entries.len(),
            views == entries.deep_view(),
            forall|j: int| 0 <= j < i ==> !same_image(#[trigger] views[j], m@),
        decreases entries.len() - i,
    {
        if entries[i].image_url == m.image_url && entries[i].tag == m.tag {
            proof {
                lemma_first_index_is(views, image_test(m@), i as int);
            }
            return i;
        }
        i += 1;
    }
    proof {
        lemma_first_index_is(views, image_test(m@), i as int);
    }
    i
}

fn add_local(entries: &mut Vec<AggregatedLocalNim>, m: &LocalNimMatch, category: SourceType)
    ensures
        final(entries).deep_view() == merge_local(old(entries).deep_view(), m@, category),
{
    let ghost before = entries.deep_view();
    let ghost expected = merge_local(before, m@, category);
    let place = location_of_local(m, category);
    let ghost added = place@;
    let i = find_local(entries, m);
    if i < entries.len() {
        let ghost prior = entries@[i as int];
        assert(before[i as int] == prior@);
        entries[i].locations.push(place);
        assert(entries@[i as int].locations@ == prior.locations@.push(place));
        assert(entries@[i as int].locations.deep_view() =~= prior@.locations.push(added));
        assert(forall|j: int|
            0 <= j < entries@.len() && j != i ==> entries@[j] == old(entries)@[j]);
        assert(entries@[i as int].image_url == prior.image_url);
        assert(entries@[i as int].tag == prior.tag);
        assert(entries@[i as int].resolved_tag == prior.resolved_tag);
        assert(entries@[i as int]@ == expected[i as int]);
        assert(entries.deep_view() =~= expected);
    } else {
        let mut locations = Vec::new();
        locations.push(place);
        let entry = AggregatedLocalNim {
            image_url: m.image_url.clone(),
            tag: m.tag.clone(),
            resolved_tag: copy_opt(&m.resolved_tag),
            locations,
        };
        assert(entry.locations.deep_view() =~= seq![added]);
        entries.push(entry);
        assert(entries.deep_view() =~= expected);
    }
}

fn add_all_local(
    entries: &mut Vec<AggregatedLocalNim>,
    ms: &Vec<LocalNimMatch>,
    category: SourceType,
)
    ensures
        final(entries).deep_view() == merge_all_local(
            old(entries).deep_view(),
            ms.deep_view(),
            category,
        ),
{
    let ghost start = entries.deep_view();
    let ghost all = ms.deep_view();
    let mut k: usize = 0;
    while k < ms.len()
        invariant
            k <= ms.len(),
            all == ms.deep_view(),
            entries.deep_view() == merge_all_local(start, all.take(k as int), category),
        decreases ms.len() - k,
    {
        add_local(entries, &ms[k], category);
        proof {
            let next = all.take(k + 1);
            assert(next.drop_last() =~= all.take(k as int));
            assert(next.last() == ms@[k as int]@);
        }
        k += 1;
    }
    assert(all.take(k as int) =~= all);
}

// ----------------------------------------------------------------------------
// Hosted references
// ----------------------------------------------------------------------------
/// What a hosted reference is grouped by: its model, else its endpoint, else
/// a key made from its line.
pub open spec fn hosted_key(m: HostedNimMatchView) -> Seq<char> {
    match m.model_name {
        Some(name) => name,
        None => match m.endpoint_url {
            Some(url) => url,
            None => "unknown-"@ + decimal(m.line_number),
        },
    }
}

/// The place of a hosted reference, under its category's label.
pub open spec fn hosted_location(m: HostedNimMatchView, category: SourceType) -> NimLocationView {
    NimLocationView {
        source_type: category.label(),
        repository: m.repository,
        file_path: m.file_path,
        line_number: m.line_number,
        match_context: m.match_context,
    }
}

/// The groups of hosted references: the key of each group, and beside it the
/// group's entry.
pub ghost struct HostedGroups {
    pub keys: Seq<Seq<char>>,
    pub entries: Seq<AggregatedHostedNimView>,
}

/// The test for a key.
pub open spec fn key_test(key: Seq<char>) -> spec_fn(Seq<char>) -> bool {
    |k: Seq<char>| k == key
}

/// The groups after one more hosted reference: its place joins the group of
/// its key, or opens a new group at the end, which takes the reference's
/// endpoint, model and looked-up fields.
pub open spec fn merge_hosted(
    groups: HostedGroups,
    m: HostedNimMatchView,
    category: SourceType,
) -> HostedGroups {
    let key = hosted_key(m);
    let i = first_index(groups.keys, key_test(key)) as int;
    let place = hosted_location(m, category);
    if i < groups.keys.len() {
        HostedGroups {
            keys: groups.keys,
            entries: groups.entries.update(
                i,
                AggregatedHostedNimView {
                    locations: groups.entries[i].locations.push(place),
                    ..groups.entries[i]
                },
            ),
        }
    } else {
        HostedGroups {
            keys: groups.keys.push(key),
            entries: groups.entries.push(
                AggregatedHostedNimView {
                    endpoint_url: m.endpoint_url,
                    model_name: m.model_name,
                    function_id: m.function_id,
                    status: m.status,
                    container_image: m.container_image,
                    locations: seq![place],
                },
            ),
        }
    }
}

/// The groups after a run of hosted references of one category.
pub open spec fn merge_all_hosted(
    groups: HostedGroups,
    ms: Seq<HostedNimMatchView>,
    category: SourceType,
) -> HostedGroups
    decreases ms.len(),
{
    if ms.len() == 0 {
        groups
    } else {
        merge_hosted(merge_all_hosted(groups, ms.drop_last(), category), ms.last(), category)
    }
}

/// No groups.
pub open spec fn no_groups() -> HostedGroups {
    HostedGroups { keys: Seq::empty(), entries: Seq::empty() }
}

/// The groups of the hosted references of both categories: ordinary source
/// first, workflow files after it.
pub open spec fn hosted_groups(
    source_code: NimFindingsView,
    actions_workflow: NimFindingsView,
) -> HostedGroups {
    merge_all_hosted(
        merge_all_hosted(no_groups(), source_code.hosted_nim, SourceType::SourceCode),
        actions_workflow.hosted_nim,
        SourceType::ActionsWorkflow,
    )
}

/// The aggregated view of the findings of both categories: ordinary source
/// first, workflow files after it.
pub open spec fn aggregate(
    source_code: NimFindingsView,
    actions_workflow: NimFindingsView,
) -> AggregatedFindingsView {
    AggregatedFindingsView {
        local_nim: merge_all_local(
            merge_all_local(Seq::empty(), source_code.local_nim, SourceType::SourceCode),
            actions_workflow.local_nim,
            SourceType::ActionsWorkflow,
        ),
        hosted_nim: hosted_groups(source_code, actions_workflow).entries,
    }
}

fn key_of_hosted(m: &HostedNimMatch) -> (r: String)
    ensures
        r@ == hosted_key(m@),
{
    match &m.model_name {
        Some(name) => name.clone(),
        None => match &m.endpoint_url {
            Some(url) => url.clone(),
            None => {
                let number = usize_to_string(m.line_number);
                concat("unknown-", number.as_str())
            },
        },
    }
}

fn location_of_hosted(m: &HostedNimMatch, category: SourceType) -> (r: NimLocation)
    ensures
        r@ == hosted_location(m@, category),
{
    NimLocation {
        source_type: String::from_str(category.as_str()),
        repository: m.repository.clone(),
        file_path: m.file_path.clone(),
        line_number: m.line_number,
        match_context: m.match_context.clone(),
    }
}

fn find_key(keys: &Vec<String>, key: &String) -> (i: usize)
    ensures
        i == first_index(keys.deep_view(), key_test(key@)),
        i <= keys.len(),
{
    let ghost views = keys.deep_view();
    let mut i: usize = 0;
    while i < keys.len()
        invariant
            i <= keys.len(),
            views == keys.deep_view(),
            forall|j: int| 0 <= j < i ==> #[trigger] views[j] != key@,
        decreases keys.len() - i,
    {
        if keys[i] == *key {
            proof {
                lemma_first_index_is(views, key_test(key@), i as int);
            }
            return i;
        }
        i += 1;
    }
    proof {
        lemma_first_index_is(views, key_test(key@), i as int);
    }
    i
}

fn add_hosted(
    keys: &mut Vec<String>,
    entries: &mut Vec<AggregatedHostedNim>,
    m: &HostedNimMatch,
    category: SourceType,
)
    requires
        old(keys).len() == old(entries).len(),
    ensures
        final(keys).len() == final(entries).len(),
        (HostedGroups { keys: final(keys).deep_view(), entries: final(entries).deep_view() })
            == merge_hosted(
            HostedGroups { keys: old(keys).deep_view(), entries: old(entries).deep_view() },
            m@,
            category,
        ),
{
    let ghost before = HostedGroups { keys: keys.deep_view(), entries: entries.deep_view() };
    let ghost expected = merge_hosted(before, m@, category);
    let key = key_of_hosted(m);
    let place = location_of_hosted(m, category);
    let ghost added = place@;
    let i = find_key(keys, &key);
    if i < keys.len() {
        let ghost prior = entries@[i as int];
        assert(before.entries[i as int] == prior@);
        entries[i].locations.push(place);
        assert(entries@[i as int].locations@ == prior.locations@.push(place));
        assert(entries@[i as int].locations.deep_view() =~= prior@.locations.push(added));
        assert(forall|j: int|
            0 <= j < entries@.len() && j != i ==> entries@[j] == old(entries)@[j]);
        assert(entries@[i as int].endpoint_url == prior.endpoint_url);
        assert(entries@[i as int].model_name == prior.model_name);
        assert(entries@[i as int].function_id == prior.function_id);
        assert(entries@[i as int].status == prior.status);
        assert(entries@[i as int].container_image == prior.container_image);
        assert(entries@[i as int]@ == expected.entries[i as int]);
        assert(entries.deep_view() =~= expected.entries);
    } else {
        let mut locations = Vec::new();
        locations.push(place);
        let entry = AggregatedHostedNim {
            endpoint_url: copy_opt(&m.endpoint_url),
            model_name: copy_opt(&m.model_name),
            function_id: copy_opt(&m.function_id),
            status: copy_opt(&m.status),
            container_image: copy_opt(&m.container_image),
            locations,
        };
        assert(entry.locations.deep_view() =~= seq![added]);
        keys.push(key);
        entries.push(entry);
        assert(keys.deep_view() =~= expected.keys);
        assert(entries.deep_view() =~= expected.entries);
    }
}

fn add_all_hosted(
    keys: &mut Vec<String>,
    entries: &mut Vec<AggregatedHostedNim>,
    ms: &Vec<HostedNimMatch>,
    category: SourceType,
)
    requires
        old(keys).len() == old(entries).len(),
    ensures
        final(keys).len() == final(entries).len(),
        (HostedGroups { keys: final(keys).deep_view(), entries: final(entries).deep_view() })
            == merge_all_hosted(
            HostedGroups { keys: old(keys).deep_view(), entries: old(entries).deep_view() },
            ms.deep_view(),
            category,
        ),
{
    let ghost start = HostedGroups { keys: keys.deep_view(), entries: entries.deep_view() };
    let ghost all = ms.deep_view();
    let mut k: usize = 0;
    while k < ms.len()
        invariant
            k <= ms.len(),
            all == ms.deep_view(),
            keys.len() == entries.len(),
            (HostedGroups { keys: keys.deep_view(), entries: entries.deep_view() })
                == merge_all_hosted(start, all.take(k as int), category),
        decreases ms.len() - k,
    {
        add_hosted(keys, entries, &ms[k], category);
        proof {
            let next = all.take(k + 1);
            assert(next.drop_last() =~= all.take(k as int));
            assert(next.last() == ms@[k as int]@);
        }
        k += 1;
    }
    assert(all.take(k as int) =~= all);
}

impl AggregatedFindings {
    /// Groups the findings of both categories by what they refer to.
    ///
    /// Container references are grouped by image and tag, hosted references by
    /// model, else endpoint. A group stands where its first reference was
    /// seen and keeps that reference's looked-up fields; the places of a
    /// group follow the order of the findings, ordinary source first.
    pub fn from_findings(source_code: &NimFindings, actions_workflow: &NimFindings) -> (r:
        AggregatedFindings)
        ensures
            r@ == aggregate(source_code@, actions_workflow@),
    {
        let mut local_nim: Vec<AggregatedLocalNim> = Vec::new();
        assert(local_nim.deep_view() =~= Seq::empty());
        add_all_local(&mut local_nim, &source_code.local_nim, SourceType::SourceCode);
        add_all_local(&mut local_nim, &actions_workflow.local_nim, SourceType::ActionsWorkflow);
        let mut keys: Vec<String> = Vec::new();
        let mut hosted_nim: Vec<AggregatedHostedNim> = Vec::new();
        assert(keys.deep_view() =~= Seq::empty());
        assert(hosted_nim.deep_view() =~= Seq::empty());
        add_all_hosted(&mut keys, &mut hosted_nim, &source_code.hosted_nim, SourceType::SourceCode);
        add_all_hosted(
            &mut keys,
            &mut hosted_nim,
            &actions_workflow.hosted_nim,
            SourceType::ActionsWorkflow,
        );
        AggregatedFindings { local_nim, hosted_nim }
    }
}

/// Two container references of one image and tag make one entry with two
/// places, whichever comes first, and also where one is found in ordinary
/// source and the other in a workflow file.
pub proof fn lemma_same_image_one_entry(a: LocalNimMatchView, b: LocalNimMatchView)
    requires
        a.image_url == b.image_url,
        a.tag == b.tag,
    ensures
        aggregate(
            NimFindingsView { local_nim: seq![a, b], hosted_nim: Seq::empty() },
            NimFindingsView::empty(),
        ).local_nim == seq![
            AggregatedLocalNimView {
                image_url: a.image_url,
                tag: a.tag,
                resolved_tag: a.resolved_tag,
                locations: seq![
                    local_location(a, SourceType::SourceCode),
                    local_location(b, SourceType::SourceCode),
                ],
            },
        ],
        aggregate(
            NimFindingsView { local_nim: seq![b, a], hosted_nim: Seq::empty() },
            NimFindingsView::empty(),
        ).local_nim == seq![
            AggregatedLocalNimView {
                image_url: a.image_url,
                tag: a.tag,
                resolved_tag: b.resolved_tag,
                locations: seq![
                    local_location(b, SourceType::SourceCode),
                    local_location(a, SourceType::SourceCode),
                ],
            },
        ],
        aggregate(
            NimFindingsView { local_nim: seq![a], hosted_nim: Seq::empty() },
            NimFindingsView { local_nim: seq![b], hosted_nim: Seq::empty() },
        ).local_nim == seq![
            AggregatedLocalNimView {
                image_url: a.image_url,
                tag: a.tag,
                resolved_tag: a.resolved_tag,
                locations: seq![
                    local_location(a, SourceType::SourceCode),
                    local_location(b, SourceType::ActionsWorkflow),
                ],
            },
        ],
{
    lemma_pair_merges(a, b, SourceType::SourceCode, SourceType::SourceCode);
    lemma_pair_merges(b, a, SourceType::SourceCode, SourceType::SourceCode);
    lemma_pair_merges(a, b, SourceType::SourceCode, SourceType::ActionsWorkflow);
    let none = Seq::<LocalNimMatchView>::empty();
    let e = Seq::<AggregatedLocalNimView>::empty();
    reveal_with_fuel(merge_all_local, 3);
    assert(seq![a, b].drop_last() =~= seq![a]);
    assert(seq![b, a].drop_last() =~= seq![b]);
    assert(seq![a].drop_last() =~= none);
    assert(seq![b].drop_last() =~= none);
    assert(merge_all_local(e, seq![a], SourceType::SourceCode) == merge_local(
        e,
        a,
        SourceType::SourceCode,
    ));
    assert(merge_all_local(e, seq![b], SourceType::SourceCode) == merge_local(
        e,
        b,
        SourceType::SourceCode,
    ));
    assert(merge_all_local(e, seq![a, b], SourceType::SourceCode) == merge_local(
        merge_local(e, a, SourceType::SourceCode),
        b,
        SourceType::SourceCode,
    ));
    assert(merge_all_local(e, seq![b, a], SourceType::SourceCode) == merge_local(
        merge_local(e, b, SourceType::SourceCode),
        a,
        SourceType::SourceCode,
    ));
    let one = merge_local(e, a, SourceType::SourceCode);
    assert(merge_all_local(one, seq![b], SourceType::ActionsWorkflow) == merge_local(
        one,
        b,
        SourceType::ActionsWorkflow,
    ));
}

/// One reference after another of the same image and tag, from no entries.
proof fn lemma_pair_merges(
    a: LocalNimMatchView,
    b: LocalNimMatchView,
    ca: SourceType,
    cb: SourceType,
)
    requires
        a.image_url == b.image_url,
        a.tag == b.tag,
    ensures
        merge_local(merge_local(Seq::empty(), a, ca), b, cb) == seq![
            AggregatedLocalNimView {
                image_url: a.image_url,
                tag: a.tag,
                resolved_tag: a.resolved_tag,
                locations: seq![local_location(a, ca), local_location(b, cb)],
            },
        ],
{
    let e = Seq::<AggregatedLocalNimView>::empty();
    lemma_first_index_is(e, image_test(a), 0);
    let one = merge_local(e, a, ca);
    assert(one =~= seq![
        AggregatedLocalNimView {
            image_url: a.image_url,
            tag: a.tag,
            resolved_tag: a.resolved_tag,
            locations: seq![local_location(a, ca)],
        },
    ]);
    assert(same_image(one[0], b));
    lemma_first_index_is(one, image_test(b), 0);
    let two = merge_local(one, b, cb);
    assert(two[0].locations =~= seq![local_location(a, ca), local_location(b, cb)]);
    assert(two =~= seq![
        AggregatedLocalNimView {
            image_url: a.image_url,
            tag: a.tag,
            resolved_tag: a.resolved_tag,
            locations: seq![local_location(a, ca), local_location(b, cb)],
        },
    ]);
}

// ----------------------------------------------------------------------------
// What grouping comes to
// ----------------------------------------------------------------------------
/// The test for the references to an image with a tag.
pub open spec fn image_is(image_url: Seq<char>, tag: Seq<char>) -> spec_fn(
    LocalNimMatchView,
) -> bool {
    |m: LocalNimMatchView| m.image_url == image_url && m.tag == tag
}

/// The places of a run of container references of one category.
pub open spec fn local_locations(ms: Seq<LocalNimMatchView>, category: SourceType) -> Seq<
    NimLocationView,
> {
    Seq::new(ms.len(), |i: int| local_location(ms[i], category))
}

/// Whether two entries stand for the same image and tag.
pub open spec fn same_entry(a: AggregatedLocalNimView, b: AggregatedLocalNimView) -> bool {
    a.image_url == b.image_url && a.tag == b.tag
}

/// Whether no two entries stand for the same image and tag.
pub open spec fn distinct_images(entries: Seq<AggregatedLocalNimView>) -> bool {
    forall|i: int, j: int|
        0 <= i < j < entries.len() ==> !#[trigger] same_entry(entries[i], entries[j])
}

/// Whether some entry stands for the image and tag of a reference.
pub open spec fn has_entry(entries: Seq<AggregatedLocalNimView>, m: LocalNimMatchView) -> bool {
    exists|i: int| 0 <= i < entries.len() && same_image(#[trigger] entries[i], m)
}

/// The references of a run that an entry stands for.
pub open spec fn group_of(
    ms: Seq<LocalNimMatchView>,
    e: AggregatedLocalNimView,
) -> Seq<LocalNimMatchView> {
    ms.filter(image_is(e.image_url, e.tag))
}

/// What a run of references of one category does to entries that stand for
/// different images: the entries that were there keep their place and take
/// the places of their references; behind them stands one new entry for each
/// image and tag that had none, made from the first reference to it.
proof fn lemma_merge_all_local(
    entries: Seq<AggregatedLocalNimView>,
    ms: Seq<LocalNimMatchView>,
    category: SourceType,
)
    requires
        distinct_images(entries),
    ensures
        distinct_images(merge_all_local(entries, ms, category)),
        merge_all_local(entries, ms, category).len() >= entries.len(),
        forall|i: int|
            0 <= i < entries.len() ==> #[trigger] merge_all_local(entries, ms, category)[i] == (
            AggregatedLocalNimView {
                locations: entries[i].locations + local_locations(
                    group_of(ms, entries[i]),
                    category,
                ),
                ..entries[i]
            }),
        forall|i: int|
            entries.len() <= i < merge_all_local(entries, ms, category).len() ==> {
                let e = #[trigger] merge_all_local(entries, ms, category)[i];
                &&& group_of(ms, e).len() > 0
                &&& e.resolved_tag == group_of(ms, e)[0].resolved_tag
                &&& e.locations == local_locations(group_of(ms, e), category)
            },
        forall|k: int|
            0 <= k < ms.len() ==> has_entry(merge_all_local(entries, ms, category), #[trigger] ms[k]),
    decreases ms.len(),
{
    let out = merge_all_local(entries, ms, category);
    if ms.len() == 0 {
        assert forall|i: int| 0 <= i < entries.len() implies #[trigger] out[i] == (
        AggregatedLocalNimView {
            locations: entries[i].locations + local_locations(group_of(ms, entries[i]), category),
            ..entries[i]
        }) by {
            let g = group_of(ms, entries[i]);
            ms.lemma_filter_len(image_is(entries[i].image_url, entries[i].tag));
            assert(entries[i].locations + local_locations(g, category) =~= entries[i].locations);
        }
    } else {
        let front = ms.drop_last();
        let m = ms.last();
        let mid = merge_all_local(entries, front, category);
        lemma_merge_all_local(entries, front, category);
        lemma_first_index_props(mid, image_test(m));
        let i0 = first_index(mid, image_test(m)) as int;
        let place = local_location(m, category);
        assert(front.push(m) =~= ms);
        assert(out == merge_local(mid, m, category));
        // how the group of an entry grows with the last reference
        assert forall|e: AggregatedLocalNimView| #[trigger]
            group_of(ms, e) == if same_image(e, m) {
                group_of(front, e).push(m)
            } else {
                group_of(front, e)
            } by {
            front.lemma_filter_push(m, image_is(e.image_url, e.tag));
        }
        assert forall|g: Seq<LocalNimMatchView>| #[trigger]
            local_locations(g.push(m), category) == local_locations(g, category).push(
                place,
            ) by {
            assert(local_locations(g.push(m), category) =~= local_locations(g, category).push(
                place,
            ));
        }
        if i0 < mid.len() {
            // the reference joins the entry at i0, the only one of its image and tag
            assert forall|i: int| 0 <= i < mid.len() && i != i0 implies !same_image(
                #[trigger] mid[i],
                m,
            ) by {
                if same_image(mid[i], m) {
                    if i < i0 {
                        assert(same_entry(mid[i], mid[i0]));
                    } else {
                        assert(same_entry(mid[i0], mid[i]));
                    }
                }
            }
            assert forall|i: int, j: int| 0 <= i < j < out.len() implies !#[trigger] same_entry(
                out[i],
                out[j],
            ) by {
                assert(same_entry(out[i], out[j]) == same_entry(mid[i], mid[j]));
            }
            assert forall|i: int| 0 <= i < entries.len() implies #[trigger] out[i] == (
            AggregatedLocalNimView {
                locations: entries[i].locations + local_locations(
                    group_of(ms, entries[i]),
                    category,
                ),
                ..entries[i]
            }) by {
                assert(same_image(mid[i], m) == same_image(entries[i], m));
                if i == i0 {
                    let g = group_of(front, entries[i]);
                    assert(out[i].locations =~= entries[i].locations + local_locations(
                        g.push(m),
                        category,
                    ));
                }
            }
            assert forall|i: int| entries.len() <= i < out.len() implies {
                let e = #[trigger] out[i];
                &&& group_of(ms, e).len() > 0
                &&& e.resolved_tag == group_of(ms, e)[0].resolved_tag
                &&& e.locations == local_locations(group_of(ms, e), category)
            } by {
                let e = out[i];
                assert(group_of(front, e) == group_of(front, mid[i]));
                assert(same_image(e, m) == same_image(mid[i], m));
            }
            assert forall|k: int| 0 <= k < ms.len() implies has_entry(out, #[trigger] ms[k]) by {
                if k < front.len() {
                    assert(ms[k] == front[k]);
                    let w = choose|w: int| 0 <= w < mid.len() && same_image(#[trigger] mid[w], front[k]);
                    assert(same_image(out[w], ms[k]));
                } else {
                    assert(same_image(out[i0], m));
                }
            }
        } else {
            // the reference opens a new entry: none stood for its image and tag
            let fresh = out[mid.len() as int];
            assert forall|i: int, j: int| 0 <= i < j < out.len() implies !#[trigger] same_entry(
                out[i],
                out[j],
            ) by {
                if j == mid.len() {
                    assert(!same_image(mid[i], m));
                } else {
                    assert(same_entry(out[i], out[j]) == same_entry(mid[i], mid[j]));
                }
            }
            assert forall|i: int| 0 <= i < entries.len() implies #[trigger] out[i] == (
            AggregatedLocalNimView {
                locations: entries[i].locations + local_locations(
                    group_of(ms, entries[i]),
                    category,
                ),
                ..entries[i]
            }) by {
                assert(!same_image(mid[i], m));
                assert(same_image(mid[i], m) == same_image(entries[i], m));
            }
            assert(group_of(front, fresh).len() == 0) by {
                assert forall|k: int| 0 <= k < front.len() implies !image_is(
                    fresh.image_url,
                    fresh.tag,
                )(#[trigger] front[k]) by {
                    if image_is(fresh.image_url, fresh.tag)(front[k]) {
                        assert(has_entry(mid, front[k]));
                        let w = choose|w: int|
                            0 <= w < mid.len() && same_image(#[trigger] mid[w], front[k]);
                        assert(same_image(mid[w], m));
                    }
                }
                lemma_filter_none(front, image_is(fresh.image_url, fresh.tag));
            }
            assert forall|i: int| entries.len() <= i < out.len() implies {
                let e = #[trigger] out[i];
                &&& group_of(ms, e).len() > 0
                &&& e.resolved_tag == group_of(ms, e)[0].resolved_tag
                &&& e.locations == local_locations(group_of(ms, e), category)
            } by {
                let e = out[i];
                if i < mid.len() {
                    assert(e == mid[i]);
                    assert(!same_image(mid[i], m));
                } else {
                    assert(same_image(e, m));
                    assert(group_of(front, e).push(m) =~= seq![m]);
                    assert(e.locations =~= local_locations(seq![m], category));
                }
            }
            assert forall|k: int| 0 <= k < ms.len() implies has_entry(out, #[trigger] ms[k]) by {
                if k < front.len() {
                    assert(ms[k] == front[k]);
                    let w = choose|w: int| 0 <= w < mid.len() && same_image(#[trigger] mid[w], front[k]);
                    assert(same_image(out[w], ms[k]));
                } else {
                    assert(same_image(out[mid.len() as int], m));
                }
            }
        }
    }
}

/// How many places the entries hold between them.
pub open spec fn local_place_count(entries: Seq<AggregatedLocalNimView>) -> nat
    decreases entries.len(),
{
    if entries.len() == 0 {
        0
    } else {
        local_place_count(entries.drop_last()) + entries.last().locations.len()
    }
}

/// Changing one entry changes the count by what that entry gains or loses.
proof fn lemma_local_count_update(
    entries: Seq<AggregatedLocalNimView>,
    i: int,
    e: AggregatedLocalNimView,
)
    requires
        0 <= i < entries.len(),
    ensures
        local_place_count(entries.update(i, e)) + entries[i].locations.len() == local_place_count(
            entries,
        ) + e.locations.len(),
    decreases entries.len(),
{
    let after = entries.update(i, e);
    if i == entries.len() - 1 {
        assert(after.drop_last() =~= entries.drop_last());
    } else {
        assert(after.drop_last() =~= entries.drop_last().update(i, e));
        lemma_local_count_update(entries.drop_last(), i, e);
    }
}

/// Every reference of a run adds one place.
proof fn lemma_merge_all_local_count(
    entries: Seq<AggregatedLocalNimView>,
    ms: Seq<LocalNimMatchView>,
    category: SourceType,
)
    ensures
        local_place_count(merge_all_local(entries, ms, category)) == local_place_count(entries)
            + ms.len(),
    decreases ms.len(),
{
    if ms.len() > 0 {
        let mid = merge_all_local(entries, ms.drop_last(), category);
        let m = ms.last();
        lemma_merge_all_local_count(entries, ms.drop_last(), category);
        lemma_first_index_props(mid, image_test(m));
        let i = first_index(mid, image_test(m)) as int;
        let out = merge_local(mid, m, category);
        if i < mid.len() {
            lemma_local_count_update(mid, i, out[i]);
        } else {
            assert(out.drop_last() =~= mid);
        }
    }
}

/// Grouping container references gives one entry for each image and tag
/// that is referred to, and no other. Between them the entries hold as many
/// places as there are references. The entry holds the place of every
/// reference to that image and tag, those in ordinary source before those in
/// workflow files and each run in its order, and the resolved tag of the
/// first of them.
pub proof fn lemma_local_groups(source_code: NimFindingsView, actions_workflow: NimFindingsView)
    ensures
        distinct_images(aggregate(source_code, actions_workflow).local_nim),
        local_place_count(aggregate(source_code, actions_workflow).local_nim)
            == source_code.local_nim.len() + actions_workflow.local_nim.len(),
        forall|i: int|
            0 <= i < aggregate(source_code, actions_workflow).local_nim.len() ==> {
                let e = #[trigger] aggregate(source_code, actions_workflow).local_nim[i];
                let first = group_of(source_code.local_nim, e);
                let second = group_of(actions_workflow.local_nim, e);
                &&& (first + second).len() > 0
                &&& e.resolved_tag == (first + second)[0].resolved_tag
                &&& e.locations == local_locations(first, SourceType::SourceCode)
                    + local_locations(second, SourceType::ActionsWorkflow)
            },
        forall|k: int|
            0 <= k < source_code.local_nim.len() ==> has_entry(
                aggregate(source_code, actions_workflow).local_nim,
                #[trigger] source_code.local_nim[k],
            ),
        forall|k: int|
            0 <= k < actions_workflow.local_nim.len() ==> has_entry(
                aggregate(source_code, actions_workflow).local_nim,
                #[trigger] actions_workflow.local_nim[k],
            ),
{
    let none = Seq::<AggregatedLocalNimView>::empty();
    let sc = source_code.local_nim;
    let wf = actions_workflow.local_nim;
    let one = merge_all_local(none, sc, SourceType::SourceCode);
    let out = merge_all_local(one, wf, SourceType::ActionsWorkflow);
    lemma_merge_all_local(none, sc, SourceType::SourceCode);
    lemma_merge_all_local(one, wf, SourceType::ActionsWorkflow);
    lemma_merge_all_local_count(none, sc, SourceType::SourceCode);
    lemma_merge_all_local_count(one, wf, SourceType::ActionsWorkflow);
    assert(out == aggregate(source_code, actions_workflow).local_nim);
    assert forall|i: int| 0 <= i < out.len() implies {
        let e = #[trigger] out[i];
        let first = group_of(sc, e);
        let second = group_of(wf, e);
        &&& (first + second).len() > 0
        &&& e.resolved_tag == (first + second)[0].resolved_tag
        &&& e.locations == local_locations(first, SourceType::SourceCode) + local_locations(
            second,
            SourceType::ActionsWorkflow,
        )
    } by {
        let e = out[i];
        if i < one.len() {
            assert(group_of(sc, e) == group_of(sc, one[i]));
            assert(group_of(wf, e) == group_of(wf, one[i]));
            assert((group_of(sc, e) + group_of(wf, e))[0] == group_of(sc, e)[0]);
        } else {
            assert(group_of(sc, e).len() == 0) by {
                assert forall|k: int| 0 <= k < sc.len() implies !image_is(e.image_url, e.tag)(
                    #[trigger] sc[k],
                ) by {
                    if image_is(e.image_url, e.tag)(sc[k]) {
                        assert(has_entry(one, sc[k]));
                        let w = choose|w: int|
                            0 <= w < one.len() && same_image(#[trigger] one[w], sc[k]);
                        assert(same_entry(out[w], out[i]));
                    }
                }
                lemma_filter_none(sc, image_is(e.image_url, e.tag));
            }
            assert(group_of(sc, e) + group_of(wf, e) =~= group_of(wf, e));
            assert(local_locations(group_of(sc, e), SourceType::SourceCode) + local_locations(
                group_of(wf, e),
                SourceType::ActionsWorkflow,
            ) =~= local_locations(group_of(wf, e), SourceType::ActionsWorkflow));
        }
    }
    assert forall|k: int| 0 <= k < sc.len() implies has_entry(out, #[trigger] sc[k]) by {
        let w = choose|w: int| 0 <= w < one.len() && same_image(#[trigger] one[w], sc[k]);
        assert(same_image(out[w], sc[k]));
    }
}

/// The test for the hosted references that are grouped under a key.
pub open spec fn key_is(key: Seq<char>) -> spec_fn(HostedNimMatchView) -> bool {
    |m: HostedNimMatchView| hosted_key(m) == key
}

/// The places of a run of hosted references of one category.
pub open spec fn hosted_locations(ms: Seq<HostedNimMatchView>, category: SourceType) -> Seq<
    NimLocationView,
> {
    Seq::new(ms.len(), |i: int| hosted_location(ms[i], category))
}

/// Whether groups are well formed: every entry has its key, and no key
/// occurs twice.
pub open spec fn well_grouped(groups: HostedGroups) -> bool {
    groups.keys.len() == groups.entries.len() && groups.keys.no_duplicates()
}

/// Whether an entry holds what a hosted reference tells of its endpoint,
/// model and function.
pub open spec fn made_from(e: AggregatedHostedNimView, m: HostedNimMatchView) -> bool {
    &&& e.endpoint_url == m.endpoint_url
    &&& e.model_name == m.model_name
    &&& e.function_id == m.function_id
    &&& e.status == m.status
    &&& e.container_image == m.container_image
}

/// What a run of hosted references of one category does to well-formed
/// groups: the groups that were there keep their place and take the places
/// of their references; behind them stands one new group for each key that
/// had none, made from the first reference with it.
proof fn lemma_merge_all_hosted(
    groups: HostedGroups,
    ms: Seq<HostedNimMatchView>,
    category: SourceType,
)
    requires
        well_grouped(groups),
    ensures
        well_grouped(merge_all_hosted(groups, ms, category)),
        merge_all_hosted(groups, ms, category).keys.len() >= groups.keys.len(),
        forall|i: int|
            0 <= i < groups.keys.len() ==> #[trigger] merge_all_hosted(
                groups,
                ms,
                category,
            ).keys[i] == groups.keys[i],
        forall|i: int|
            0 <= i < groups.keys.len() ==> #[trigger] merge_all_hosted(
                groups,
                ms,
                category,
            ).entries[i] == (AggregatedHostedNimView {
                locations: groups.entries[i].locations + hosted_locations(
                    ms.filter(key_is(groups.keys[i])),
                    category,
                ),
                ..groups.entries[i]
            }),
        forall|i: int|
            groups.keys.len() <= i < merge_all_hosted(groups, ms, category).keys.len() ==> {
                let e = #[trigger] merge_all_hosted(groups, ms, category).entries[i];
                let members = ms.filter(key_is(merge_all_hosted(groups, ms, category).keys[i]));
                &&& members.len() > 0
                &&& made_from(e, members[0])
                &&& e.locations == hosted_locations(members, category)
            },
        forall|k: int|
            0 <= k < ms.len() ==> merge_all_hosted(groups, ms, category).keys.contains(
                hosted_key(#[trigger] ms[k]),
            ),
    decreases ms.len(),
{
    let out = merge_all_hosted(groups, ms, category);
    if ms.len() == 0 {
        assert forall|i: int| 0 <= i < groups.keys.len() implies #[trigger] out.entries[i] == (
        AggregatedHostedNimView {
            locations: groups.entries[i].locations + hosted_locations(
                ms.filter(key_is(groups.keys[i])),
                category,
            ),
            ..groups.entries[i]
        }) by {
            ms.lemma_filter_len(key_is(groups.keys[i]));
            assert(groups.entries[i].locations + hosted_locations(
                ms.filter(key_is(groups.keys[i])),
                category,
            ) =~= groups.entries[i].locations);
        }
    } else {
        let front = ms.drop_last();
        let m = ms.last();
        let key = hosted_key(m);
        let mid = merge_all_hosted(groups, front, category);
        lemma_merge_all_hosted(groups, front, category);
        lemma_first_index_props(mid.keys, key_test(key));
        let i0 = first_index(mid.keys, key_test(key)) as int;
        let place = hosted_location(m, category);
        assert(front.push(m) =~= ms);
        assert(out == merge_hosted(mid, m, category));
        assert forall|k: Seq<char>| #[trigger]
            ms.filter(key_is(k)) == if key == k {
                front.filter(key_is(k)).push(m)
            } else {
                front.filter(key_is(k))
            } by {
            front.lemma_filter_push(m, key_is(k));
        }
        assert forall|g: Seq<HostedNimMatchView>| #[trigger]
            hosted_locations(g.push(m), category) == hosted_locations(g, category).push(
                place,
            ) by {
            assert(hosted_locations(g.push(m), category) =~= hosted_locations(g, category).push(
                place,
            ));
        }
        if i0 < mid.keys.len() {
            assert(out.keys == mid.keys);
            assert(mid.keys[i0] == key);
            assert forall|i: int| 0 <= i < mid.keys.len() && i != i0 implies #[trigger] mid.keys[i]
                != key by {}
            assert forall|i: int| 0 <= i < groups.keys.len() implies #[trigger] out.entries[i] == (
            AggregatedHostedNimView {
                locations: groups.entries[i].locations + hosted_locations(
                    ms.filter(key_is(groups.keys[i])),
                    category,
                ),
                ..groups.entries[i]
            }) by {
                assert(mid.keys[i] == groups.keys[i]);
                if i == i0 {
                    let g = front.filter(key_is(key));
                    assert(out.entries[i].locations =~= groups.entries[i].locations
                        + hosted_locations(g.push(m), category));
                }
            }
            assert forall|i: int| groups.keys.len() <= i < out.keys.len() implies {
                let e = #[trigger] out.entries[i];
                let members = ms.filter(key_is(out.keys[i]));
                &&& members.len() > 0
                &&& made_from(e, members[0])
                &&& e.locations == hosted_locations(members, category)
            } by {
                let before = mid.entries[i];
                assert(made_from(before, front.filter(key_is(mid.keys[i]))[0]));
            }
            assert forall|k: int| 0 <= k < ms.len() implies out.keys.contains(
                hosted_key(#[trigger] ms[k]),
            ) by {
                if k < front.len() {
                    assert(ms[k] == front[k]);
                }
            }
        } else {
            assert(out.keys == mid.keys.push(key));
            assert(!mid.keys.contains(key));
            assert forall|i: int, j: int|
                0 <= i < out.keys.len() && 0 <= j < out.keys.len() && i != j implies out.keys[i]
                != out.keys[j] by {
                if i < mid.keys.len() && j < mid.keys.len() {
                    assert(mid.keys[i] != mid.keys[j]);
                }
            }
            assert forall|i: int| 0 <= i < groups.keys.len() implies #[trigger] out.entries[i] == (
            AggregatedHostedNimView {
                locations: groups.entries[i].locations + hosted_locations(
                    ms.filter(key_is(groups.keys[i])),
                    category,
                ),
                ..groups.entries[i]
            }) by {
                assert(mid.keys[i] == groups.keys[i]);
                assert(mid.keys[i] != key);
            }
            assert(front.filter(key_is(key)).len() == 0) by {
                assert forall|k: int| 0 <= k < front.len() implies !key_is(key)(
                    #[trigger] front[k],
                ) by {
                    if hosted_key(front[k]) == key {
                        assert(mid.keys.contains(hosted_key(front[k])));
                    }
                }
                lemma_filter_none(front, key_is(key));
            }
            assert forall|i: int| groups.keys.len() <= i < out.keys.len() implies {
                let e = #[trigger] out.entries[i];
                let members = ms.filter(key_is(out.keys[i]));
                &&& members.len() > 0
                &&& made_from(e, members[0])
                &&& e.locations == hosted_locations(members, category)
            } by {
                if i < mid.keys.len() {
                    assert(out.entries[i] == mid.entries[i]);
                    assert(mid.keys[i] != key);
                } else {
                    assert(front.filter(key_is(key)).push(m) =~= seq![m]);
                    assert(out.entries[i].locations =~= hosted_locations(seq![m], category));
                }
            }
            assert forall|k: int| 0 <= k < ms.len() implies out.keys.contains(
                hosted_key(#[trigger] ms[k]),
            ) by {
                if k < front.len() {
                    assert(ms[k] == front[k]);
                    let w = choose|w: int|
                        0 <= w < mid.keys.len() && mid.keys[w] == hosted_key(front[k]);
                    assert(out.keys[w] == hosted_key(ms[k]));
                } else {
                    assert(out.keys[mid.keys.len() as int] == key);
                }
            }
        }
    }
}

/// How many places the entries hold between them.
pub open spec fn hosted_place_count(entries: Seq<AggregatedHostedNimView>) -> nat
    decreases entries.len(),
{
    if entries.len() == 0 {
        0
    } else {
        hosted_place_count(entries.drop_last()) + entries.last().locations.len()
    }
}

/// Changing one entry changes the count by what that entry gains or loses.
proof fn lemma_hosted_count_update(
    entries: Seq<AggregatedHostedNimView>,
    i: int,
    e: AggregatedHostedNimView,
)
    requires
        0 <= i < entries.len(),
    ensures
        hosted_place_count(entries.update(i, e)) + entries[i].locations.len()
            == hosted_place_count(entries) + e.locations.len(),
    decreases entries.len(),
{
    let after = entries.update(i, e);
    if i == entries.len() - 1 {
        assert(after.drop_last() =~= entries.drop_last());
    } else {
        assert(after.drop_last() =~= entries.drop_last().update(i, e));
        lemma_hosted_count_update(entries.drop_last(), i, e);
    }
}

/// Every reference of a run adds one place.
proof fn lemma_merge_all_hosted_count(
    groups: HostedGroups,
    ms: Seq<HostedNimMatchView>,
    category: SourceType,
)
    requires
        groups.keys.len() == groups.entries.len(),
    ensures
        merge_all_hosted(groups, ms, category).keys.len() == merge_all_hosted(
            groups,
            ms,
            category,
        ).entries.len(),
        hosted_place_count(merge_all_hosted(groups, ms, category).entries) == hosted_place_count(
            groups.entries,
        ) + ms.len(),
    decreases ms.len(),
{
    if ms.len() > 0 {
        let mid = merge_all_hosted(groups, ms.drop_last(), category);
        let m = ms.last();
        lemma_merge_all_hosted_count(groups, ms.drop_last(), category);
        lemma_first_index_props(mid.keys, key_test(hosted_key(m)));
        let i = first_index(mid.keys, key_test(hosted_key(m))) as int;
        let out = merge_hosted(mid, m, category);
        if i < mid.keys.len() {
            lemma_hosted_count_update(mid.entries, i, out.entries[i]);
        } else {
            assert(out.entries.drop_last() =~= mid.entries);
        }
    }
}

/// Grouping hosted references gives one entry for each key, the key of a
/// reference being its model, else its endpoint, else made from its line.
/// The entry holds the place of every reference with that key, those in
/// ordinary source before those in workflow files and each run in its
/// order, and the endpoint, model and function of the first of them.
/// Between them the entries hold as many places as there are references.
pub proof fn lemma_hosted_groups(source_code: NimFindingsView, actions_workflow: NimFindingsView)
    ensures
        well_grouped(hosted_groups(source_code, actions_workflow)),
        hosted_place_count(aggregate(source_code, actions_workflow).hosted_nim)
            == source_code.hosted_nim.len() + actions_workflow.hosted_nim.len(),
        aggregate(source_code, actions_workflow).hosted_nim == hosted_groups(
            source_code,
            actions_workflow,
        ).entries,
        forall|i: int|
            0 <= i < hosted_groups(source_code, actions_workflow).keys.len() ==> {
                let e = #[trigger] hosted_groups(source_code, actions_workflow).entries[i];
                let key = hosted_groups(source_code, actions_workflow).keys[i];
                let first = source_code.hosted_nim.filter(key_is(key));
                let second = actions_workflow.hosted_nim.filter(key_is(key));
                &&& (first + second).len() > 0
                &&& made_from(e, (first + second)[0])
                &&& e.locations == hosted_locations(first, SourceType::SourceCode)
                    + hosted_locations(second, SourceType::ActionsWorkflow)
            },
        forall|k: int|
            0 <= k < source_code.hosted_nim.len() ==> hosted_groups(
                source_code,
                actions_workflow,
            ).keys.contains(hosted_key(#[trigger] source_code.hosted_nim[k])),
        forall|k: int|
            0 <= k < actions_workflow.hosted_nim.len() ==> hosted_groups(
                source_code,
                actions_workflow,
            ).keys.contains(hosted_key(#[trigger] actions_workflow.hosted_nim[k])),
{
    let sc = source_code.hosted_nim;
    let wf = actions_workflow.hosted_nim;
    let one = merge_all_hosted(no_groups(), sc, SourceType::SourceCode);
    let out = merge_all_hosted(one, wf, SourceType::ActionsWorkflow);
    lemma_merge_all_hosted(no_groups(), sc, SourceType::SourceCode);
    lemma_merge_all_hosted(one, wf, SourceType::ActionsWorkflow);
    lemma_merge_all_hosted_count(no_groups(), sc, SourceType::SourceCode);
    lemma_merge_all_hosted_count(one, wf, SourceType::ActionsWorkflow);
    assert(out == hosted_groups(source_code, actions_workflow));
    assert forall|i: int| 0 <= i < out.keys.len() implies {
        let e = #[trigger] out.entries[i];
        let key = out.keys[i];
        let first = sc.filter(key_is(key));
        let second = wf.filter(key_is(key));
        &&& (first + second).len() > 0
        &&& made_from(e, (first + second)[0])
        &&& e.locations == hosted_locations(first, SourceType::SourceCode) + hosted_locations(
            second,
            SourceType::ActionsWorkflow,
        )
    } by {
        let key = out.keys[i];
        let first = sc.filter(key_is(key));
        let second = wf.filter(key_is(key));
        if i < one.keys.len() {
            assert(out.keys[i] == one.keys[i]);
            assert(made_from(one.entries[i], first[0]));
            assert((first + second)[0] == first[0]);
        } else {
            assert(first.len() == 0) by {
                assert forall|k: int| 0 <= k < sc.len() implies !key_is(key)(#[trigger] sc[k]) by {
                    if hosted_key(sc[k]) == key {
                        assert(one.keys.contains(hosted_key(sc[k])));
                        let w = choose|w: int|
                            0 <= w < one.keys.len() && one.keys[w] == hosted_key(sc[k]);
                        assert(out.keys[w] == one.keys[w]);
                    }
                }
                lemma_filter_none(sc, key_is(key));
            }
            assert(first + second =~= second);
            assert(hosted_locations(first, SourceType::SourceCode) + hosted_locations(
                second,
                SourceType::ActionsWorkflow,
            ) =~= hosted_locations(second, SourceType::ActionsWorkflow));
        }
    }
    assert forall|k: int| 0 <= k < sc.len() implies out.keys.contains(
        hosted_key(#[trigger] sc[k]),
    ) by {
        let w = choose|w: int| 0 <= w < one.keys.len() && one.keys[w] == hosted_key(sc[k]);
        assert(out.keys[w] == one.keys[w]);
    }
}

} // verus!
