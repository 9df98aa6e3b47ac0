//! Putting a report together, and laying it out as a table.

use vstd::prelude::*;
use crate::aggregate::aggregate;
use crate::models::{
    AggregatedFindings, HostedNimMatch, HostedNimMatchView, LocalNimMatch, LocalNimMatchView,
    NimFindings, NimFindingsView, ScanReport, ScanReportView, SourceType, Summary,
};
use crate::scanner::text_or;
use crate::summary::repositories;
use crate::text::{decimal, usize_to_string};

verus! {

/// How a timestamp of universal time ends: with an offset of nothing.
pub open spec fn utc_offset() -> Seq<char> {
    "+00:00"@
}

/// `chrono::Utc::now`, written out by `DateTime::to_rfc3339`: the present
/// moment as a timestamp. Which moment is the clock's matter; whatever it is,
/// the timestamp ends with the offset of universal time. `Utc::now` gives up
/// on a clock that stands before 1970.
#[verifier::external_body]
fn now_rfc3339() -> (r: String)
    ensures
        utc_offset().is_suffix_of(r@),
{
    chrono::Utc::now().to_rfc3339()
}

/// Whether a summary holds the counts of these findings.
pub open spec fn summarizes(
    s: Summary,
    source_code: NimFindingsView,
    actions_workflow: NimFindingsView,
) -> bool {
    &&& s.source_code.local_nim == source_code.local_nim.len()
    &&& s.source_code.hosted_nim == source_code.hosted_nim.len()
    &&& s.actions_workflow.local_nim == actions_workflow.local_nim.len()
    &&& s.actions_workflow.hosted_nim == actions_workflow.hosted_nim.len()
    &&& s.total_local_nim == source_code.local_nim.len() + actions_workflow.local_nim.len()
    &&& s.total_hosted_nim == source_code.hosted_nim.len() + actions_workflow.hosted_nim.len()
    &&& s.repos_with_nim == repositories(source_code, actions_workflow).len()
}

/// Whether a report is the one of these findings: it holds them as they
/// are, grouped, and counted.
pub open spec fn reports(
    r: ScanReportView,
    total_repos: nat,
    source_code: NimFindingsView,
    actions_workflow: NimFindingsView,
) -> bool {
    &&& r.total_repos == total_repos
    &&& r.source_code == source_code
    &&& r.actions_workflow == actions_workflow
    &&& r.aggregated == aggregate(source_code, actions_workflow)
    &&& summarizes(r.summary, source_code, actions_workflow)
}

impl ScanReport {
    /// The report of a scan that was made at `scan_time`.
    pub fn with_time(
        scan_time: String,
        total_repos: usize,
        source_code: NimFindings,
        actions_workflow: NimFindings,
    ) -> (r: ScanReport)
        requires
            source_code@.local_nim.len() + actions_workflow@.local_nim.len() <= usize::MAX,
            source_code@.hosted_nim.len() + actions_workflow@.hosted_nim.len() <= usize::MAX,
        ensures
            r@.scan_time == scan_time@,
            reports(r@, total_repos as nat, source_code@, actions_workflow@),
    {
        let summary = Summary::calculate(&source_code, &actions_workflow);
        let aggregated = AggregatedFindings::from_findings(&source_code, &actions_workflow);
        ScanReport { scan_time, total_repos, source_code, actions_workflow, aggregated, summary }
    }

    /// The report of a scan, stamped with the present moment.
    pub fn new(total_repos: usize, source_code: NimFindings, actions_workflow: NimFindings) -> (r:
        ScanReport)
        requires
            source_code@.local_nim.len() + actions_workflow@.local_nim.len() <= usize::MAX,
            source_code@.hosted_nim.len() + actions_workflow@.hosted_nim.len() <= usize::MAX,
        ensures
            reports(r@, total_repos as nat, source_code@, actions_workflow@),
            utc_offset().is_suffix_of(r@.scan_time),
    {
        ScanReport::with_time(now_rfc3339(), total_repos, source_code, actions_workflow)
    }
}

// ----------------------------------------------------------------------------
// The table
// ----------------------------------------------------------------------------
/// The names of the columns.
pub open spec fn csv_header() -> Seq<Seq<char>> {
    seq![
        "source_type"@,
        "nim_type"@,
        "repository"@,
        "file_path"@,
        "line_number"@,
        "image_url"@,
        "tag"@,
        "resolved_tag"@,
        "endpoint_url"@,
        "model_name"@,
        "function_id"@,
        "status"@,
        "container_image"@,
        "match_context"@,
    ]
}

/// The row of a container reference: the columns of hosted references stay
/// empty.
pub open spec fn local_row(category: SourceType, m: LocalNimMatchView) -> Seq<Seq<char>> {
    seq![
        category.label(),
        "local_nim"@,
        m.repository,
        m.file_path,
        decimal(m.line_number),
        m.image_url,
        m.tag,
        text_or(m.resolved_tag, Seq::empty()),
        Seq::empty(),
        Seq::empty(),
        Seq::empty(),
        Seq::empty(),
        Seq::empty(),
        m.match_context,
    ]
}

/// The row of a hosted reference: the columns of container references stay
/// empty.
pub open spec fn hosted_row(category: SourceType, m: HostedNimMatchView) -> Seq<Seq<char>> {
    seq![
        category.label(),
        "hosted_nim"@,
        m.repository,
        m.file_path,
        decimal(m.line_number),
        Seq::empty(),
        Seq::empty(),
        Seq::empty(),
        text_or(m.endpoint_url, Seq::empty()),
        text_or(m.model_name, Seq::empty()),
        text_or(m.function_id, Seq::empty()),
        text_or(m.status, Seq::empty()),
        text_or(m.container_image, Seq::empty()),
        m.match_context,
    ]
}

/// The rows of a run of container references.
pub open spec fn local_rows(category: SourceType, ms: Seq<LocalNimMatchView>) -> Seq<
    Seq<Seq<char>>,
> {
    Seq::new(ms.len(), |i: int| local_row(category, ms[i]))
}

/// The rows of a run of hosted references.
pub open spec fn hosted_rows(category: SourceType, ms: Seq<HostedNimMatchView>) -> Seq<
    Seq<Seq<char>>,
> {
    Seq::new(ms.len(), |i: int| hosted_row(category, ms[i]))
}

/// The table of a report: the header, then a row for every reference, those
/// of ordinary source before those of workflow files, and in each category
/// the container references first.
pub open spec fn csv_table(r: ScanReportView) -> Seq<Seq<Seq<char>>> {
    seq![csv_header()] + local_rows(SourceType::SourceCode, r.source_code.local_nim) + hosted_rows(
        SourceType::SourceCode,
        r.source_code.hosted_nim,
    ) + local_rows(SourceType::ActionsWorkflow, r.actions_workflow.local_nim) + hosted_rows(
        SourceType::ActionsWorkflow,
        r.actions_workflow.hosted_nim,
    )
}

fn header_row() -> (r: Vec<String>)
    ensures
        r.deep_view() == csv_header(),
{
    let mut row: Vec<String> = Vec::new();
    row.push(String::from_str("source_type"));
    row.push(String::from_str("nim_type"));
    row.push(String::from_str("repository"));
    row.push(String::from_str("file_path"));
    row.push(String::from_str("line_number"));
    row.push(String::from_str("image_url"));
    row.push(String::from_str("tag"));
    row.push(String::from_str("resolved_tag"));
    row.push(String::from_str("endpoint_url"));
    row.push(String::from_str("model_name"));
    row.push(String::from_str("function_id"));
    row.push(String::from_str("status"));
    row.push(String::from_str("container_image"));
    row.push(String::from_str("match_context"));
    assert(row.deep_view() =~= csv_header());
    row
}

fn text_of(t: &Option<String>) -> (r: String)
    ensures
        r@ == text_or(t.deep_view(), Seq::empty()),
{
    match t {
        Some(s) => s.clone(),
        None => String::new(),
    }
}

fn row_of_local(category: SourceType, m: &LocalNimMatch) -> (r: Vec<String>)
    ensures
        r.deep_view() == local_row(category, m@),
{
    let mut row: Vec<String> = Vec::new();
    row.push(String::from_str(category.as_str()));
    row.push(String::from_str("local_nim"));
    row.push(m.repository.clone());
    row.push(m.file_path.clone());
    row.push(usize_to_string(m.line_number));
    row.push(m.image_url.clone());
    row.push(m.tag.clone());
    row.push(text_of(&m.resolved_tag));
    row.push(String::new());
    row.push(String::new());
    row.push(String::new());
    row.push(String::new());
    row.push(String::new());
    row.push(m.match_context.clone());
    assert(row.deep_view() =~= local_row(category, m@));
    row
}

fn row_of_hosted(category: SourceType, m: &HostedNimMatch) -> (r: Vec<String>)
    ensures
        r.deep_view() == hosted_row(category, m@),
{
    let mut row: Vec<String> = Vec::new();
    row.push(String::from_str(category.as_str()));
    row.push(String::from_str("hosted_nim"));
    row.push(m.repository.clone());
    row.push(m.file_path.clone());
    row.push(usize_to_string(m.line_number));
    row.push(String::new());
    row.push(String::new());
    row.push(String::new());
    row.push(text_of(&m.endpoint_url));
    row.push(text_of(&m.model_name));
    row.push(text_of(&m.function_id));
    row.push(text_of(&m.status));
    row.push(text_of(&m.container_image));
    row.push(m.match_context.clone());
    assert(row.deep_view() =~= hosted_row(category, m@));
    row
}

fn add_local_rows(table: &mut Vec<Vec<String>>, category: SourceType, ms: &Vec<LocalNimMatch>)
    ensures
        final(table).deep_view() == old(table).deep_view() + local_rows(category, ms.deep_view()),
{
    let ghost start = table.deep_view();
    let ghost all = local_rows(category, ms.deep_view());
    let mut i: usize = 0;
    assert(start + all.take(0) =~= start);
    while i < ms.len()
        invariant
            i <= ms.len(),
            all == local_rows(category, ms.deep_view()),
            table.deep_view() == start + all.take(i as int),
        decreases ms.len() - i,
    {
        let ghost before = table.deep_view();
        let row = row_of_local(category, &ms[i]);
        let ghost view = row.deep_view();
        table.push(row);
        assert(table.deep_view() =~= before.push(view));
        assert(start + all.take(i + 1) =~= (start + all.take(i as int)).push(all[i as int]));
        i += 1;
    }
    assert(all.take(i as int) =~= all);
}

fn add_hosted_rows(table: &mut Vec<Vec<String>>, category: SourceType, ms: &Vec<HostedNimMatch>)
    ensures
        final(table).deep_view() == old(table).deep_view() + hosted_rows(category, ms.deep_view()),
{
    let ghost start = table.deep_view();
    let ghost all = hosted_rows(category, ms.deep_view());
    let mut i: usize = 0;
    assert(start + all.take(0) =~= start);
    while i < ms.len()
        invariant
            i <= ms.len(),
            all == hosted_rows(category, ms.deep_view()),
            table.deep_view() == start + all.take(i as int),
        decreases ms.len() - i,
    {
        let ghost before = table.deep_view();
        let row = row_of_hosted(category, &ms[i]);
        let ghost view = row.deep_view();
        table.push(row);
        assert(table.deep_view() =~= before.push(view));
        assert(start + all.take(i + 1) =~= (start + all.take(i as int)).push(all[i as int]));
        i += 1;
    }
    assert(all.take(i as int) =~= all);
}

/// Lays a report out as a table: a header and one row for each reference.
pub fn csv_records(report: &ScanReport) -> (r: Vec<Vec<String>>)
    ensures
        r.deep_view() == csv_table(report@),
{
    let mut table: Vec<Vec<String>> = Vec::new();
    let header = header_row();
    table.push(header);
    assert(table.deep_view() =~= seq![csv_header()]);
    add_local_rows(&mut table, SourceType::SourceCode, &report.source_code.local_nim);
    add_hosted_rows(&mut table, SourceType::SourceCode, &report.source_code.hosted_nim);
    add_local_rows(&mut table, SourceType::ActionsWorkflow, &report.actions_workflow.local_nim);
    add_hosted_rows(&mut table, SourceType::ActionsWorkflow, &report.actions_workflow.hosted_nim);
    table
}

} // verus!
