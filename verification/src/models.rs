//! The data the scanner works on: configuration, findings, the aggregated
//! view, summary counts and the records of the remote catalogue.
//!
//! Every type has a view that holds its content as mathematical values
//! (`Seq<char>` for text, `nat` for counts); the contracts of the library speak
//! of those views.

use vstd::prelude::*;

verus! {

// ----------------------------------------------------------------------------
// Source categories
// ----------------------------------------------------------------------------
/// Where a reference was found: ordinary source, or an automation workflow.
#[derive(Debug, Clone, Copy, PartialEq, Eq, Hash, Structural)]
pub enum SourceType {
    /// Regular source code.
    SourceCode,
    /// A workflow file under the hosting service's workflow directory.
    ActionsWorkflow,
}

impl SourceType {
    /// The label of the category in reports.
    pub open spec fn label(self) -> Seq<char> {
        match self {
            SourceType::SourceCode => "source_code"@,
            SourceType::ActionsWorkflow => "actions_workflow"@,
        }
    }

    /// The label of the category in reports.
    pub fn as_str(&self) -> (r: &'static str)
        ensures
            r@ == self.label(),
    {
        match self {
            SourceType::SourceCode => "source_code",
            SourceType::ActionsWorkflow => "actions_workflow",
        }
    }
}

// ----------------------------------------------------------------------------
// Configuration
// ----------------------------------------------------------------------------
/// Values used for a repository that does not set its own.
#[derive(Debug, Clone)]
pub struct Defaults {
    /// Branch to check out.
    pub branch: String,
    /// History depth to fetch.
    pub depth: u32,
}

/// The content of a [`Defaults`].
pub ghost struct DefaultsView {
    pub branch: Seq<char>,
    pub depth: u32,
}

impl View for Defaults {
    type V = DefaultsView;

    open spec fn view(&self) -> DefaultsView {
        DefaultsView { branch: self.branch@, depth: self.depth }
    }
}

impl DeepView for Defaults {
    type V = DefaultsView;

    open spec fn deep_view(&self) -> DefaultsView {
        self@
    }
}

impl Default for Defaults {
    fn default() -> (r: Defaults)
        ensures
            r@ == (DefaultsView { branch: Seq::empty(), depth: 0 }),
    {
        Defaults { branch: String::new(), depth: 0 }
    }
}

/// The branch used where a configuration names none.
pub open spec fn fallback_branch() -> Seq<char> {
    "main"@
}

/// The branch used where a configuration names none.
pub fn default_branch() -> (r: String)
    ensures
        r@ == fallback_branch(),
{
    String::from_str("main")
}

/// The depth used where a configuration names none.
pub fn default_depth() -> (r: u32)
    ensures
        r == 1,
{
    1
}

/// Whether a repository is scanned where its configuration does not say.
pub fn default_enabled() -> (r: bool)
    ensures
        r,
{
    true
}

/// One repository to scan.
#[derive(Debug, Clone)]
pub struct RepoConfig {
    /// The name used in reports.
    pub name: String,
    /// Where to fetch it from.
    pub url: String,
    /// Branch to check out, if set.
    pub branch: Option<String>,
    /// History depth, if set.
    pub depth: Option<u32>,
    /// Whether the repository takes part in a scan.
    pub enabled: bool,
}

/// The content of a [`RepoConfig`].
pub ghost struct RepoConfigView {
    pub name: Seq<char>,
    pub url: Seq<char>,
    pub branch: Option<Seq<char>>,
    pub depth: Option<u32>,
    pub enabled: bool,
}

impl RepoConfigView {
    /// The entry with the gaps filled from `defaults`.
    pub open spec fn with_defaults(self, defaults: DefaultsView) -> RepoConfigView {
        RepoConfigView {
            branch: Some(
                match self.branch {
                    Some(b) => b,
                    None => defaults.branch,
                },
            ),
            depth: Some(
                match self.depth {
                    Some(d) => d,
                    None => defaults.depth,
                },
            ),
            ..self
        }
    }

    /// The branch to check out.
    pub open spec fn branch_or_fallback(self) -> Seq<char> {
        match self.branch {
            Some(b) => b,
            None => fallback_branch(),
        }
    }

    /// The history depth to fetch.
    pub open spec fn depth_or_fallback(self) -> u32 {
        match self.depth {
            Some(d) => d,
            None => 1,
        }
    }
}

impl View for RepoConfig {
    type V = RepoConfigView;

    open spec fn view(&self) -> RepoConfigView {
        RepoConfigView {
            name: self.name@,
            url: self.url@,
            branch: self.branch.deep_view(),
            depth: self.depth,
            enabled: self.enabled,
        }
    }
}

impl DeepView for RepoConfig {
    type V = RepoConfigView;

    open spec fn deep_view(&self) -> RepoConfigView {
        self@
    }
}

impl RepoConfig {
    /// A copy of the entry.
    pub fn duplicate(&self) -> (r: RepoConfig)
        ensures
            r@ == self@,
    {
        RepoConfig {
            name: self.name.clone(),
            url: self.url.clone(),
            branch: crate::text::copy_opt(&self.branch),
            depth: self.depth,
            enabled: self.enabled,
        }
    }

    /// Fills the branch and the depth from `defaults` where the entry sets
    /// none. What the entry sets stays.
    pub fn with_defaults(self, defaults: &Defaults) -> (r: RepoConfig)
        ensures
            r@ == self@.with_defaults(defaults@),
    {
        let mut out = self;
        if out.branch.is_none() {
            out.branch = Some(defaults.branch.clone());
        }
        if out.depth.is_none() {
            out.depth = Some(defaults.depth);
        }
        out
    }

    /// The branch to check out: the entry's own, else `main`.
    pub fn branch(&self) -> (r: &str)
        ensures
            r@ == self@.branch_or_fallback(),
    {
        match &self.branch {
            Some(b) => b.as_str(),
            None => "main",
        }
    }

    /// The history depth to fetch: the entry's own, else 1.
    pub fn depth(&self) -> (r: u32)
        ensures
            r == self@.depth_or_fallback(),
    {
        match self.depth {
            Some(d) => d,
            None => 1,
        }
    }
}

/// A scan configuration: defaults and the list of repositories.
#[derive(Debug, Clone)]
pub struct Config {
    /// Format version of the configuration.
    pub version: String,
    /// Values for entries that set none.
    pub defaults: Defaults,
    /// The repositories.
    pub repos: Vec<RepoConfig>,
}

/// The content of a [`Config`].
pub ghost struct ConfigView {
    pub version: Seq<char>,
    pub defaults: DefaultsView,
    pub repos: Seq<RepoConfigView>,
}

impl View for Config {
    type V = ConfigView;

    open spec fn view(&self) -> ConfigView {
        ConfigView {
            version: self.version@,
            defaults: self.defaults@,
            repos: self.repos.deep_view(),
        }
    }
}

impl DeepView for Config {
    type V = ConfigView;

    open spec fn deep_view(&self) -> ConfigView {
        self@
    }
}

// ----------------------------------------------------------------------------
// Findings
// ----------------------------------------------------------------------------
/// The tag that stands for "whatever is newest".
pub open spec fn latest_tag() -> Seq<char> {
    "latest"@
}

/// A reference to a container image of the registry namespace.
#[derive(Debug, Clone)]
pub struct LocalNimMatch {
    /// The source collection the reference was found in.
    pub repository: String,
    /// The image coordinate, without tag.
    pub image_url: String,
    /// The tag as written, or `latest` where none was written.
    pub tag: String,
    /// The concrete tag behind `latest`, once looked up.
    pub resolved_tag: Option<String>,
    /// The file, relative to the scan root.
    pub file_path: String,
    /// The line, counted from 1.
    pub line_number: usize,
    /// The line's text, trimmed.
    pub match_context: String,
}

/// The content of a [`LocalNimMatch`].
pub ghost struct LocalNimMatchView {
    pub repository: Seq<char>,
    pub image_url: Seq<char>,
    pub tag: Seq<char>,
    pub resolved_tag: Option<Seq<char>>,
    pub file_path: Seq<char>,
    pub line_number: nat,
    pub match_context: Seq<char>,
}

impl View for LocalNimMatch {
    type V = LocalNimMatchView;

    open spec fn view(&self) -> LocalNimMatchView {
        LocalNimMatchView {
            repository: self.repository@,
            image_url: self.image_url@,
            tag: self.tag@,
            resolved_tag: self.resolved_tag.deep_view(),
            file_path: self.file_path@,
            line_number: self.line_number as nat,
            match_context: self.match_context@,
        }
    }
}

impl DeepView for LocalNimMatch {
    type V = LocalNimMatchView;

    open spec fn deep_view(&self) -> LocalNimMatchView {
        self@
    }
}

/// A reference to a hosted inference endpoint or to a model served by one.
#[derive(Debug, Clone)]
pub struct HostedNimMatch {
    /// The source collection the reference was found in.
    pub repository: String,
    /// The endpoint, if the line names one.
    pub endpoint_url: Option<String>,
    /// The model, if the line or its surroundings name one.
    pub model_name: Option<String>,
    /// The file, relative to the scan root.
    pub file_path: String,
    /// The line, counted from 1.
    pub line_number: usize,
    /// The line's text, trimmed.
    pub match_context: String,
    /// The remote function behind the model, once looked up.
    pub function_id: Option<String>,
    /// The function's status, once looked up.
    pub status: Option<String>,
    /// The image that backs the function, once looked up.
    pub container_image: Option<String>,
}

/// The content of a [`HostedNimMatch`].
pub ghost struct HostedNimMatchView {
    pub repository: Seq<char>,
    pub endpoint_url: Option<Seq<char>>,
    pub model_name: Option<Seq<char>>,
    pub file_path: Seq<char>,
    pub line_number: nat,
    pub match_context: Seq<char>,
    pub function_id: Option<Seq<char>>,
    pub status: Option<Seq<char>>,
    pub container_image: Option<Seq<char>>,
}

impl View for HostedNimMatch {
    type V = HostedNimMatchView;

    open spec fn view(&self) -> HostedNimMatchView {
        HostedNimMatchView {
            repository: self.repository@,
            endpoint_url: self.endpoint_url.deep_view(),
            model_name: self.model_name.deep_view(),
            file_path: self.file_path@,
            line_number: self.line_number as nat,
            match_context: self.match_context@,
            function_id: self.function_id.deep_view(),
            status: self.status.deep_view(),
            container_image: self.container_image.deep_view(),
        }
    }
}

impl DeepView for HostedNimMatch {
    type V = HostedNimMatchView;

    open spec fn deep_view(&self) -> HostedNimMatchView {
        self@
    }
}

/// The findings of one category: container references and hosted references.
#[derive(Debug, Clone)]
pub struct NimFindings {
    /// Container references.
    pub local_nim: Vec<LocalNimMatch>,
    /// Hosted references.
    pub hosted_nim: Vec<HostedNimMatch>,
}

/// The content of a [`NimFindings`].
pub ghost struct NimFindingsView {
    pub local_nim: Seq<LocalNimMatchView>,
    pub hosted_nim: Seq<HostedNimMatchView>,
}

impl View for NimFindings {
    type V = NimFindingsView;

    open spec fn view(&self) -> NimFindingsView {
        NimFindingsView {
            local_nim: self.local_nim.deep_view(),
            hosted_nim: self.hosted_nim.deep_view(),
        }
    }
}

impl DeepView for NimFindings {
    type V = NimFindingsView;

    open spec fn deep_view(&self) -> NimFindingsView {
        self@
    }
}

impl NimFindingsView {
    /// No findings at all.
    pub open spec fn empty() -> NimFindingsView {
        NimFindingsView { local_nim: Seq::empty(), hosted_nim: Seq::empty() }
    }
}

impl Default for NimFindings {
    fn default() -> (r: NimFindings)
        ensures
            r@ == NimFindingsView::empty(),
    {
        let r = NimFindings { local_nim: Vec::new(), hosted_nim: Vec::new() };
        assert(r.local_nim.deep_view() =~= Seq::empty());
        assert(r.hosted_nim.deep_view() =~= Seq::empty());
        r
    }
}

impl NimFindings {
    /// No findings.
    pub fn new() -> (r: NimFindings)
        ensures
            r@ == NimFindingsView::empty(),
    {
        let r = NimFindings { local_nim: Vec::new(), hosted_nim: Vec::new() };
        assert(r.local_nim.deep_view() =~= Seq::empty());
        assert(r.hosted_nim.deep_view() =~= Seq::empty());
        r
    }

    /// Whether there is no finding of either family.
    pub fn is_empty(&self) -> (r: bool)
        ensures
            r == (self@.local_nim.len() == 0 && self@.hosted_nim.len() == 0),
    {
        self.local_nim.is_empty() && self.hosted_nim.is_empty()
    }

    /// The number of findings of both families together.
    pub fn total_count(&self) -> (r: usize)
        requires
            self@.local_nim.len() + self@.hosted_nim.len() <= usize::MAX,
        ensures
            r == self@.local_nim.len() + self@.hosted_nim.len(),
    {
        self.local_nim.len() + self.hosted_nim.len()
    }
}

// ----------------------------------------------------------------------------
// Aggregated view
// ----------------------------------------------------------------------------
/// One place where a reference was found.
#[derive(Debug, Clone)]
pub struct NimLocation {
    /// The category's label.
    pub source_type: String,
    /// The source collection.
    pub repository: String,
    /// The file, relative to the scan root.
    pub file_path: String,
    /// The line, counted from 1.
    pub line_number: usize,
    /// The line's text, trimmed.
    pub match_context: String,
}

/// The content of a [`NimLocation`].
pub ghost struct NimLocationView {
    pub source_type: Seq<char>,
    pub repository: Seq<char>,
    pub file_path: Seq<char>,
    pub line_number: nat,
    pub match_context: Seq<char>,
}

impl View for NimLocation {
    type V = NimLocationView;

    open spec fn view(&self) -> NimLocationView {
        NimLocationView {
            source_type: self.source_type@,
            repository: self.repository@,
            file_path: self.file_path@,
            line_number: self.line_number as nat,
            match_context: self.match_context@,
        }
    }
}

impl DeepView for NimLocation {
    type V = NimLocationView;

    open spec fn deep_view(&self) -> NimLocationView {
        self@
    }
}

/// A container image with every place that refers to it.
#[derive(Debug, Clone)]
pub struct AggregatedLocalNim {
    /// The image coordinate.
    pub image_url: String,
    /// The tag as written.
    pub tag: String,
    /// The concrete tag behind `latest`, if looked up.
    pub resolved_tag: Option<String>,
    /// Every place that refers to the image with this tag.
    pub locations: Vec<NimLocation>,
}

/// The content of an [`AggregatedLocalNim`].
pub ghost struct AggregatedLocalNimView {
    pub image_url: Seq<char>,
    pub tag: Seq<char>,
    pub resolved_tag: Option<Seq<char>>,
    pub locations: Seq<NimLocationView>,
}

impl View for AggregatedLocalNim {
    type V = AggregatedLocalNimView;

    open spec fn view(&self) -> AggregatedLocalNimView {
        AggregatedLocalNimView {
            image_url: self.image_url@,
            tag: self.tag@,
            resolved_tag: self.resolved_tag.deep_view(),
            locations: self.locations.deep_view(),
        }
    }
}

impl DeepView for AggregatedLocalNim {
    type V = AggregatedLocalNimView;

    open spec fn deep_view(&self) -> AggregatedLocalNimView {
        self@
    }
}

/// A hosted model or endpoint with every place that refers to it.
#[derive(Debug, Clone)]
pub struct AggregatedHostedNim {
    /// The endpoint, if known.
    pub endpoint_url: Option<String>,
    /// The model, if known.
    pub model_name: Option<String>,
    /// The remote function, if looked up.
    pub function_id: Option<String>,
    /// The function's status, if looked up.
    pub status: Option<String>,
    /// The image that backs the function, if looked up.
    pub container_image: Option<String>,
    /// Every place that refers to it.
    pub locations: Vec<NimLocation>,
}

/// The content of an [`AggregatedHostedNim`].
pub ghost struct AggregatedHostedNimView {
    pub endpoint_url: Option<Seq<char>>,
    pub model_name: Option<Seq<char>>,
    pub function_id: Option<Seq<char>>,
    pub status: Option<Seq<char>>,
    pub container_image: Option<Seq<char>>,
    pub locations: Seq<NimLocationView>,
}

impl View for AggregatedHostedNim {
    type V = AggregatedHostedNimView;

    open spec fn view(&self) -> AggregatedHostedNimView {
        AggregatedHostedNimView {
            endpoint_url: self.endpoint_url.deep_view(),
            model_name: self.model_name.deep_view(),
            function_id: self.function_id.deep_view(),
            status: self.status.deep_view(),
            container_image: self.container_image.deep_view(),
            locations: self.locations.deep_view(),
        }
    }
}

impl DeepView for AggregatedHostedNim {
    type V = AggregatedHostedNimView;

    open spec fn deep_view(&self) -> AggregatedHostedNimView {
        self@
    }
}

/// All findings grouped by what they refer to.
#[derive(Debug, Clone)]
pub struct AggregatedFindings {
    /// One entry for each image and tag.
    pub local_nim: Vec<AggregatedLocalNim>,
    /// One entry for each hosted model or endpoint.
    pub hosted_nim: Vec<AggregatedHostedNim>,
}

/// The content of an [`AggregatedFindings`].
pub ghost struct AggregatedFindingsView {
    pub local_nim: Seq<AggregatedLocalNimView>,
    pub hosted_nim: Seq<AggregatedHostedNimView>,
}

impl View for AggregatedFindings {
    type V = AggregatedFindingsView;

    open spec fn view(&self) -> AggregatedFindingsView {
        AggregatedFindingsView {
            local_nim: self.local_nim.deep_view(),
            hosted_nim: self.hosted_nim.deep_view(),
        }
    }
}

impl DeepView for AggregatedFindings {
    type V = AggregatedFindingsView;

    open spec fn deep_view(&self) -> AggregatedFindingsView {
        self@
    }
}

// ----------------------------------------------------------------------------
// Summary and report
// ----------------------------------------------------------------------------
/// The counts of one category.
#[derive(Debug, Clone, Copy, PartialEq, Eq, Structural)]
pub struct CategorySummary {
    /// Container references.
    pub local_nim: usize,
    /// Hosted references.
    pub hosted_nim: usize,
}

impl Default for CategorySummary {
    fn default() -> (r: CategorySummary)
        ensures
            r == (CategorySummary { local_nim: 0, hosted_nim: 0 }),
    {
        CategorySummary { local_nim: 0, hosted_nim: 0 }
    }
}

/// The counts of a scan.
#[derive(Debug, Clone, Copy, PartialEq, Eq, Structural)]
pub struct Summary {
    /// Container references in both categories.
    pub total_local_nim: usize,
    /// Hosted references in both categories.
    pub total_hosted_nim: usize,
    /// Source collections with at least one reference.
    pub repos_with_nim: usize,
    /// The counts of ordinary source.
    pub source_code: CategorySummary,
    /// The counts of workflow files.
    pub actions_workflow: CategorySummary,
}

/// The result of a scan.
#[derive(Debug, Clone)]
pub struct ScanReport {
    /// When the report was made.
    pub scan_time: String,
    /// How many source collections were scanned.
    pub total_repos: usize,
    /// Findings in ordinary source.
    pub source_code: NimFindings,
    /// Findings in workflow files.
    pub actions_workflow: NimFindings,
    /// The findings grouped by what they refer to.
    pub aggregated: AggregatedFindings,
    /// The counts.
    pub summary: Summary,
}

/// The content of a [`ScanReport`].
pub ghost struct ScanReportView {
    pub scan_time: Seq<char>,
    pub total_repos: nat,
    pub source_code: NimFindingsView,
    pub actions_workflow: NimFindingsView,
    pub aggregated: AggregatedFindingsView,
    pub summary: Summary,
}

impl View for ScanReport {
    type V = ScanReportView;

    open spec fn view(&self) -> ScanReportView {
        ScanReportView {
            scan_time: self.scan_time@,
            total_repos: self.total_repos as nat,
            source_code: self.source_code@,
            actions_workflow: self.actions_workflow@,
            aggregated: self.aggregated@,
            summary: self.summary,
        }
    }
}

impl DeepView for ScanReport {
    type V = ScanReportView;

    open spec fn deep_view(&self) -> ScanReportView {
        self@
    }
}

// ----------------------------------------------------------------------------
// Records of the remote catalogue
// ----------------------------------------------------------------------------
/// What the registry says of an image repository.
#[derive(Debug, Clone)]
pub struct NgcRepoResponse {
    /// The repository's name.
    pub name: Option<String>,
    /// The newest tag.
    pub latest_tag: Option<String>,
    /// The identifier of the newest version.
    pub latest_version_id: Option<String>,
    /// A description.
    pub description: Option<String>,
}

/// The content of an [`NgcRepoResponse`].
pub ghost struct NgcRepoResponseView {
    pub name: Option<Seq<char>>,
    pub latest_tag: Option<Seq<char>>,
    pub latest_version_id: Option<Seq<char>>,
    pub description: Option<Seq<char>>,
}

impl View for NgcRepoResponse {
    type V = NgcRepoResponseView;

    open spec fn view(&self) -> NgcRepoResponseView {
        NgcRepoResponseView {
            name: self.name.deep_view(),
            latest_tag: self.latest_tag.deep_view(),
            latest_version_id: self.latest_version_id.deep_view(),
            description: self.description.deep_view(),
        }
    }
}

impl DeepView for NgcRepoResponse {
    type V = NgcRepoResponseView;

    open spec fn deep_view(&self) -> NgcRepoResponseView {
        self@
    }
}

/// One function in the list of all functions.
#[derive(Debug, Clone)]
pub struct NgcFunctionSummary {
    /// The function's identifier.
    pub id: String,
    /// The function's name.
    pub name: String,
    /// The function's status.
    pub status: Option<String>,
}

/// The content of an [`NgcFunctionSummary`].
pub ghost struct NgcFunctionSummaryView {
    pub id: Seq<char>,
    pub name: Seq<char>,
    pub status: Option<Seq<char>>,
}

impl View for NgcFunctionSummary {
    type V = NgcFunctionSummaryView;

    open spec fn view(&self) -> NgcFunctionSummaryView {
        NgcFunctionSummaryView {
            id: self.id@,
            name: self.name@,
            status: self.status.deep_view(),
        }
    }
}

impl DeepView for NgcFunctionSummary {
    type V = NgcFunctionSummaryView;

    open spec fn deep_view(&self) -> NgcFunctionSummaryView {
        self@
    }
}

/// The list of all functions.
#[derive(Debug, Clone)]
pub struct NgcFunctionListResponse {
    /// The functions, in the order the service gave them.
    pub functions: Vec<NgcFunctionSummary>,
}

/// The content of an [`NgcFunctionListResponse`].
pub ghost struct NgcFunctionListResponseView {
    pub functions: Seq<NgcFunctionSummaryView>,
}

impl View for NgcFunctionListResponse {
    type V = NgcFunctionListResponseView;

    open spec fn view(&self) -> NgcFunctionListResponseView {
        NgcFunctionListResponseView { functions: self.functions.deep_view() }
    }
}

impl DeepView for NgcFunctionListResponse {
    type V = NgcFunctionListResponseView;

    open spec fn deep_view(&self) -> NgcFunctionListResponseView {
        self@
    }
}

/// What is known of one function.
#[derive(Debug, Clone)]
pub struct NgcFunctionDetails {
    /// The function's identifier.
    pub id: String,
    /// The function's name, or that of the model it serves.
    pub name: String,
    /// The function's status.
    pub status: Option<String>,
    /// The image that backs the function.
    pub container_image: Option<String>,
}

/// The content of an [`NgcFunctionDetails`].
pub ghost struct NgcFunctionDetailsView {
    pub id: Seq<char>,
    pub name: Seq<char>,
    pub status: Option<Seq<char>>,
    pub container_image: Option<Seq<char>>,
}

impl View for NgcFunctionDetails {
    type V = NgcFunctionDetailsView;

    open spec fn view(&self) -> NgcFunctionDetailsView {
        NgcFunctionDetailsView {
            id: self.id@,
            name: self.name@,
            status: self.status.deep_view(),
            container_image: self.container_image.deep_view(),
        }
    }
}

impl DeepView for NgcFunctionDetails {
    type V = NgcFunctionDetailsView;

    open spec fn deep_view(&self) -> NgcFunctionDetailsView {
        self@
    }
}

impl NgcFunctionDetails {
    /// A copy of the record.
    pub fn duplicate(&self) -> (r: NgcFunctionDetails)
        ensures
            r@ == self@,
    {
        NgcFunctionDetails {
            id: self.id.clone(),
            name: self.name.clone(),
            status: crate::text::copy_opt(&self.status),
            container_image: crate::text::copy_opt(&self.container_image),
        }
    }
}

/// A reply that holds the details of one function.
#[derive(Debug, Clone)]
pub struct NgcFunctionDetailsResponse {
    /// The details.
    pub function: NgcFunctionDetails,
}

/// The content of an [`NgcFunctionDetailsResponse`].
pub ghost struct NgcFunctionDetailsResponseView {
    pub function: NgcFunctionDetailsView,
}

impl View for NgcFunctionDetailsResponse {
    type V = NgcFunctionDetailsResponseView;

    open spec fn view(&self) -> NgcFunctionDetailsResponseView {
        NgcFunctionDetailsResponseView { function: self.function@ }
    }
}

impl DeepView for NgcFunctionDetailsResponse {
    type V = NgcFunctionDetailsResponseView;

    open spec fn deep_view(&self) -> NgcFunctionDetailsResponseView {
        self@
    }
}

} // verus!
