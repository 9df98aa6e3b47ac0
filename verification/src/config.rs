//! Checking a scan configuration and preparing its repositories.

use vstd::prelude::*;
use crate::models::{Config, ConfigView, RepoConfig, RepoConfigView};
use crate::text::{concat, decimal, starts_with, trim, trim_of, usize_to_string};

verus! {

/// What is wrong with a configuration.
#[derive(Debug, Clone)]
pub enum ValidationError {
    /// There is no repository at all.
    EmptyRepoList,
    /// The address of a repository has none of the known schemes.
    InvalidUrl { name: String, url: String },
    /// An earlier repository has the same name.
    DuplicateName { name: String },
    /// The repository at this index has a blank name.
    EmptyName { index: usize },
    /// The address of a repository is blank.
    EmptyUrl { name: String },
}

/// The content of a [`ValidationError`].
pub ghost enum ValidationErrorView {
    EmptyRepoList,
    InvalidUrl { name: Seq<char>, url: Seq<char> },
    DuplicateName { name: Seq<char> },
    EmptyName { index: nat },
    EmptyUrl { name: Seq<char> },
}

impl View for ValidationError {
    type V = ValidationErrorView;

    open spec fn view(&self) -> ValidationErrorView {
        match self {
            ValidationError::EmptyRepoList => ValidationErrorView::EmptyRepoList,
            ValidationError::InvalidUrl { name, url } => ValidationErrorView::InvalidUrl {
                name: name@,
                url: url@,
            },
            ValidationError::DuplicateName { name } => ValidationErrorView::DuplicateName {
                name: name@,
            },
            ValidationError::EmptyName { index } => ValidationErrorView::EmptyName {
                index: *index as nat,
            },
            ValidationError::EmptyUrl { name } => ValidationErrorView::EmptyUrl { name: name@ },
        }
    }
}

impl DeepView for ValidationError {
    type V = ValidationErrorView;

    open spec fn deep_view(&self) -> ValidationErrorView {
        self@
    }
}

impl ValidationErrorView {
    /// The error in words.
    pub open spec fn message(self) -> Seq<char> {
        match self {
            ValidationErrorView::EmptyRepoList => "Empty repository list"@,
            ValidationErrorView::InvalidUrl { name, url } => "Invalid URL for repository '"@ + name
                + "': "@ + url,
            ValidationErrorView::DuplicateName { name } => "Duplicate repository name: "@ + name,
            ValidationErrorView::EmptyName { index } => "Empty repository name at index "@
                + decimal(index),
            ValidationErrorView::EmptyUrl { name } => "Empty URL for repository '"@ + name + "'"@,
        }
    }
}

impl ValidationError {
    /// The error in words.
    pub fn message(&self) -> (r: String)
        ensures
            r@ == self@.message(),
    {
        match self {
            ValidationError::EmptyRepoList => String::from_str("Empty repository list"),
            ValidationError::InvalidUrl { name, url } => {
                let a = concat("Invalid URL for repository '", name.as_str());
                let b = concat(a.as_str(), "': ");
                concat(b.as_str(), url.as_str())
            },
            ValidationError::DuplicateName { name } => concat(
                "Duplicate repository name: ",
                name.as_str(),
            ),
            ValidationError::EmptyName { index } => {
                let number = usize_to_string(*index);
                concat("Empty repository name at index ", number.as_str())
            },
            ValidationError::EmptyUrl { name } => {
                let a = concat("Empty URL for repository '", name.as_str());
                concat(a.as_str(), "'")
            },
        }
    }
}

/// Whether a text holds nothing but white space.
pub open spec fn is_blank(s: Seq<char>) -> bool {
    trim_of(s).len() == 0
}

/// Whether an address has one of the schemes that a repository is fetched
/// by.
pub open spec fn is_git_url(url: Seq<char>) -> bool {
    ||| "https://"@.is_prefix_of(url)
    ||| "http://"@.is_prefix_of(url)
    ||| "git@"@.is_prefix_of(url)
    ||| "ssh://"@.is_prefix_of(url)
}

/// Whether an address has one of the schemes that a repository is fetched by.
pub fn is_valid_git_url(url: &str) -> (r: bool)
    ensures
        r == is_git_url(url@),
{
    starts_with(url, "https://") || starts_with(url, "http://") || starts_with(url, "git@")
        || starts_with(url, "ssh://")
}

/// Whether a repository before index `i` has the name of the one at `i`.
pub open spec fn name_taken(repos: Seq<RepoConfigView>, i: int) -> bool {
    exists|j: int| 0 <= j < i && !is_blank(#[trigger] repos[j].name) && repos[j].name == repos[i].name
}

/// What is wrong with the repository at index `i`, in the order in which it
/// is reported: a blank name, and nothing else of that repository; else a
/// name that is taken, and a blank address or one without a known scheme.
pub open spec fn repo_errors(repos: Seq<RepoConfigView>, i: int) -> Seq<ValidationErrorView> {
    let repo = repos[i];
    if is_blank(repo.name) {
        seq![ValidationErrorView::EmptyName { index: i as nat }]
    } else {
        let taken = if name_taken(repos, i) {
            seq![ValidationErrorView::DuplicateName { name: repo.name }]
        } else {
            Seq::empty()
        };
        if is_blank(repo.url) {
            taken.push(ValidationErrorView::EmptyUrl { name: repo.name })
        } else if !is_git_url(repo.url) {
            taken.push(ValidationErrorView::InvalidUrl { name: repo.name, url: repo.url })
        } else {
            taken
        }
    }
}

/// What is wrong with the first `n` repositories.
pub open spec fn errors_upto(repos: Seq<RepoConfigView>, n: int) -> Seq<ValidationErrorView>
    decreases n,
{
    if n <= 0 {
        if repos.len() == 0 {
            seq![ValidationErrorView::EmptyRepoList]
        } else {
            Seq::empty()
        }
    } else {
        errors_upto(repos, n - 1) + repo_errors(repos, n - 1)
    }
}

/// All that is wrong with a configuration.
pub open spec fn config_errors(config: ConfigView) -> Seq<ValidationErrorView> {
    errors_upto(config.repos, config.repos.len() as int)
}

fn blank(s: &str) -> (r: bool)
    ensures
        r == is_blank(s@),
{
    trim(s).is_empty()
}

fn taken_before(repos: &Vec<RepoConfig>, i: usize) -> (r: bool)
    requires
        i < repos.len(),
    ensures
        r == name_taken(repos.deep_view(), i as int),
{
    let ghost views = repos.deep_view();
    let mut j: usize = 0;
    while j < i
        invariant
            j <= i < repos.len(),
            views == repos.deep_view(),
            forall|k: int|
                0 <= k < j ==> !(!is_blank(#[trigger] views[k].name) && views[k].name
                    == views[i as int].name),
        decreases i - j,
    {
        if !blank(repos[j].name.as_str()) && repos[j].name == repos[i].name {
            assert(!is_blank(views[j as int].name) && views[j as int].name == views[i as int].name);
            return true;
        }
        j += 1;
    }
    false
}

/// Checks a configuration: that it lists a repository, that every
/// repository has a name of its own and an address with a known scheme.
///
/// It succeeds exactly when nothing is wrong; else it hands out all that is
/// wrong, in the order of the repositories.
pub fn validate_config(config: &Config) -> (r: Result<(), Vec<ValidationError>>)
    ensures
        match r {
            Ok(_) => config_errors(config@).len() == 0,
            Err(errors) => errors.deep_view() == config_errors(config@) && errors.len() > 0,
        },
{
    let ghost views = config.repos.deep_view();
    let mut errors: Vec<ValidationError> = Vec::new();
    if config.repos.is_empty() {
        errors.push(ValidationError::EmptyRepoList);
    }
    assert(errors.deep_view() =~= errors_upto(views, 0));
    let mut i: usize = 0;
    while i < config.repos.len()
        invariant
            i <= config.repos.len(),
            views == config.repos.deep_view(),
            errors.deep_view() == errors_upto(views, i as int),
        decreases config.repos.len() - i,
    {
        let repo = &config.repos[i];
        let ghost before = errors.deep_view();
        assert(views[i as int] == repo@);
        if blank(repo.name.as_str()) {
            errors.push(ValidationError::EmptyName { index: i });
            assert(errors.deep_view() =~= before + repo_errors(views, i as int));
        } else {
            if taken_before(&config.repos, i) {
                errors.push(ValidationError::DuplicateName { name: repo.name.clone() });
            }
            if blank(repo.url.as_str()) {
                errors.push(ValidationError::EmptyUrl { name: repo.name.clone() });
            } else if !is_valid_git_url(repo.url.as_str()) {
                errors.push(
                    ValidationError::InvalidUrl { name: repo.name.clone(), url: repo.url.clone() },
                );
            }
            assert(errors.deep_view() =~= before + repo_errors(views, i as int));
        }
        i += 1;
    }
    if errors.len() > 0 {
        Err(errors)
    } else {
        Ok(())
    }
}

/// The message of a failed check: a heading, and under it each error on a
/// line of its own.
pub open spec fn failure_text(errors: Seq<ValidationErrorView>) -> Seq<char>
    decreases errors.len(),
{
    if errors.len() == 0 {
        "Configuration validation failed:"@
    } else {
        failure_text(errors.drop_last()) + "\n  - "@ + errors.last().message()
    }
}

/// The message of a failed check.
pub fn failure_message(errors: &Vec<ValidationError>) -> (r: String)
    ensures
        r@ == failure_text(errors.deep_view()),
{
    let ghost views = errors.deep_view();
    let mut out = String::from_str("Configuration validation failed:");
    let mut i: usize = 0;
    assert(views.take(0) =~= Seq::empty());
    while i < errors.len()
        invariant
            i <= errors.len(),
            views == errors.deep_view(),
            out@ == failure_text(views.take(i as int)),
        decreases errors.len() - i,
    {
        proof {
            assert(views.take(i + 1).drop_last() =~= views.take(i as int));
            assert(views.take(i + 1).last() == errors@[i as int]@);
        }
        out.append("\n  - ");
        let message = errors[i].message();
        out.append(message.as_str());
        i += 1;
    }
    assert(views.take(i as int) =~= views);
    out
}

/// The repositories of a configuration with the gaps filled from its
/// defaults.
pub open spec fn defaults_applied(config: ConfigView) -> Seq<RepoConfigView> {
    Seq::new(config.repos.len(), |i: int| config.repos[i].with_defaults(config.defaults))
}

/// Fills the branch and the depth of every repository from the defaults of
/// the configuration where the repository sets none.
pub fn apply_defaults(config: &Config) -> (r: Vec<RepoConfig>)
    ensures
        r.deep_view() == defaults_applied(config@),
{
    let mut out: Vec<RepoConfig> = Vec::new();
    let mut i: usize = 0;
    while i < config.repos.len()
        invariant
            i <= config.repos.len(),
            out@.len() == i,
            forall|j: int|
                0 <= j < i ==> (#[trigger] out@[j])@ == config.repos@[j]@.with_defaults(
                    config.defaults@,
                ),
        decreases config.repos.len() - i,
    {
        let repo = config.repos[i].duplicate();
        out.push(repo.with_defaults(&config.defaults));
        i += 1;
    }
    assert(out.deep_view() =~= defaults_applied(config@));
    out
}

/// The test for the repositories that take part in a scan.
pub open spec fn enabled() -> spec_fn(RepoConfigView) -> bool {
    |r: RepoConfigView| r.enabled
}

/// Keeps the repositories that take part in a scan, in their order.
pub fn filter_enabled(repos: Vec<RepoConfig>) -> (r: Vec<RepoConfig>)
    ensures
        r.deep_view() == repos.deep_view().filter(enabled()),
{
    let ghost views = repos.deep_view();
    let ghost all = repos@;
    let mut out: Vec<RepoConfig> = Vec::new();
    assert(views.take(0) =~= Seq::empty());
    assert(out.deep_view() =~= Seq::empty());
    for repo in it: repos.into_iter()
        invariant
            it.seq() == all,
            views.len() == all.len(),
            forall|j: int| 0 <= j < all.len() ==> views[j] == all[j]@,
            out.deep_view() == views.take(it.index() as int).filter(enabled()),
    {
        let ghost k = it.index() as int;
        let ghost view = repo@;
        let ghost before = out.deep_view();
        proof {
            assert(views.take(k + 1) =~= views.take(k).push(view));
            views.take(k).lemma_filter_push(view, enabled());
        }
        if repo.enabled {
            out.push(repo);
            assert(out.deep_view() =~= before.push(view));
        }
    }
    assert(views.take(views.len() as int) =~= views);
    out
}

} // verus!
