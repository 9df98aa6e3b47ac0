//! Reading the remote catalogue's replies, and matching model names against
//! the names of its functions.

use vstd::prelude::*;
use crate::json::{Json, JsonView};
use crate::models::{
    NgcFunctionDetails, NgcFunctionDetailsView, NgcFunctionListResponse,
    NgcFunctionListResponseView, NgcFunctionSummary, NgcFunctionSummaryView, NgcRepoResponse,
    NgcRepoResponseView,
};
use crate::seqs::{first_index, lemma_first_index_is};
use crate::text::{
    concat, contains, has_infix, lowercase_of, replace, replace_all, same, split,
    split_on, starts_with, strip_prefix, to_lowercase, without_prefix,
};
use crate::scanner::lemma_split_nonempty;

verus! {

/// Where the registry answers questions about image repositories.
pub const NGC_REGISTRY_API_BASE: &'static str = "https://api.ngc.nvidia.com/v2/org/nim/team";

/// Where the function service answers.
pub const NVCF_API_BASE: &'static str = "https://api.nvcf.nvidia.com/v2/nvcf";

// ----------------------------------------------------------------------------
// Image coordinates and addresses
// ----------------------------------------------------------------------------
/// The organisation and the model of an image coordinate: the first two
/// segments after the registry prefix. A coordinate without the prefix or
/// with fewer than two segments has none.
pub open spec fn image_parts(image_url: Seq<char>) -> Option<(Seq<char>, Seq<char>)> {
    match without_prefix(image_url, "nvcr.io/nim/"@) {
        None => None,
        Some(rest) => {
            let parts = split_on(rest, '/');
            if parts.len() >= 2 {
                Some((parts[0], parts[1]))
            } else {
                None
            }
        },
    }
}

/// Splits an image coordinate into organisation and model.
pub fn parse_image_url(image_url: &str) -> (r: Option<(String, String)>)
    ensures
        r.deep_view() == image_parts(image_url@),
{
    match strip_prefix(image_url, "nvcr.io/nim/") {
        None => None,
        Some(rest) => {
            let parts = split(rest, '/');
            if parts.len() >= 2 {
                Some((parts[0].clone(), parts[1].clone()))
            } else {
                None
            }
        },
    }
}

/// The address that tells about the repository of an organisation's model.
pub open spec fn repo_info_url(team: Seq<char>, model: Seq<char>) -> Seq<char> {
    NGC_REGISTRY_API_BASE@ + "/"@ + team + "/repos/"@ + model
}

/// The address that lists all functions.
pub open spec fn function_list_url() -> Seq<char> {
    NVCF_API_BASE@ + "/functions"@
}

/// The address that lists the versions of a function.
pub open spec fn versions_url(function_id: Seq<char>) -> Seq<char> {
    NVCF_API_BASE@ + "/functions/"@ + function_id + "/versions"@
}

/// The address that tells about the repository of an organisation's model.
pub fn repo_info_address(team: &str, model: &str) -> (r: String)
    ensures
        r@ == repo_info_url(team@, model@),
{
    let a = concat(NGC_REGISTRY_API_BASE, "/");
    let b = concat(a.as_str(), team);
    let c = concat(b.as_str(), "/repos/");
    concat(c.as_str(), model)
}

/// The address that lists all functions.
pub fn function_list_address() -> (r: String)
    ensures
        r@ == function_list_url(),
{
    concat(NVCF_API_BASE, "/functions")
}

/// The address that lists the versions of a function.
pub fn versions_address(function_id: &str) -> (r: String)
    ensures
        r@ == versions_url(function_id@),
{
    let a = concat(NVCF_API_BASE, "/functions/");
    let b = concat(a.as_str(), function_id);
    concat(b.as_str(), "/versions")
}

// ----------------------------------------------------------------------------
// Names of models and of functions
// ----------------------------------------------------------------------------
/// The last segment of a model name.
pub open spec fn short_name_of(model: Seq<char>) -> Seq<char> {
    split_on(model, '/').last()
}

/// The short name in lowercase.
pub open spec fn lower_short_name_of(model: Seq<char>) -> Seq<char> {
    lowercase_of(short_name_of(model))
}

/// The short name as the function service writes it: in lowercase, with an
/// underscore for every dot.
pub open spec fn normalized_name_of(model: Seq<char>) -> Seq<char> {
    replace_all(lower_short_name_of(model), "."@, "_"@)
}

/// The normalized name with the service's prefix in front.
pub open spec fn ai_prefixed_name_of(model: Seq<char>) -> Seq<char> {
    "ai-"@ + normalized_name_of(model)
}

/// A function's name without the service's prefix in front, where it has
/// one.
pub open spec fn without_service_prefix(name: Seq<char>) -> Seq<char> {
    match without_prefix(name, "ai-"@) {
        Some(rest) => rest,
        None => name,
    }
}

/// Whether a function of this name serves the model. In lowercase, the
/// function's name is the prefixed name or begins with it, is the normalized
/// name or holds it, or holds the short name; or the short name holds the
/// function's name without the service's prefix.
pub open spec fn function_matches(function_name: Seq<char>, model: Seq<char>) -> bool {
    let f = lowercase_of(function_name);
    ||| f == ai_prefixed_name_of(model)
    ||| ai_prefixed_name_of(model).is_prefix_of(f)
    ||| f == normalized_name_of(model)
    ||| has_infix(f, normalized_name_of(model))
    ||| has_infix(f, lower_short_name_of(model))
    ||| has_infix(lower_short_name_of(model), without_service_prefix(f))
}

/// The test for the functions that serve a model.
pub open spec fn serves(model: Seq<char>) -> spec_fn(NgcFunctionDetailsView) -> bool {
    |f: NgcFunctionDetailsView| function_matches(f.name, model)
}

/// The identifier of the first function in the list that serves the model.
pub open spec fn function_for_model(
    functions: Seq<NgcFunctionDetailsView>,
    model: Seq<char>,
) -> Option<Seq<char>> {
    let i = first_index(functions, serves(model)) as int;
    if i < functions.len() {
        Some(functions[i].id)
    } else {
        None
    }
}

/// The last segment of a model name.
pub fn short_name(model_name: &str) -> (r: String)
    ensures
        r@ == short_name_of(model_name@),
{
    let parts = split(model_name, '/');
    proof {
        lemma_split_nonempty(model_name@, '/');
    }
    parts[parts.len() - 1].clone()
}

/// The short name as the function service writes it.
pub fn normalized_name(model_name: &str) -> (r: String)
    ensures
        r@ == normalized_name_of(model_name@),
{
    let short = short_name(model_name);
    let lower = to_lowercase(short.as_str());
    proof {
        reveal_strlit(".");
    }
    replace(lower.as_str(), ".", "_")
}

/// The normalized name with the service's prefix in front.
pub fn ai_prefixed_name(model_name: &str) -> (r: String)
    ensures
        r@ == ai_prefixed_name_of(model_name@),
{
    let normalized = normalized_name(model_name);
    concat("ai-", normalized.as_str())
}

/// Looks for the function that serves a model. The first function of the
/// list whose name matches is taken; that none matches is no error.
pub fn find_function_in(functions: &Vec<NgcFunctionDetails>, model_name: &str) -> (r: Option<
    String,
>)
    ensures
        r.deep_view() == function_for_model(functions.deep_view(), model_name@),
{
    let short = short_name(model_name);
    let short_lower = to_lowercase(short.as_str());
    proof {
        reveal_strlit(".");
    }
    let normalized = replace(short_lower.as_str(), ".", "_");
    let ai_prefixed = concat("ai-", normalized.as_str());
    let ghost views = functions.deep_view();
    let mut i: usize = 0;
    while i < functions.len()
        invariant
            i <= functions.len(),
            views == functions.deep_view(),
            short_lower@ == lower_short_name_of(model_name@),
            normalized@ == normalized_name_of(model_name@),
            ai_prefixed@ == ai_prefixed_name_of(model_name@),
            forall|j: int| 0 <= j < i ==> !function_matches((#[trigger] views[j]).name, model_name@),
        decreases functions.len() - i,
    {
        let name = to_lowercase(functions[i].name.as_str());
        let f = name.as_str();
        let is_match = same(f, ai_prefixed.as_str()) || starts_with(f, ai_prefixed.as_str())
            || same(f, normalized.as_str()) || contains(f, normalized.as_str()) || contains(
            f,
            short_lower.as_str(),
        ) || {
            let bare = match strip_prefix(f, "ai-") {
                Some(rest) => rest,
                None => f,
            };
            contains(short_lower.as_str(), bare)
        };
        if is_match {
            proof {
                assert(function_matches(views[i as int].name, model_name@));
                lemma_first_index_is(views, serves(model_name@), i as int);
            }
            return Some(functions[i].id.clone());
        }
        i += 1;
    }
    proof {
        lemma_first_index_is(views, serves(model_name@), i as int);
    }
    None
}

// ----------------------------------------------------------------------------
// Replies
// ----------------------------------------------------------------------------
/// What a reply about an image repository holds.
pub open spec fn repo_response_of(j: JsonView) -> NgcRepoResponseView {
    NgcRepoResponseView {
        name: j.text_member("name"@),
        latest_tag: j.text_member("latestTag"@),
        latest_version_id: j.text_member("latestVersionId"@),
        description: j.text_member("description"@),
    }
}

/// Reads a reply about an image repository.
pub fn read_repo_response(j: &Json) -> (r: NgcRepoResponse)
    ensures
        r@ == repo_response_of(j@),
{
    NgcRepoResponse {
        name: j.text_member("name"),
        latest_tag: j.text_member("latestTag"),
        latest_version_id: j.text_member("latestVersionId"),
        description: j.text_member("description"),
    }
}

/// What one entry of the list of functions holds, if it has an identifier
/// and a name.
pub open spec fn summary_of(j: JsonView) -> Option<NgcFunctionSummaryView> {
    match (j.text_member("id"@), j.text_member("name"@)) {
        (Some(id), Some(name)) => Some(
            NgcFunctionSummaryView { id, name, status: j.text_member("status"@) },
        ),
        _ => None,
    }
}

/// The entries of a list of functions, if every one has an identifier and a
/// name.
pub open spec fn summaries_of(items: Seq<JsonView>) -> Option<Seq<NgcFunctionSummaryView>>
    decreases items.len(),
{
    if items.len() == 0 {
        Some(Seq::empty())
    } else {
        match (summaries_of(items.drop_last()), summary_of(items.last())) {
            (Some(front), Some(last)) => Some(front.push(last)),
            _ => None,
        }
    }
}

/// What a reply that lists the functions holds: the entries under
/// `functions`. A reply without that array, or with an entry that lacks its
/// identifier or name, holds no list.
pub open spec fn function_list_of(j: JsonView) -> Option<NgcFunctionListResponseView> {
    match j.items_member("functions"@) {
        Some(items) => match summaries_of(items) {
            Some(functions) => Some(NgcFunctionListResponseView { functions }),
            None => None,
        },
        None => None,
    }
}

fn read_summary(j: &Json) -> (r: Option<NgcFunctionSummary>)
    ensures
        r.deep_view() == summary_of(j@),
{
    match j.text_member("id") {
        Some(id) => match j.text_member("name") {
            Some(name) => Some(NgcFunctionSummary { id, name, status: j.text_member("status") }),
            None => None,
        },
        None => None,
    }
}

/// Reads a reply that lists the functions.
pub fn read_function_list(j: &Json) -> (r: Option<NgcFunctionListResponse>)
    ensures
        r.deep_view() == function_list_of(j@),
{
    let items = match j.get("functions") {
        Some(m) => match m.as_array() {
            Some(items) => items,
            None => return None,
        },
        None => return None,
    };
    let ghost views = items.deep_view();
    let mut functions: Vec<NgcFunctionSummary> = Vec::new();
    let mut i: usize = 0;
    assert(views.take(0) =~= Seq::empty());
    assert(functions.deep_view() =~= Seq::empty());
    while i < items.len()
        invariant
            i <= items.len(),
            views == items.deep_view(),
            j@.items_member("functions"@) == Some(views),
            summaries_of(views.take(i as int)) == Some(functions.deep_view()),
        decreases items.len() - i,
    {
        let ghost before = functions.deep_view();
        proof {
            assert(views.take(i + 1).drop_last() =~= views.take(i as int));
            assert(views.take(i + 1).last() == items@[i as int]@);
        }
        match read_summary(&items[i]) {
            Some(summary) => {
                let ghost view = summary@;
                functions.push(summary);
                assert(functions.deep_view() =~= before.push(view));
            },
            None => {
                proof {
                    lemma_summaries_fail(views, i as int);
                }
                return None;
            },
        }
        i += 1;
    }
    assert(views.take(i as int) =~= views);
    Some(NgcFunctionListResponse { functions })
}

/// Where one entry lacks its identifier or name, the list has no entries.
proof fn lemma_summaries_fail(items: Seq<JsonView>, i: int)
    requires
        0 <= i < items.len(),
        summary_of(items[i]).is_none(),
    ensures
        summaries_of(items).is_none(),
    decreases items.len(),
{
    if i < items.len() - 1 {
        assert(items.drop_last()[i] == items[i]);
        lemma_summaries_fail(items.drop_last(), i);
    }
}

/// What is known of a function from one entry of the list.
pub open spec fn listed_function(s: NgcFunctionSummaryView) -> NgcFunctionDetailsView {
    NgcFunctionDetailsView { id: s.id, name: s.name, status: s.status, container_image: None }
}

/// The functions of a list, as far as the list tells.
pub open spec fn listed_functions(list: NgcFunctionListResponseView) -> Seq<
    NgcFunctionDetailsView,
> {
    Seq::new(list.functions.len(), |i: int| listed_function(list.functions[i]))
}

/// Turns the entries of a list into what is known of each function; the
/// image that backs a function is not in the list.
pub fn functions_of_list(list: NgcFunctionListResponse) -> (r: Vec<NgcFunctionDetails>)
    ensures
        r.deep_view() == listed_functions(list@),
{
    let ghost views = list@.functions;
    let ghost all = list.functions@;
    let mut out: Vec<NgcFunctionDetails> = Vec::new();
    for s in it: list.functions.into_iter()
        invariant
            it.seq() == all,
            views.len() == all.len(),
            forall|j: int| 0 <= j < all.len() ==> views[j] == all[j]@,
            out@.len() == it.index(),
            forall|j: int|
                0 <= j < it.index() ==> (#[trigger] out@[j])@ == listed_function(views[j]),
    {
        out.push(NgcFunctionDetails { id: s.id, name: s.name, status: s.status, container_image: None });
    }
    assert(out.deep_view() =~= listed_functions(list@));
    out
}

/// What stands in the way of reading the newest version from a reply.
#[derive(Debug, Clone, Copy, PartialEq, Eq, Structural)]
pub enum VersionsFault {
    /// The reply has no array under `functions`.
    MissingFunctions,
    /// The array is empty.
    EmptyFunctions,
}

/// The newest version in a reply that lists a function's versions: the first
/// entry of the array under `functions`. The service is taken to list the
/// newest version first.
pub open spec fn newest_version(j: JsonView) -> Result<JsonView, VersionsFault> {
    match j.items_member("functions"@) {
        None => Err(VersionsFault::MissingFunctions),
        Some(items) => if items.len() == 0 {
            Err(VersionsFault::EmptyFunctions)
        } else {
            Ok(items[0])
        },
    }
}

/// The name of the first model that a version serves.
pub open spec fn first_model_name(version: JsonView) -> Option<Seq<char>> {
    match version.items_member("models"@) {
        Some(models) => if models.len() > 0 {
            models[0].text_member("name"@)
        } else {
            None
        },
        None => None,
    }
}

/// What a version tells of its function: identifier, status and image as
/// the version gives them, the identifier asked for where it gives none, and
/// as name that of the first model it serves, else its own, else nothing.
pub open spec fn details_of(function_id: Seq<char>, version: JsonView) -> NgcFunctionDetailsView {
    NgcFunctionDetailsView {
        id: match version.text_member("id"@) {
            Some(id) => id,
            None => function_id,
        },
        name: match first_model_name(version) {
            Some(name) => name,
            None => match version.text_member("name"@) {
                Some(name) => name,
                None => Seq::empty(),
            },
        },
        status: version.text_member("status"@),
        container_image: version.text_member("containerImage"@),
    }
}

/// Picks the newest version out of a reply that lists a function's versions.
pub fn read_newest_version(j: &Json) -> (r: Result<&Json, VersionsFault>)
    ensures
        match r {
            Ok(v) => newest_version(j@) == Ok::<JsonView, VersionsFault>(v@),
            Err(e) => newest_version(j@) == Err::<JsonView, VersionsFault>(e),
        },
{
    let items = match j.get("functions") {
        Some(m) => match m.as_array() {
            Some(items) => items,
            None => return Err(VersionsFault::MissingFunctions),
        },
        None => return Err(VersionsFault::MissingFunctions),
    };
    if items.len() == 0 {
        Err(VersionsFault::EmptyFunctions)
    } else {
        Ok(&items[0])
    }
}

fn read_first_model_name(version: &Json) -> (r: Option<String>)
    ensures
        r.deep_view() == first_model_name(version@),
{
    match version.get("models") {
        Some(m) => match m.as_array() {
            Some(models) => {
                if models.len() > 0 {
                    models[0].text_member("name")
                } else {
                    None
                }
            },
            None => None,
        },
        None => None,
    }
}

/// Reads what a version tells of its function.
pub fn read_details(function_id: &str, version: &Json) -> (r: NgcFunctionDetails)
    ensures
        r@ == details_of(function_id@, version@),
{
    let id = match version.text_member("id") {
        Some(id) => id,
        None => String::from_str(function_id),
    };
    let name = match read_first_model_name(version) {
        Some(name) => name,
        None => match version.text_member("name") {
            Some(name) => name,
            None => String::new(),
        },
    };
    NgcFunctionDetails {
        id,
        name,
        status: version.text_member("status"),
        container_image: version.text_member("containerImage"),
    }
}

} // verus!
