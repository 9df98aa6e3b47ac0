//! Recognising references in the lines of a file, and sorting what was found.

use vstd::prelude::*;
use crate::models::{
    latest_tag, HostedNimMatch, HostedNimMatchView, LocalNimMatch, LocalNimMatchView, NimFindings,
    NimFindingsView, SourceType,
};
use crate::patterns::{
    model_rules, regex_captures, regex_find, Patterns, CONTEXT_MODEL, HOSTED_ENDPOINT,
    LOCAL_NIM_FULL, LOCAL_NIM_NO_TAG,
};
use crate::seqs::{
    dedup_by, first_index, has_key, lemma_dedup_idempotent, lemma_dedup_keeps_keys,
    lemma_first_index_is,
};
use crate::text::{
    concat, contains, ends_with, has_infix, join_with, lines, lines_of, lowercase_of,
    replace, replace_all, same, split, split_on, starts_with, strip_prefix, to_lowercase, trim,
    trim_of, without_prefix,
};

verus! {

// ----------------------------------------------------------------------------
// Categories of files
// ----------------------------------------------------------------------------
/// A path with backslashes turned into slashes.
pub open spec fn normalized_path(p: Seq<char>) -> Seq<char> {
    replace_all(p, "\\"@, "/"@)
}

/// Whether a path ends as a YAML file does.
pub open spec fn is_yaml_path(p: Seq<char>) -> bool {
    ".yml"@.is_suffix_of(p) || ".yaml"@.is_suffix_of(p)
}

/// Whether a path names a workflow file: a YAML file with the workflow
/// directory in its path.
pub open spec fn is_workflow_path(p: Seq<char>) -> bool {
    has_infix(normalized_path(p), ".github/workflows/"@) && is_yaml_path(normalized_path(p))
}

/// The category of a path.
pub open spec fn source_type_of(p: Seq<char>) -> SourceType {
    if is_workflow_path(p) {
        SourceType::ActionsWorkflow
    } else {
        SourceType::SourceCode
    }
}

/// The category of a file, by its path alone.
pub fn determine_source_type(file_path: &str) -> (r: SourceType)
    ensures
        r == source_type_of(file_path@),
{
    proof {
        reveal_strlit("\\");
    }
    let normalized = replace(file_path, "\\", "/");
    if contains(normalized.as_str(), ".github/workflows/") && (ends_with(
        normalized.as_str(),
        ".yml",
    ) || ends_with(normalized.as_str(), ".yaml")) {
        SourceType::ActionsWorkflow
    } else {
        SourceType::SourceCode
    }
}

// ----------------------------------------------------------------------------
// Which files are scanned
// ----------------------------------------------------------------------------
/// Whether a lowercase extension is one of those that are scanned.
pub open spec fn is_scan_extension(e: Seq<char>) -> bool {
    ||| e == "py"@
    ||| e == "yaml"@
    ||| e == "yml"@
    ||| e == "sh"@
    ||| e == "bash"@
    ||| e == "js"@
    ||| e == "ts"@
    ||| e == "jsx"@
    ||| e == "tsx"@
    ||| e == "dockerfile"@
    ||| e == "env"@
    ||| e == "json"@
    ||| e == "toml"@
    ||| e == "cfg"@
    ||| e == "ini"@
    ||| e == "conf"@
}

/// Whether a file of this name and extension is scanned: its name begins,
/// in any case, with `dockerfile`, or its extension is, in any case, one
/// of the scanned ones.
pub open spec fn scans_name(file_name: Seq<char>, extension: Option<Seq<char>>) -> bool {
    "dockerfile"@.is_prefix_of(lowercase_of(file_name)) || match extension {
        Some(e) => is_scan_extension(lowercase_of(e)),
        None => false,
    }
}

/// Whether a file of this name and extension is scanned.
pub fn should_scan_name(file_name: &str, extension: Option<&str>) -> (r: bool)
    ensures
        r == scans_name(file_name@, extension.deep_view()),
{
    let lower = to_lowercase(file_name);
    if starts_with(lower.as_str(), "dockerfile") {
        return true;
    }
    match extension {
        Some(e) => {
            let ext = to_lowercase(e);
            let x = ext.as_str();
            same(x, "py") || same(x, "yaml") || same(x, "yml") || same(x, "sh") || same(x, "bash")
                || same(x, "js") || same(x, "ts") || same(x, "jsx") || same(x, "tsx") || same(
                x,
                "dockerfile",
            ) || same(x, "env") || same(x, "json") || same(x, "toml") || same(x, "cfg") || same(
                x,
                "ini",
            ) || same(x, "conf")
        },
        None => false,
    }
}

/// Whether a text is a name that every platform reads as one ordinary
/// component of a path: it is not empty, holds neither a backslash nor a
/// colon, and is neither `.` nor `..`.
pub open spec fn is_plain_name(c: Seq<char>) -> bool {
    c.len() > 0 && !c.contains('\\') && !c.contains(':') && c != "."@ && c != ".."@
}

/// Whether a path is made of plain names with single slashes between them.
/// Such a path falls into the same components on every platform.
pub open spec fn is_plain_path(p: Seq<char>) -> bool {
    forall|i: int| 0 <= i < split_on(p, '/').len() ==> is_plain_name(#[trigger] split_on(p, '/')[i])
}

/// The last of the components of a path that slashes part.
pub open spec fn last_component(p: Seq<char>) -> Seq<char> {
    split_on(p, '/').last()
}

/// The extension of a file name: what follows its last dot. A name without a
/// dot has none, and neither has a name whose only dot is in front.
pub open spec fn extension_of_name(file_name: Seq<char>) -> Option<Seq<char>> {
    let pieces = split_on(file_name, '.');
    if pieces.len() < 2 || (pieces.len() == 2 && pieces[0].len() == 0) {
        None
    } else {
        Some(pieces.last())
    }
}

/// `Path::file_name`: the last component of a path as text, where the path
/// has one. For a path of plain names with slashes between them, that is the
/// last name on every platform; of other paths nothing is said, since how
/// they fall into components is the platform's matter.
#[verifier::external_body]
fn file_name_of(path: &str) -> (r: Option<String>)
    ensures
        is_plain_path(path@) ==> r.deep_view() == Some(last_component(path@)),
{
    std::path::Path::new(path).file_name().and_then(|n| n.to_str()).map(|n| n.to_string())
}

/// The extension of a file name.
pub fn extension_of(file_name: &str) -> (r: Option<String>)
    ensures
        r.deep_view() == extension_of_name(file_name@),
{
    let pieces = split(file_name, '.');
    proof {
        lemma_split_nonempty(file_name@, '.');
    }
    let count = pieces.len();
    if count < 2 || (count == 2 && pieces[0].as_str().is_empty()) {
        None
    } else {
        Some(pieces[count - 1].clone())
    }
}

/// Whether a file with this file name is scanned, going by the name and its
/// extension.
pub open spec fn scans_file_name(file_name: Seq<char>) -> bool {
    scans_name(file_name, extension_of_name(file_name))
}

/// Whether the file at `path` is scanned, going by its file name and the
/// extension of that name.
///
/// For a path of plain names with slashes between them the file name is the
/// last of them. For any other path it is what the platform reads as the
/// file name; a path without one counts as one with an empty name.
pub fn should_scan_file(path: &str) -> (r: bool)
    ensures
        is_plain_path(path@) ==> r == scans_file_name(last_component(path@)),
        exists|file_name: Seq<char>| r == #[trigger] scans_file_name(file_name),
{
    let name = match file_name_of(path) {
        Some(n) => n,
        None => String::new(),
    };
    let extension = extension_of(name.as_str());
    let r = match &extension {
        Some(e) => should_scan_name(name.as_str(), Some(e.as_str())),
        None => should_scan_name(name.as_str(), None),
    };
    assert(r == scans_file_name(name@));
    r
}

/// Whether a directory of this name is left out of a scan: the version
/// control directory, and the directories of dependencies, caches and builds.
pub open spec fn is_skipped_dir(name: Seq<char>) -> bool {
    ||| name == ".git"@
    ||| name == "node_modules"@
    ||| name == "vendor"@
    ||| name == "__pycache__"@
    ||| name == ".venv"@
    ||| name == "venv"@
    ||| name == "target"@
    ||| name == "build"@
    ||| name == "dist"@
    ||| name == ".tox"@
    ||| name == ".pytest_cache"@
    ||| name == ".mypy_cache"@
    ||| name == "eggs"@
    ||| name == ".eggs"@
}

/// Whether a path component names a directory that is left out of a scan.
/// Only a whole component counts.
pub fn is_skipped_component(name: &str) -> (r: bool)
    ensures
        r == is_skipped_dir(name@),
{
    same(name, ".git") || same(name, "node_modules") || same(name, "vendor") || same(
        name,
        "__pycache__",
    ) || same(name, ".venv") || same(name, "venv") || same(name, "target") || same(name, "build")
        || same(name, "dist") || same(name, ".tox") || same(name, ".pytest_cache") || same(
        name,
        ".mypy_cache",
    ) || same(name, "eggs") || same(name, ".eggs")
}

/// Whether one of a path's components names a directory that is left out.
pub fn is_excluded_path(components: &Vec<String>) -> (r: bool)
    ensures
        r == exists|i: int|
            0 <= i < components.len() && is_skipped_dir(#[trigger] components.deep_view()[i]),
{
    let mut i: usize = 0;
    while i < components.len()
        invariant
            i <= components.len(),
            forall|j: int| 0 <= j < i ==> !is_skipped_dir(#[trigger] components.deep_view()[j]),
        decreases components.len() - i,
    {
        if is_skipped_component(components[i].as_str()) {
            assert(is_skipped_dir(components.deep_view()[i as int]));
            return true;
        }
        i += 1;
    }
    false
}

/// Whether one of the components names a directory that is left out.
pub open spec fn has_skipped_dir(components: Seq<Seq<char>>) -> bool {
    exists|i: int| 0 <= i < components.len() && is_skipped_dir(#[trigger] components[i])
}

/// Whether a file is a candidate for a scan: none of the components of its
/// path names a directory that is left out, and its file name or the
/// extension of that name makes it one of the scanned files.
pub fn is_scan_candidate(components: &Vec<String>, path: &str) -> (r: bool)
    ensures
        has_skipped_dir(components.deep_view()) ==> !r,
        !has_skipped_dir(components.deep_view()) && is_plain_path(path@) ==> r == scans_file_name(
            last_component(path@),
        ),
        !has_skipped_dir(components.deep_view()) ==> exists|file_name: Seq<char>|
            r == #[trigger] scans_file_name(file_name),
{
    if is_excluded_path(components) {
        false
    } else {
        should_scan_file(path)
    }
}

// ----------------------------------------------------------------------------
// Container references
// ----------------------------------------------------------------------------
/// The text of group `i` of what a pattern captured, if the group exists and
/// took part in the match.
pub open spec fn group(caps: Seq<Option<Seq<char>>>, i: int) -> Option<Seq<char>> {
    if 0 <= i < caps.len() {
        caps[i]
    } else {
        None
    }
}

/// An optional text, or another where it is absent.
pub open spec fn text_or(t: Option<Seq<char>>, fallback: Seq<char>) -> Seq<char> {
    match t {
        Some(s) => s,
        None => fallback,
    }
}

/// The prefix of every image coordinate of the registry namespace.
pub open spec fn image_prefix() -> Seq<char> {
    "nvcr.io/nim/"@
}

/// The container reference of a line, if it has one. The tagged pattern is
/// tried first; where only the untagged pattern matches, the tag is `latest`.
/// Nothing is looked up yet, so no resolved tag is set.
pub open spec fn local_match_of(
    line: Seq<char>,
    line_number: nat,
    file_path: Seq<char>,
    repository: Seq<char>,
) -> Option<LocalNimMatchView> {
    match regex_captures(LOCAL_NIM_FULL@, line) {
        Some(caps) => Some(
            LocalNimMatchView {
                repository,
                image_url: image_prefix() + text_or(group(caps, 1), Seq::empty()),
                tag: text_or(group(caps, 2), latest_tag()),
                resolved_tag: None,
                file_path,
                line_number,
                match_context: trim_of(line),
            },
        ),
        None => match regex_captures(LOCAL_NIM_NO_TAG@, line) {
            Some(caps) => Some(
                LocalNimMatchView {
                    repository,
                    image_url: image_prefix() + text_or(group(caps, 1), Seq::empty()),
                    tag: latest_tag(),
                    resolved_tag: None,
                    file_path,
                    line_number,
                    match_context: trim_of(line),
                },
            ),
            None => None,
        },
    }
}

/// Group `i` of what a pattern captured.
fn group_of(caps: &Vec<Option<String>>, i: usize) -> (r: Option<&String>)
    ensures
        r.deep_view() == group(caps.deep_view(), i as int),
{
    if i < caps.len() {
        caps[i].as_ref()
    } else {
        None
    }
}

/// The image coordinate for what group 1 captured.
fn image_of(caps: &Vec<Option<String>>) -> (r: String)
    ensures
        r@ == image_prefix() + text_or(group(caps.deep_view(), 1), Seq::empty()),
{
    match group_of(caps, 1) {
        Some(name) => concat("nvcr.io/nim/", name.as_str()),
        None => {
            assert(image_prefix() + Seq::<char>::empty() =~= image_prefix());
            String::from_str("nvcr.io/nim/")
        },
    }
}

/// Looks for a container reference in a line.
///
/// Where the line matches the tagged pattern, the tag is what the pattern's
/// tag group captured; where it matches the untagged pattern only, the tag is
/// `latest`. Either way the resolved tag is unset. Only the first match
/// counts.
pub fn extract_local_nim(
    patterns: &Patterns,
    line: &str,
    line_number: usize,
    file_path: &str,
    repository: &str,
) -> (r: Option<LocalNimMatch>)
    ensures
        r.deep_view() == local_match_of(line@, line_number as nat, file_path@, repository@),
        r.is_some() == (regex_captures(LOCAL_NIM_FULL@, line@).is_some() || regex_captures(
            LOCAL_NIM_NO_TAG@,
            line@,
        ).is_some()),
        forall|caps: Seq<Option<Seq<char>>>, tag: Seq<char>|
            regex_captures(LOCAL_NIM_FULL@, line@) == Some(caps) && group(caps, 2) == Some(tag)
                ==> r.is_some() && r.unwrap().tag@ == tag,
        regex_captures(LOCAL_NIM_FULL@, line@).is_none() && regex_captures(
            LOCAL_NIM_NO_TAG@,
            line@,
        ).is_some() ==> r.is_some() && r.unwrap().tag@ == latest_tag(),
        r.is_some() ==> r.unwrap().resolved_tag.is_none(),
{
    match patterns.local_full(line) {
        Some(caps) => {
            let tag = match group_of(&caps, 2) {
                Some(t) => t.clone(),
                None => String::from_str("latest"),
            };
            return Some(
                LocalNimMatch {
                    repository: String::from_str(repository),
                    image_url: image_of(&caps),
                    tag,
                    resolved_tag: None,
                    file_path: String::from_str(file_path),
                    line_number,
                    match_context: String::from_str(trim(line)),
                },
            );
        },
        None => {},
    }
    match patterns.local_no_tag(line) {
        Some(caps) => Some(
            LocalNimMatch {
                repository: String::from_str(repository),
                image_url: image_of(&caps),
                tag: String::from_str("latest"),
                resolved_tag: None,
                file_path: String::from_str(file_path),
                line_number,
                match_context: String::from_str(trim(line)),
            },
        ),
        None => None,
    }
}

// ----------------------------------------------------------------------------
// Hosted references
// ----------------------------------------------------------------------------
/// The rest of a URL after its scheme, if it has one of the two schemes.
pub open spec fn after_scheme(url: Seq<char>) -> Option<Seq<char>> {
    match without_prefix(url, "https://"@) {
        Some(rest) => Some(rest),
        None => without_prefix(url, "http://"@),
    }
}

/// Whether a URL path is one of the generic ones, which name no model.
pub open spec fn is_generic_path(path: Seq<char>) -> bool {
    ||| path.len() == 0
    ||| path == "v1"@
    ||| "/chat/completions"@.is_suffix_of(path)
    ||| "/embeddings"@.is_suffix_of(path)
    ||| "/completions"@.is_suffix_of(path)
}

/// Whether a path segment can be an organisation.
pub open spec fn is_org_segment(org: Seq<char>) -> bool {
    org.len() > 0 && org != "v1"@ && org != "chat"@ && org != "embeddings"@
}

/// The model that a URL's path names: the last two path segments, as
/// `org/model`, unless the path is generic, has fewer than two segments, one
/// of the two is empty or the organisation is a word of the API itself.
pub open spec fn model_from_url(url: Seq<char>) -> Option<Seq<char>> {
    match after_scheme(url) {
        None => None,
        Some(rest) => {
            let segments = split_on(rest, '/').skip(1);
            let path = join_with(segments, "/"@);
            let n = segments.len() as int;
            if is_generic_path(path) || n < 2 {
                None
            } else if is_org_segment(segments[n - 2]) && segments[n - 1].len() > 0 {
                Some(segments[n - 2] + "/"@ + segments[n - 1])
            } else {
                None
            }
        },
    }
}

/// The path of a URL: what follows the host, joined by slashes again.
fn path_of(parts: &Vec<String>) -> (r: String)
    requires
        parts.len() >= 1,
    ensures
        r@ == join_with(parts.deep_view().skip(1), "/"@),
{
    let ghost segments = parts.deep_view().skip(1);
    let mut out = String::new();
    let mut i: usize = 1;
    assert(segments.take(0) =~= Seq::empty());
    while i < parts.len()
        invariant
            1 <= i <= parts.len(),
            segments == parts.deep_view().skip(1),
            out@ == join_with(segments.take(i - 1), "/"@),
        decreases parts.len() - i,
    {
        proof {
            let next = segments.take(i as int);
            assert(next.drop_last() =~= segments.take(i - 1));
            assert(next.last() == parts@[i as int]@);
        }
        if i > 1 {
            out.append("/");
        }
        out.append(parts[i].as_str());
        proof {
            if i == 1 {
                assert(Seq::<char>::empty() + parts@[i as int]@ =~= parts@[i as int]@);
            }
        }
        i += 1;
    }
    assert(segments.take(i - 1) =~= segments);
    out
}

/// The model that an endpoint's path names, if it names one.
pub fn extract_model_from_url(url: &str) -> (r: Option<String>)
    ensures
        r.deep_view() == model_from_url(url@),
{
    let rest = match strip_prefix(url, "https://") {
        Some(rest) => rest,
        None => match strip_prefix(url, "http://") {
            Some(rest) => rest,
            None => return None,
        },
    };
    let parts = split(rest, '/');
    proof {
        lemma_split_nonempty(rest@, '/');
    }
    let path = path_of(&parts);
    let p = path.as_str();
    proof {
        reveal_strlit("");
    }
    if path.as_str().is_empty() || same(p, "v1") || ends_with(p, "/chat/completions")
        || ends_with(p, "/embeddings") || ends_with(p, "/completions") {
        return None;
    }
    let count = parts.len();
    if count < 3 {
        return None;
    }
    let org = parts[count - 2].as_str();
    let model = parts[count - 1].as_str();
    let ghost segments = parts.deep_view().skip(1);
    assert(segments[segments.len() - 2] == org@);
    assert(segments[segments.len() - 1] == model@);
    if org.unicode_len() > 0 && model.unicode_len() > 0 && !same(org, "v1") && !same(org, "chat")
        && !same(org, "embeddings") {
        let with_slash = concat(org, "/");
        Some(concat(with_slash.as_str(), model))
    } else {
        None
    }
}

/// A text always splits into at least one piece.
pub proof fn lemma_split_nonempty(s: Seq<char>, sep: char)
    ensures
        split_on(s, sep).len() >= 1,
    decreases s.len(),
{
    let i = crate::text::find_char(s, sep) as int;
    if i < s.len() {
        lemma_split_nonempty(s.skip(i + 1), sep);
    }
}

/// What one explicit rule says of the model of a line: the first group of
/// what the rule's pattern captures.
pub open spec fn model_by_rule(pattern: Seq<char>, line: Seq<char>) -> Option<Seq<char>> {
    match regex_captures(pattern, line) {
        Some(caps) => group(caps, 1),
        None => None,
    }
}

/// The test for the rules that name a model in a line.
pub open spec fn rule_test(line: Seq<char>) -> spec_fn(Seq<char>) -> bool {
    |pattern: Seq<char>| model_by_rule(pattern, line).is_some()
}

/// The model that a line names explicitly: what the first rule that names
/// one says, the rules taken in their order.
pub open spec fn explicit_model(line: Seq<char>) -> Option<Seq<char>> {
    let i = first_index(model_rules(), rule_test(line)) as int;
    if i < model_rules().len() {
        model_by_rule(model_rules()[i], line)
    } else {
        None
    }
}

/// The hosted reference of a line, if it has one: an endpoint, a model, or
/// both. The model is the one named explicitly, else the one that the
/// endpoint's path names.
pub open spec fn hosted_match_of(
    line: Seq<char>,
    line_number: nat,
    file_path: Seq<char>,
    repository: Seq<char>,
) -> Option<HostedNimMatchView> {
    let endpoint = regex_find(HOSTED_ENDPOINT@, line);
    let model = match explicit_model(line) {
        Some(m) => Some(m),
        None => match endpoint {
            Some(url) => model_from_url(url),
            None => None,
        },
    };
    if endpoint.is_some() || model.is_some() {
        Some(
            HostedNimMatchView {
                repository,
                endpoint_url: endpoint,
                model_name: model,
                file_path,
                line_number,
                match_context: trim_of(line),
                function_id: None,
                status: None,
                container_image: None,
            },
        )
    } else {
        None
    }
}

/// A sequence of at most one element.
pub open spec fn opt_seq<T>(o: Option<T>) -> Seq<T> {
    match o {
        Some(x) => seq![x],
        None => Seq::empty(),
    }
}

/// The model that a line names explicitly.
fn explicit_model_of(patterns: &Patterns, line: &str) -> (r: Option<String>)
    ensures
        r.deep_view() == explicit_model(line@),
{
    let mut rank: usize = 0;
    while rank < 4
        invariant
            rank <= 4,
            model_rules().len() == 4,
            forall|j: int| 0 <= j < rank ==> model_by_rule(#[trigger] model_rules()[j], line@)
                == None::<Seq<char>>,
        decreases 4 - rank,
    {
        match patterns.model_rule(rank, line) {
            Some(caps) => match group_of(&caps, 1) {
                Some(name) => {
                    proof {
                        lemma_first_index_is(model_rules(), rule_test(line@), rank as int);
                    }
                    return Some(name.clone());
                },
                None => {},
            },
            None => {},
        }
        rank += 1;
    }
    proof {
        lemma_first_index_is(model_rules(), rule_test(line@), 4);
    }
    None
}

/// Looks for a hosted reference in a line. There is at most one: it holds
/// the endpoint, the model, or both.
pub fn extract_hosted_nim(
    patterns: &Patterns,
    line: &str,
    line_number: usize,
    file_path: &str,
    repository: &str,
) -> (r: Vec<HostedNimMatch>)
    ensures
        r.deep_view() == opt_seq(
            hosted_match_of(line@, line_number as nat, file_path@, repository@),
        ),
        r.len() <= 1,
        forall|i: int|
            0 <= i < r.len() ==> (#[trigger] r.deep_view()[i]).endpoint_url.is_some()
                || r.deep_view()[i].model_name.is_some(),
{
    let mut matches: Vec<HostedNimMatch> = Vec::new();
    let endpoint = patterns.hosted_endpoint(line);
    let mut model_name = explicit_model_of(patterns, line);
    if model_name.is_none() {
        match &endpoint {
            Some(url) => {
                model_name = extract_model_from_url(url.as_str());
            },
            None => {},
        }
    }
    if endpoint.is_some() || model_name.is_some() {
        let found = HostedNimMatch {
            repository: String::from_str(repository),
            endpoint_url: endpoint,
            model_name,
            file_path: String::from_str(file_path),
            line_number,
            match_context: String::from_str(trim(line)),
            function_id: None,
            status: None,
            container_image: None,
        };
        let ghost view = found@;
        matches.push(found);
        assert(matches.deep_view() =~= seq![view]);
    } else {
        assert(matches.deep_view() =~= Seq::empty());
    }
    matches
}

// ----------------------------------------------------------------------------
// Models from the lines around an endpoint
// ----------------------------------------------------------------------------
/// How many lines on either side of an endpoint are searched for its model.
pub const CONTEXT_RANGE: usize = 10;

/// The model that line `i` assigns to a `model` or `model_name` key, if there
/// is such a line and it assigns one.
pub open spec fn context_model_at(lines: Seq<Seq<char>>, i: int) -> Option<Seq<char>> {
    if 0 <= i < lines.len() {
        model_by_rule(CONTEXT_MODEL@, lines[i])
    } else {
        None
    }
}

/// The model assigned by the nearest line above line `i`, no higher up than
/// line `low`.
pub open spec fn search_back(lines: Seq<Seq<char>>, i: int, low: int) -> Option<Seq<char>>
    decreases i - low,
{
    if i <= low {
        None
    } else {
        match context_model_at(lines, i - 1) {
            Some(m) => Some(m),
            None => search_back(lines, i - 1, low),
        }
    }
}

/// The model assigned by the nearest line from line `i` on, before line
/// `high`.
pub open spec fn search_forward(lines: Seq<Seq<char>>, i: int, high: int) -> Option<Seq<char>>
    decreases high - i,
{
    if i >= high {
        None
    } else {
        match context_model_at(lines, i) {
            Some(m) => Some(m),
            None => search_forward(lines, i + 1, high),
        }
    }
}

/// The model assigned near line `current`: by the nearest of the `range`
/// lines above it, else by the nearest of the `range` lines below it.
pub open spec fn context_model(lines: Seq<Seq<char>>, current: int, range: int) -> Option<
    Seq<char>,
> {
    let low = if current - range > 0 {
        current - range
    } else {
        0
    };
    let high = if current + range + 1 < lines.len() {
        current + range + 1
    } else {
        lines.len() as int
    };
    match search_back(lines, current, low) {
        Some(m) => Some(m),
        None => search_forward(lines, current + 1, high),
    }
}

/// The model that one line assigns.
fn model_in_line(patterns: &Patterns, lines: &Vec<String>, i: usize) -> (r: Option<String>)
    ensures
        r.deep_view() == context_model_at(lines.deep_view(), i as int),
{
    if i < lines.len() {
        match patterns.context_model(lines[i].as_str()) {
            Some(caps) => match group_of(&caps, 1) {
                Some(name) => Some(name.clone()),
                None => None,
            },
            None => None,
        }
    } else {
        None
    }
}

/// Looks for the model of an endpoint in the lines around it: first upwards
/// from the line above, then downwards from the line below, `range` lines
/// each way. The nearest line above wins over every line below.
pub fn find_model_name_in_context(
    patterns: &Patterns,
    lines: &Vec<String>,
    current_line: usize,
    range: usize,
) -> (r: Option<String>)
    ensures
        r.deep_view() == context_model(lines.deep_view(), current_line as int, range as int),
{
    let ghost views = lines.deep_view();
    let low = if current_line > range {
        current_line - range
    } else {
        0
    };
    let ghost wanted = context_model(views, current_line as int, range as int);
    let mut i = current_line;
    while i > low
        invariant
            low <= i <= current_line,
            views == lines.deep_view(),
            wanted == context_model(views, current_line as int, range as int),
            low as int == if current_line - range > 0 {
                current_line - range
            } else {
                0
            },
            search_back(views, current_line as int, low as int) == search_back(
                views,
                i as int,
                low as int,
            ),
        decreases i - low,
    {
        match model_in_line(patterns, lines, i - 1) {
            Some(name) => {
                return Some(name);
            },
            None => {},
        }
        i -= 1;
    }
    if current_line >= lines.len() {
        return None;
    }
    let after = lines.len() - 1 - current_line;
    let high = if range < after {
        current_line + 1 + range
    } else {
        lines.len()
    };
    let mut k = current_line + 1;
    while k < high
        invariant
            current_line + 1 <= k,
            high <= lines.len(),
            views == lines.deep_view(),
            wanted == context_model(views, current_line as int, range as int),
            wanted == search_forward(views, current_line + 1, high as int),
            search_forward(views, current_line + 1, high as int) == search_forward(
                views,
                k as int,
                high as int,
            ),
        decreases high - k,
    {
        match model_in_line(patterns, lines, k) {
            Some(name) => {
                return Some(name);
            },
            None => {},
        }
        k += 1;
    }
    None
}

// ----------------------------------------------------------------------------
// The references of a file
// ----------------------------------------------------------------------------
/// The hosted reference of line `i` of a file, with the model of an endpoint
/// in a YAML file taken from the lines around it where the line names none.
pub open spec fn completed_hosted(
    lines: Seq<Seq<char>>,
    i: int,
    file_path: Seq<char>,
    repository: Seq<char>,
) -> Option<HostedNimMatchView> {
    match hosted_match_of(lines[i], (i + 1) as nat, file_path, repository) {
        None => None,
        Some(m) => if is_yaml_path(file_path) && m.model_name.is_none()
            && m.endpoint_url.is_some() {
            Some(
                HostedNimMatchView {
                    model_name: context_model(lines, i, CONTEXT_RANGE as int),
                    ..m
                },
            )
        } else {
            Some(m)
        },
    }
}

/// The container references of the first `n` lines, in the order of the
/// lines, which are numbered from 1.
pub open spec fn local_matches(
    lines: Seq<Seq<char>>,
    n: int,
    file_path: Seq<char>,
    repository: Seq<char>,
) -> Seq<LocalNimMatchView>
    decreases n,
{
    if n <= 0 {
        Seq::empty()
    } else {
        local_matches(lines, n - 1, file_path, repository) + opt_seq(
            local_match_of(lines[n - 1], n as nat, file_path, repository),
        )
    }
}

/// The hosted references of the first `n` lines, in the order of the lines.
pub open spec fn hosted_matches(
    lines: Seq<Seq<char>>,
    n: int,
    file_path: Seq<char>,
    repository: Seq<char>,
) -> Seq<HostedNimMatchView>
    decreases n,
{
    if n <= 0 {
        Seq::empty()
    } else {
        hosted_matches(lines, n - 1, file_path, repository) + opt_seq(
            completed_hosted(lines, n - 1, file_path, repository),
        )
    }
}

/// What is found in a file is of that file and of its lines: every
/// reference carries the file's path, the source collection and the number
/// of a line of the file; a container reference has no resolved tag yet, and
/// a hosted reference names an endpoint or a model. No line gives more than
/// one reference of a family.
pub proof fn lemma_matches_of_file(
    lines: Seq<Seq<char>>,
    n: int,
    file_path: Seq<char>,
    repository: Seq<char>,
)
    requires
        0 <= n <= lines.len(),
    ensures
        local_matches(lines, n, file_path, repository).len() <= n,
        hosted_matches(lines, n, file_path, repository).len() <= n,
        forall|i: int|
            0 <= i < local_matches(lines, n, file_path, repository).len() ==> {
                let m = #[trigger] local_matches(lines, n, file_path, repository)[i];
                &&& m.file_path == file_path
                &&& m.repository == repository
                &&& 1 <= m.line_number <= n
                &&& m.resolved_tag.is_none()
            },
        forall|i: int|
            0 <= i < hosted_matches(lines, n, file_path, repository).len() ==> {
                let m = #[trigger] hosted_matches(lines, n, file_path, repository)[i];
                &&& m.file_path == file_path
                &&& m.repository == repository
                &&& 1 <= m.line_number <= n
                &&& (m.endpoint_url.is_some() || m.model_name.is_some())
                &&& m.function_id.is_none() && m.status.is_none() && m.container_image.is_none()
            },
    decreases n,
{
    if n > 0 {
        lemma_matches_of_file(lines, n - 1, file_path, repository);
        let local_front = local_matches(lines, n - 1, file_path, repository);
        let hosted_front = hosted_matches(lines, n - 1, file_path, repository);
        let local_all = local_matches(lines, n, file_path, repository);
        let hosted_all = hosted_matches(lines, n, file_path, repository);
        assert forall|i: int| 0 <= i < local_all.len() implies {
            let m = #[trigger] local_all[i];
            &&& m.file_path == file_path
            &&& m.repository == repository
            &&& 1 <= m.line_number <= n
            &&& m.resolved_tag.is_none()
        } by {
            if i < local_front.len() {
                assert(local_all[i] == local_front[i]);
            }
        }
        assert forall|i: int| 0 <= i < hosted_all.len() implies {
            let m = #[trigger] hosted_all[i];
            &&& m.file_path == file_path
            &&& m.repository == repository
            &&& 1 <= m.line_number <= n
            &&& (m.endpoint_url.is_some() || m.model_name.is_some())
            &&& m.function_id.is_none() && m.status.is_none() && m.container_image.is_none()
        } by {
            if i < hosted_front.len() {
                assert(hosted_all[i] == hosted_front[i]);
            }
        }
    }
}

/// Scans the text of one file: every line is searched for a container
/// reference and for a hosted reference, and what is found carries the
/// file's path, the source collection and the line's number.
pub fn scan_content(patterns: &Patterns, content: &str, file_path: &str, repository: &str) -> (r: (
    Vec<LocalNimMatch>,
    Vec<HostedNimMatch>,
))
    ensures
        r.0.deep_view() == local_matches(
            lines_of(content@),
            lines_of(content@).len() as int,
            file_path@,
            repository@,
        ),
        r.1.deep_view() == hosted_matches(
            lines_of(content@),
            lines_of(content@).len() as int,
            file_path@,
            repository@,
        ),
        forall|i: int|
            0 <= i < r.0.len() ==> (#[trigger] r.0.deep_view()[i]).resolved_tag.is_none() && 1
                <= r.0.deep_view()[i].line_number <= lines_of(content@).len(),
        forall|i: int|
            0 <= i < r.1.len() ==> ((#[trigger] r.1.deep_view()[i]).endpoint_url.is_some()
                || r.1.deep_view()[i].model_name.is_some()) && 1
                <= r.1.deep_view()[i].line_number <= lines_of(content@).len(),
{
    proof {
        lemma_matches_of_file(
            lines_of(content@),
            lines_of(content@).len() as int,
            file_path@,
            repository@,
        );
    }
    let all = lines(content);
    let ghost views = all.deep_view();
    let is_yaml = ends_with(file_path, ".yml") || ends_with(file_path, ".yaml");
    let mut local: Vec<LocalNimMatch> = Vec::new();
    let mut hosted: Vec<HostedNimMatch> = Vec::new();
    assert(local.deep_view() =~= Seq::empty());
    assert(hosted.deep_view() =~= Seq::empty());
    let mut i: usize = 0;
    while i < all.len()
        invariant
            i <= all.len(),
            views == all.deep_view(),
            is_yaml == is_yaml_path(file_path@),
            local.deep_view() == local_matches(views, i as int, file_path@, repository@),
            hosted.deep_view() == hosted_matches(views, i as int, file_path@, repository@),
        decreases all.len() - i,
    {
        let line = all[i].as_str();
        let ghost local_before = local.deep_view();
        let ghost hosted_before = hosted.deep_view();
        match extract_local_nim(patterns, line, i + 1, file_path, repository) {
            Some(m) => {
                let ghost view = m@;
                local.push(m);
                assert(local.deep_view() =~= local_before + seq![view]);
            },
            None => {
                assert(local_before + Seq::<LocalNimMatchView>::empty() =~= local_before);
            },
        }
        let mut found = extract_hosted_nim(patterns, line, i + 1, file_path, repository);
        let ghost plain = hosted_match_of(views[i as int], (i + 1) as nat, file_path@, repository@);
        assert(found.deep_view() == opt_seq(plain));
        assert(found@.len() == opt_seq(plain).len());
        match found.pop() {
            Some(m) => {
                assert(m@ == opt_seq(plain)[0]);
                let mut m = m;
                if is_yaml && m.model_name.is_none() && m.endpoint_url.is_some() {
                    m.model_name = find_model_name_in_context(patterns, &all, i, CONTEXT_RANGE);
                }
                let ghost view = m@;
                hosted.push(m);
                assert(hosted.deep_view() =~= hosted_before + seq![view]);
            },
            None => {
                assert(hosted_before + Seq::<HostedNimMatchView>::empty() =~= hosted_before);
            },
        }
        i += 1;
    }
    (local, hosted)
}

/// The container references of the first `n` files, one file's after the
/// other's.
pub open spec fn joined_local(
    files: Seq<(Seq<LocalNimMatchView>, Seq<HostedNimMatchView>)>,
    n: int,
) -> Seq<LocalNimMatchView>
    decreases n,
{
    if n <= 0 {
        Seq::empty()
    } else {
        joined_local(files, n - 1) + files[n - 1].0
    }
}

/// The hosted references of the first `n` files, one file's after the
/// other's.
pub open spec fn joined_hosted(
    files: Seq<(Seq<LocalNimMatchView>, Seq<HostedNimMatchView>)>,
    n: int,
) -> Seq<HostedNimMatchView>
    decreases n,
{
    if n <= 0 {
        Seq::empty()
    } else {
        joined_hosted(files, n - 1) + files[n - 1].1
    }
}

/// Puts what was found in several files together: the references of each
/// family, file after file, in the order in which the files are given.
pub fn merge_scans(files: Vec<(Vec<LocalNimMatch>, Vec<HostedNimMatch>)>) -> (r: (
    Vec<LocalNimMatch>,
    Vec<HostedNimMatch>,
))
    ensures
        r.0.deep_view() == joined_local(files.deep_view(), files.len() as int),
        r.1.deep_view() == joined_hosted(files.deep_view(), files.len() as int),
{
    let ghost views = files.deep_view();
    let ghost all = files@;
    let mut local: Vec<LocalNimMatch> = Vec::new();
    let mut hosted: Vec<HostedNimMatch> = Vec::new();
    assert(local.deep_view() =~= Seq::empty());
    assert(hosted.deep_view() =~= Seq::empty());
    for file in it: files.into_iter()
        invariant
            it.seq() == all,
            views.len() == all.len(),
            forall|j: int| 0 <= j < all.len() ==> views[j] == all[j].deep_view(),
            local.deep_view() == joined_local(views, it.index() as int),
            hosted.deep_view() == joined_hosted(views, it.index() as int),
    {
        let ghost k = it.index() as int;
        let ghost local_before = local.deep_view();
        let ghost hosted_before = hosted.deep_view();
        let ghost view = file.deep_view();
        assert(views[k] == view);
        let (mut file_local, mut file_hosted) = file;
        local.append(&mut file_local);
        hosted.append(&mut file_hosted);
        assert(local.deep_view() =~= local_before + view.0);
        assert(hosted.deep_view() =~= hosted_before + view.1);
    }
    (local, hosted)
}

// ----------------------------------------------------------------------------
// Sorting findings into categories
// ----------------------------------------------------------------------------
/// The test for the container references of a category.
pub open spec fn local_in(category: SourceType) -> spec_fn(LocalNimMatchView) -> bool {
    |m: LocalNimMatchView| source_type_of(m.file_path) == category
}

/// The test for the hosted references of a category.
pub open spec fn hosted_in(category: SourceType) -> spec_fn(HostedNimMatchView) -> bool {
    |m: HostedNimMatchView| source_type_of(m.file_path) == category
}

/// The findings of one category among all findings, in their order.
pub open spec fn categorized(
    local: Seq<LocalNimMatchView>,
    hosted: Seq<HostedNimMatchView>,
    category: SourceType,
) -> NimFindingsView {
    NimFindingsView {
        local_nim: local.filter(local_in(category)),
        hosted_nim: hosted.filter(hosted_in(category)),
    }
}

/// Every finding falls into exactly one of the two categories.
pub proof fn lemma_categories_partition(
    local: Seq<LocalNimMatchView>,
    hosted: Seq<HostedNimMatchView>,
)
    ensures
        categorized(local, hosted, SourceType::SourceCode).local_nim.len() + categorized(
            local,
            hosted,
            SourceType::ActionsWorkflow,
        ).local_nim.len() == local.len(),
        categorized(local, hosted, SourceType::SourceCode).hosted_nim.len() + categorized(
            local,
            hosted,
            SourceType::ActionsWorkflow,
        ).hosted_nim.len() == hosted.len(),
    decreases local.len() + hosted.len(),
{
    if local.len() > 0 {
        let front = local.drop_last();
        lemma_categories_partition(front, hosted);
        assert(front.push(local.last()) =~= local);
        front.lemma_filter_push(local.last(), local_in(SourceType::SourceCode));
        front.lemma_filter_push(local.last(), local_in(SourceType::ActionsWorkflow));
    } else if hosted.len() > 0 {
        let front = hosted.drop_last();
        lemma_categories_partition(local, front);
        assert(front.push(hosted.last()) =~= hosted);
        front.lemma_filter_push(hosted.last(), hosted_in(SourceType::SourceCode));
        front.lemma_filter_push(hosted.last(), hosted_in(SourceType::ActionsWorkflow));
    } else {
        assert(local.filter(local_in(SourceType::SourceCode)).len() == 0);
        assert(local.filter(local_in(SourceType::ActionsWorkflow)).len() == 0);
        assert(hosted.filter(hosted_in(SourceType::SourceCode)).len() == 0);
        assert(hosted.filter(hosted_in(SourceType::ActionsWorkflow)).len() == 0);
    }
}

/// Splits findings by the category of their file: first those in ordinary
/// source, second those in workflow files. Each keeps its order.
pub fn categorize_results(local_matches: Vec<LocalNimMatch>, hosted_matches: Vec<HostedNimMatch>) -> (r:
    (NimFindings, NimFindings))
    ensures
        r.0@ == categorized(
            local_matches.deep_view(),
            hosted_matches.deep_view(),
            SourceType::SourceCode,
        ),
        r.1@ == categorized(
            local_matches.deep_view(),
            hosted_matches.deep_view(),
            SourceType::ActionsWorkflow,
        ),
{
    let mut source_code = NimFindings::new();
    let mut actions_workflow = NimFindings::new();
    let ghost local_views = local_matches.deep_view();
    let ghost hosted_views = hosted_matches.deep_view();
    let ghost local_items = local_matches@;
    let ghost hosted_items = hosted_matches@;
    assert(local_views.take(0) =~= Seq::empty());
    assert(hosted_views.take(0) =~= Seq::empty());
    for m in it: local_matches.into_iter()
        invariant
            it.seq() == local_items,
            local_views.len() == local_items.len(),
            forall|j: int| 0 <= j < local_items.len() ==> local_views[j] == local_items[j]@,
            source_code.local_nim.deep_view() == local_views.take(it.index() as int).filter(
                local_in(SourceType::SourceCode),
            ),
            actions_workflow.local_nim.deep_view() == local_views.take(it.index() as int).filter(
                local_in(SourceType::ActionsWorkflow),
            ),
            source_code.hosted_nim.deep_view() == Seq::<HostedNimMatchView>::empty(),
            actions_workflow.hosted_nim.deep_view() == Seq::<HostedNimMatchView>::empty(),
    {
        let ghost k = it.index() as int;
        let ghost view = m@;
        let ghost sc_before = source_code.local_nim.deep_view();
        let ghost wf_before = actions_workflow.local_nim.deep_view();
        proof {
            assert(local_views.take(k + 1) =~= local_views.take(k).push(view));
            local_views.take(k).lemma_filter_push(view, local_in(SourceType::SourceCode));
            local_views.take(k).lemma_filter_push(view, local_in(SourceType::ActionsWorkflow));
        }
        match determine_source_type(m.file_path.as_str()) {
            SourceType::SourceCode => {
                source_code.local_nim.push(m);
                assert(source_code.local_nim.deep_view() =~= sc_before.push(view));
            },
            SourceType::ActionsWorkflow => {
                actions_workflow.local_nim.push(m);
                assert(actions_workflow.local_nim.deep_view() =~= wf_before.push(view));
            },
        }
    }
    assert(local_views.take(local_views.len() as int) =~= local_views);
    for m in it: hosted_matches.into_iter()
        invariant
            it.seq() == hosted_items,
            hosted_views.len() == hosted_items.len(),
            forall|j: int| 0 <= j < hosted_items.len() ==> hosted_views[j] == hosted_items[j]@,
            source_code.hosted_nim.deep_view() == hosted_views.take(it.index() as int).filter(
                hosted_in(SourceType::SourceCode),
            ),
            actions_workflow.hosted_nim.deep_view() == hosted_views.take(
                it.index() as int,
            ).filter(hosted_in(SourceType::ActionsWorkflow)),
            source_code.local_nim.deep_view() == local_views.filter(
                local_in(SourceType::SourceCode),
            ),
            actions_workflow.local_nim.deep_view() == local_views.filter(
                local_in(SourceType::ActionsWorkflow),
            ),
    {
        let ghost k = it.index() as int;
        let ghost view = m@;
        let ghost sc_before = source_code.hosted_nim.deep_view();
        let ghost wf_before = actions_workflow.hosted_nim.deep_view();
        proof {
            assert(hosted_views.take(k + 1) =~= hosted_views.take(k).push(view));
            hosted_views.take(k).lemma_filter_push(view, hosted_in(SourceType::SourceCode));
            hosted_views.take(k).lemma_filter_push(view, hosted_in(SourceType::ActionsWorkflow));
        }
        match determine_source_type(m.file_path.as_str()) {
            SourceType::SourceCode => {
                source_code.hosted_nim.push(m);
                assert(source_code.hosted_nim.deep_view() =~= sc_before.push(view));
            },
            SourceType::ActionsWorkflow => {
                actions_workflow.hosted_nim.push(m);
                assert(actions_workflow.hosted_nim.deep_view() =~= wf_before.push(view));
            },
        }
    }
    assert(hosted_views.take(hosted_views.len() as int) =~= hosted_views);
    (source_code, actions_workflow)
}

// ----------------------------------------------------------------------------
// Removing duplicates
// ----------------------------------------------------------------------------
/// What makes two container references the same finding: the source
/// collection, the file and the line.
pub open spec fn local_key() -> spec_fn(LocalNimMatchView) -> (Seq<char>, Seq<char>, nat) {
    |m: LocalNimMatchView| (m.repository, m.file_path, m.line_number)
}

/// What makes two hosted references the same finding: the source collection,
/// the file and the line.
pub open spec fn hosted_place_key() -> spec_fn(HostedNimMatchView) -> (Seq<char>, Seq<char>, nat) {
    |m: HostedNimMatchView| (m.repository, m.file_path, m.line_number)
}

/// Findings with, of each family, only the first reference of every source
/// collection, file and line.
pub open spec fn deduplicated(f: NimFindingsView) -> NimFindingsView {
    NimFindingsView {
        local_nim: dedup_by(f.local_nim, local_key()),
        hosted_nim: dedup_by(f.hosted_nim, hosted_place_key()),
    }
}

fn holds_local(kept: &Vec<LocalNimMatch>, m: &LocalNimMatch) -> (r: bool)
    ensures
        r == has_key(kept.deep_view(), local_key(), local_key()(m@)),
{
    let ghost views = kept.deep_view();
    let mut i: usize = 0;
    while i < kept.len()
        invariant
            i <= kept.len(),
            views == kept.deep_view(),
            forall|j: int| 0 <= j < i ==> local_key()(#[trigger] views[j]) != local_key()(m@),
        decreases kept.len() - i,
    {
        if kept[i].line_number == m.line_number && kept[i].file_path == m.file_path
            && kept[i].repository == m.repository {
            assert(local_key()(views[i as int]) == local_key()(m@));
            return true;
        }
        i += 1;
    }
    false
}

fn holds_hosted(kept: &Vec<HostedNimMatch>, m: &HostedNimMatch) -> (r: bool)
    ensures
        r == has_key(kept.deep_view(), hosted_place_key(), hosted_place_key()(m@)),
{
    let ghost views = kept.deep_view();
    let mut i: usize = 0;
    while i < kept.len()
        invariant
            i <= kept.len(),
            views == kept.deep_view(),
            forall|j: int|
                0 <= j < i ==> hosted_place_key()(#[trigger] views[j]) != hosted_place_key()(m@),
        decreases kept.len() - i,
    {
        if kept[i].line_number == m.line_number && kept[i].file_path == m.file_path
            && kept[i].repository == m.repository {
            assert(hosted_place_key()(views[i as int]) == hosted_place_key()(m@));
            return true;
        }
        i += 1;
    }
    false
}

fn dedup_local(items: Vec<LocalNimMatch>) -> (kept: Vec<LocalNimMatch>)
    ensures
        kept.deep_view() == dedup_by(items.deep_view(), local_key()),
{
    let ghost views = items.deep_view();
    let ghost all = items@;
    let mut kept: Vec<LocalNimMatch> = Vec::new();
    assert(views.take(0) =~= Seq::empty());
    assert(kept.deep_view() =~= Seq::empty());
    for m in it: items.into_iter()
        invariant
            it.seq() == all,
            views.len() == all.len(),
            forall|j: int| 0 <= j < all.len() ==> views[j] == all[j]@,
            kept.deep_view() == dedup_by(views.take(it.index() as int), local_key()),
    {
        let ghost k = it.index() as int;
        let ghost before = kept.deep_view();
        let ghost view = m@;
        proof {
            assert(views.take(k + 1).drop_last() =~= views.take(k));
            assert(views.take(k + 1).last() == view);
            lemma_dedup_keeps_keys(views.take(k), local_key(), local_key()(view));
        }
        if !holds_local(&kept, &m) {
            kept.push(m);
            assert(kept.deep_view() =~= before.push(view));
        }
    }
    assert(views.take(views.len() as int) =~= views);
    kept
}

fn dedup_hosted(items: Vec<HostedNimMatch>) -> (kept: Vec<HostedNimMatch>)
    ensures
        kept.deep_view() == dedup_by(items.deep_view(), hosted_place_key()),
{
    let ghost views = items.deep_view();
    let ghost all = items@;
    let mut kept: Vec<HostedNimMatch> = Vec::new();
    assert(views.take(0) =~= Seq::empty());
    assert(kept.deep_view() =~= Seq::empty());
    for m in it: items.into_iter()
        invariant
            it.seq() == all,
            views.len() == all.len(),
            forall|j: int| 0 <= j < all.len() ==> views[j] == all[j]@,
            kept.deep_view() == dedup_by(views.take(it.index() as int), hosted_place_key()),
    {
        let ghost k = it.index() as int;
        let ghost before = kept.deep_view();
        let ghost view = m@;
        proof {
            assert(views.take(k + 1).drop_last() =~= views.take(k));
            assert(views.take(k + 1).last() == view);
            lemma_dedup_keeps_keys(views.take(k), hosted_place_key(), hosted_place_key()(view));
        }
        if !holds_hosted(&kept, &m) {
            kept.push(m);
            assert(kept.deep_view() =~= before.push(view));
        }
    }
    assert(views.take(views.len() as int) =~= views);
    kept
}

/// Removes duplicate findings: within each family, of the references with
/// one source collection, file and line only the first stays, whatever the
/// others hold. The order of what stays is kept.
pub fn deduplicate_results(findings: &mut NimFindings)
    ensures
        final(findings)@ == deduplicated(old(findings)@),
{
    let mut local: Vec<LocalNimMatch> = Vec::new();
    let mut hosted: Vec<HostedNimMatch> = Vec::new();
    core::mem::swap(&mut findings.local_nim, &mut local);
    core::mem::swap(&mut findings.hosted_nim, &mut hosted);
    findings.local_nim = dedup_local(local);
    findings.hosted_nim = dedup_hosted(hosted);
}

/// Removing duplicates a second time changes nothing.
pub proof fn lemma_deduplicate_idempotent(f: NimFindingsView)
    ensures
        deduplicated(deduplicated(f)) == deduplicated(f),
{
    lemma_dedup_idempotent(f.local_nim, local_key());
    lemma_dedup_idempotent(f.hosted_nim, hosted_place_key());
}

} // verus!
