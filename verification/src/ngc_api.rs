//! The enrichment client: looking up, for what was found, what the remote
//! catalogue knows of it.
//!
//! The client sends nothing itself. Each operation either answers from what
//! the client holds, or names the address to get; the caller gets it, under
//! the retry policy, and calls the operation again with the reply. What the
//! client learned it keeps for the rest of its life.

use vstd::prelude::*;
use vstd::hash_map::StringHashMap;
use crate::catalog::{
    details_of, find_function_in, function_for_model, function_list_address, function_list_of,
    function_list_url, functions_of_list, image_parts, listed_functions, newest_version,
    parse_image_url, read_details, read_function_list, read_newest_version, read_repo_response,
    repo_info_address, repo_info_url, repo_response_of, versions_address, versions_url,
    VersionsFault,
};
use crate::json::{parsed_json, Json, JsonView};
use crate::models::{
    latest_tag, HostedNimMatchView, LocalNimMatchView,
    NgcFunctionDetails, NgcFunctionDetailsView, NimFindings, NimFindingsView,
};
use crate::text::{concat, copy_opt, same};

verus! {

/// Why a lookup failed.
#[derive(Debug, Clone)]
pub enum NgcError {
    /// The image coordinate lacks the registry prefix or a segment.
    InvalidImageUrl,
    /// The request failed; the text says how.
    Request(String),
    /// The reply is no JSON document.
    InvalidJson,
    /// The reply names no newest tag.
    MissingLatestTag,
    /// The reply is no list of functions.
    InvalidFunctionList,
    /// The reply has no array of versions.
    MissingFunctions,
    /// The array of versions is empty.
    EmptyFunctions,
    /// No function serves the model.
    FunctionNotFound,
}

/// The content of an [`NgcError`].
pub ghost enum NgcErrorView {
    InvalidImageUrl,
    Request(Seq<char>),
    InvalidJson,
    MissingLatestTag,
    InvalidFunctionList,
    MissingFunctions,
    EmptyFunctions,
    FunctionNotFound,
}

impl View for NgcError {
    type V = NgcErrorView;

    open spec fn view(&self) -> NgcErrorView {
        match self {
            NgcError::InvalidImageUrl => NgcErrorView::InvalidImageUrl,
            NgcError::Request(why) => NgcErrorView::Request(why@),
            NgcError::InvalidJson => NgcErrorView::InvalidJson,
            NgcError::MissingLatestTag => NgcErrorView::MissingLatestTag,
            NgcError::InvalidFunctionList => NgcErrorView::InvalidFunctionList,
            NgcError::MissingFunctions => NgcErrorView::MissingFunctions,
            NgcError::EmptyFunctions => NgcErrorView::EmptyFunctions,
            NgcError::FunctionNotFound => NgcErrorView::FunctionNotFound,
        }
    }
}

/// The error for a reply from which no newest version can be read.
pub open spec fn fault_error(fault: VersionsFault) -> NgcErrorView {
    match fault {
        VersionsFault::MissingFunctions => NgcErrorView::MissingFunctions,
        VersionsFault::EmptyFunctions => NgcErrorView::EmptyFunctions,
    }
}

/// What an operation comes to: its result, or the address to get before it
/// can go on.
#[derive(Debug, Clone)]
pub enum Step<T> {
    /// The operation is through.
    Done(T),
    /// The operation needs the reply from this address.
    Get(String),
}

/// The content of a [`Step`].
pub ghost enum StepView<V> {
    Done(V),
    Get(Seq<char>),
}

/// The reply to a request as the caller reports it: the body, or why there
/// is none.
pub open spec fn reply_view(reply: Option<Result<String, String>>) -> Option<
    Result<Seq<char>, Seq<char>>,
> {
    match reply {
        Some(Ok(body)) => Some(Ok(body@)),
        Some(Err(why)) => Some(Err(why@)),
        None => None,
    }
}

/// The content of the step of a tag lookup.
pub open spec fn tag_step_view(s: Step<Result<String, NgcError>>) -> StepView<
    Result<Seq<char>, NgcErrorView>,
> {
    match s {
        Step::Done(Ok(tag)) => StepView::Done(Ok(tag@)),
        Step::Done(Err(e)) => StepView::Done(Err(e@)),
        Step::Get(url) => StepView::Get(url@),
    }
}

/// The content of the step of a search for a function.
pub open spec fn find_step_view(s: Step<Result<Option<String>, NgcError>>) -> StepView<
    Result<Option<Seq<char>>, NgcErrorView>,
> {
    match s {
        Step::Done(Ok(id)) => StepView::Done(Ok(id.deep_view())),
        Step::Done(Err(e)) => StepView::Done(Err(e@)),
        Step::Get(url) => StepView::Get(url@),
    }
}

/// The content of the step of a lookup of a function's details.
pub open spec fn details_step_view(s: Step<Result<NgcFunctionDetails, NgcError>>) -> StepView<
    Result<NgcFunctionDetailsView, NgcErrorView>,
> {
    match s {
        Step::Done(Ok(d)) => StepView::Done(Ok(d@)),
        Step::Done(Err(e)) => StepView::Done(Err(e@)),
        Step::Get(url) => StepView::Get(url@),
    }
}

/// The content of the step of an operation without a result.
pub open spec fn unit_step_view(s: Step<()>) -> StepView<()> {
    match s {
        Step::Done(_) => StepView::Done(()),
        Step::Get(url) => StepView::Get(url@),
    }
}

/// What a client holds.
pub ghost struct NgcClientView {
    /// The credential.
    pub api_key: Seq<char>,
    /// The newest tag of each image that was looked up.
    pub tags: Map<Seq<char>, Seq<char>>,
    /// The details of each function that was looked up.
    pub details: Map<Seq<char>, NgcFunctionDetailsView>,
    /// The list of all functions, once it was fetched.
    pub functions: Option<Seq<NgcFunctionDetailsView>>,
}

/// A client of the remote catalogue. It is meant for one user at a time.
pub struct NgcClient {
    api_key: String,
    local_nim_cache: StringHashMap<String>,
    hosted_nim_cache: StringHashMap<NgcFunctionDetails>,
    function_list_cache: Option<Vec<NgcFunctionDetails>>,
}

// ----------------------------------------------------------------------------
// What the operations do, over what a client holds
// ----------------------------------------------------------------------------
/// Looking up the newest tag of an image: from what the client holds; else,
/// for a well-formed coordinate, from the reply, which is asked for where it
/// is missing. A tag that was read from a reply is kept.
pub open spec fn tag_lookup(
    c: NgcClientView,
    image_url: Seq<char>,
    reply: Option<Result<Seq<char>, Seq<char>>>,
) -> (NgcClientView, StepView<Result<Seq<char>, NgcErrorView>>) {
    if c.tags.contains_key(image_url) {
        (c, StepView::Done(Ok(c.tags[image_url])))
    } else {
        match image_parts(image_url) {
            None => (c, StepView::Done(Err(NgcErrorView::InvalidImageUrl))),
            Some((team, model)) => match reply {
                None => (c, StepView::Get(repo_info_url(team, model))),
                Some(Err(why)) => (c, StepView::Done(Err(NgcErrorView::Request(why)))),
                Some(Ok(body)) => match parsed_json(body) {
                    None => (c, StepView::Done(Err(NgcErrorView::InvalidJson))),
                    Some(j) => match repo_response_of(j).latest_tag {
                        None => (c, StepView::Done(Err(NgcErrorView::MissingLatestTag))),
                        Some(tag) => (
                            NgcClientView { tags: c.tags.insert(image_url, tag), ..c },
                            StepView::Done(Ok(tag)),
                        ),
                    },
                },
            },
        }
    }
}

/// Making sure that the client holds the list of functions: it is fetched
/// once, on first use, and a failed fetch leaves the client without it.
pub open spec fn list_lookup(c: NgcClientView, reply: Option<Result<Seq<char>, Seq<char>>>) -> (
    NgcClientView,
    StepView<Result<(), NgcErrorView>>,
) {
    if c.functions.is_some() {
        (c, StepView::Done(Ok(())))
    } else {
        match reply {
            None => (c, StepView::Get(function_list_url())),
            Some(Err(why)) => (c, StepView::Done(Err(NgcErrorView::Request(why)))),
            Some(Ok(body)) => match parsed_json(body) {
                None => (c, StepView::Done(Err(NgcErrorView::InvalidJson))),
                Some(j) => match function_list_of(j) {
                    None => (c, StepView::Done(Err(NgcErrorView::InvalidFunctionList))),
                    Some(list) => (
                        NgcClientView { functions: Some(listed_functions(list)), ..c },
                        StepView::Done(Ok(())),
                    ),
                },
            },
        }
    }
}

/// Searching the function that serves a model, in the list of functions.
pub open spec fn find_lookup(
    c: NgcClientView,
    model_name: Seq<char>,
    reply: Option<Result<Seq<char>, Seq<char>>>,
) -> (NgcClientView, StepView<Result<Option<Seq<char>>, NgcErrorView>>) {
    let (c1, s) = list_lookup(c, reply);
    match s {
        StepView::Get(url) => (c1, StepView::Get(url)),
        StepView::Done(Err(e)) => (c1, StepView::Done(Err(e))),
        StepView::Done(Ok(_)) => (
            c1,
            StepView::Done(Ok(function_for_model(c1.functions.unwrap(), model_name))),
        ),
    }
}

/// Looking up the details of a function: from what the client holds, else
/// from the newest version in the reply. Details read from a reply are kept.
pub open spec fn details_lookup(
    c: NgcClientView,
    function_id: Seq<char>,
    reply: Option<Result<Seq<char>, Seq<char>>>,
) -> (NgcClientView, StepView<Result<NgcFunctionDetailsView, NgcErrorView>>) {
    if c.details.contains_key(function_id) {
        (c, StepView::Done(Ok(c.details[function_id])))
    } else {
        match reply {
            None => (c, StepView::Get(versions_url(function_id))),
            Some(Err(why)) => (c, StepView::Done(Err(NgcErrorView::Request(why)))),
            Some(Ok(body)) => match parsed_json(body) {
                None => (c, StepView::Done(Err(NgcErrorView::InvalidJson))),
                Some(j) => match newest_version(j) {
                    Err(fault) => (c, StepView::Done(Err(fault_error(fault)))),
                    Ok(version) => {
                        let d = details_of(function_id, version);
                        (
                            NgcClientView { details: c.details.insert(function_id, d), ..c },
                            StepView::Done(Ok(d)),
                        )
                    },
                },
            },
        }
    }
}

impl View for NgcClient {
    type V = NgcClientView;

    closed spec fn view(&self) -> NgcClientView {
        NgcClientView {
            api_key: self.api_key@,
            tags: self.local_nim_cache@.map_values(|t: String| t@),
            details: self.hosted_nim_cache@.map_values(|d: NgcFunctionDetails| d@),
            functions: self.function_list_cache.deep_view(),
        }
    }
}

impl NgcClientView {
    /// A client that holds the credential and nothing else.
    pub open spec fn fresh(api_key: Seq<char>) -> NgcClientView {
        NgcClientView { api_key, tags: Map::empty(), details: Map::empty(), functions: None }
    }
}

impl NgcClient {
    /// A client that has looked up nothing yet.
    pub fn new(api_key: String) -> (r: NgcClient)
        ensures
            r@ == NgcClientView::fresh(api_key@),
    {
        let r = NgcClient {
            api_key,
            local_nim_cache: StringHashMap::new(),
            hosted_nim_cache: StringHashMap::new(),
            function_list_cache: None,
        };
        assert(r@.tags =~= Map::empty());
        assert(r@.details =~= Map::empty());
        r
    }

    /// The value of the authorization header of every request.
    pub fn auth_header(&self) -> (r: String)
        ensures
            r@ == "Bearer "@ + self@.api_key,
    {
        concat("Bearer ", self.api_key.as_str())
    }

    /// Splits an image coordinate into organisation and model.
    pub fn parse_image_url(image_url: &str) -> (r: Option<(String, String)>)
        ensures
            r.deep_view() == image_parts(image_url@),
    {
        parse_image_url(image_url)
    }

    /// Looks up the newest tag of an image.
    ///
    /// Called without a reply, this answers from what the client holds,
    /// refuses a malformed coordinate, or names the address to get. Called
    /// with the reply from that address, it reads the tag, keeps it and hands
    /// it out, or fails: on a failed request, on a reply that is no JSON
    /// document, on one that names no newest tag.
    pub fn resolve_latest_tag(
        &mut self,
        image_url: &str,
        reply: Option<Result<String, String>>,
    ) -> (r: Step<Result<String, NgcError>>)
        ensures
            (final(self)@, tag_step_view(r)) == tag_lookup(
                old(self)@,
                image_url@,
                reply_view(reply),
            ),
    {
        match self.local_nim_cache.get(image_url) {
            Some(tag) => {
                return Step::Done(Ok(tag.clone()));
            },
            None => {},
        }
        let (team, model) = match parse_image_url(image_url) {
            Some(parts) => parts,
            None => {
                return Step::Done(Err(NgcError::InvalidImageUrl));
            },
        };
        let body = match reply {
            None => {
                return Step::Get(repo_info_address(team.as_str(), model.as_str()));
            },
            Some(Err(why)) => {
                return Step::Done(Err(NgcError::Request(why)));
            },
            Some(Ok(body)) => body,
        };
        let json = match Json::parse(body.as_str()) {
            Ok(j) => j,
            Err(_) => {
                return Step::Done(Err(NgcError::InvalidJson));
            },
        };
        let info = read_repo_response(&json);
        match info.latest_tag {
            None => Step::Done(Err(NgcError::MissingLatestTag)),
            Some(tag) => {
                self.local_nim_cache.insert(String::from_str(image_url), tag.clone());
                assert(self@.tags =~= old(self)@.tags.insert(image_url@, tag@));
                Step::Done(Ok(tag))
            },
        }
    }

    /// Makes sure that the client holds the list of all functions.
    ///
    /// The list is fetched once in a client's life, on first use. Called
    /// without a reply while the list is missing, this names the address to
    /// get; called with the reply, it reads and keeps the list or fails.
    pub fn fetch_function_list(&mut self, reply: Option<Result<String, String>>) -> (r: Step<
        Result<(), NgcError>,
    >)
        ensures
            final(self)@ == list_lookup(old(self)@, reply_view(reply)).0,
            match r {
                Step::Done(Ok(_)) => list_lookup(old(self)@, reply_view(reply)).1
                    == StepView::<Result<(), NgcErrorView>>::Done(Ok(())),
                Step::Done(Err(e)) => list_lookup(old(self)@, reply_view(reply)).1
                    == StepView::<Result<(), NgcErrorView>>::Done(Err(e@)),
                Step::Get(url) => list_lookup(old(self)@, reply_view(reply)).1 == StepView::<
                    Result<(), NgcErrorView>,
                >::Get(url@),
            },
    {
        if self.function_list_cache.is_some() {
            return Step::Done(Ok(()));
        }
        let body = match reply {
            None => {
                return Step::Get(function_list_address());
            },
            Some(Err(why)) => {
                return Step::Done(Err(NgcError::Request(why)));
            },
            Some(Ok(body)) => body,
        };
        let json = match Json::parse(body.as_str()) {
            Ok(j) => j,
            Err(_) => {
                return Step::Done(Err(NgcError::InvalidJson));
            },
        };
        match read_function_list(&json) {
            None => Step::Done(Err(NgcError::InvalidFunctionList)),
            Some(list) => {
                self.function_list_cache = Some(functions_of_list(list));
                Step::Done(Ok(()))
            },
        }
    }

    /// Searches the function that serves a model.
    ///
    /// The list of functions is fetched first where the client does not hold
    /// it. The first function of the list whose name matches the model's is
    /// taken. That no function matches is a result, not a failure.
    pub fn find_function_by_model(
        &mut self,
        model_name: &str,
        reply: Option<Result<String, String>>,
    ) -> (r: Step<Result<Option<String>, NgcError>>)
        ensures
            (final(self)@, find_step_view(r)) == find_lookup(
                old(self)@,
                model_name@,
                reply_view(reply),
            ),
    {
        match self.fetch_function_list(reply) {
            Step::Get(url) => Step::Get(url),
            Step::Done(Err(e)) => Step::Done(Err(e)),
            Step::Done(Ok(_)) => {
                match &self.function_list_cache {
                    Some(functions) => Step::Done(Ok(find_function_in(functions, model_name))),
                    None => Step::Done(Ok(None)),
                }
            },
        }
    }

    /// Looks up the details of a function.
    ///
    /// Called without a reply, this answers from what the client holds or
    /// names the address to get. Called with the reply, it reads the details
    /// off the first version listed, keeps them and hands them out, or fails.
    pub fn get_function_details(
        &mut self,
        function_id: &str,
        reply: Option<Result<String, String>>,
    ) -> (r: Step<Result<NgcFunctionDetails, NgcError>>)
        ensures
            (final(self)@, details_step_view(r)) == details_lookup(
                old(self)@,
                function_id@,
                reply_view(reply),
            ),
    {
        match self.hosted_nim_cache.get(function_id) {
            Some(details) => {
                return Step::Done(Ok(details.duplicate()));
            },
            None => {},
        }
        let body = match reply {
            None => {
                return Step::Get(versions_address(function_id));
            },
            Some(Err(why)) => {
                return Step::Done(Err(NgcError::Request(why)));
            },
            Some(Ok(body)) => body,
        };
        let json = match Json::parse(body.as_str()) {
            Ok(j) => j,
            Err(_) => {
                return Step::Done(Err(NgcError::InvalidJson));
            },
        };
        let version = match read_newest_version(&json) {
            Ok(v) => v,
            Err(VersionsFault::MissingFunctions) => {
                return Step::Done(Err(NgcError::MissingFunctions));
            },
            Err(VersionsFault::EmptyFunctions) => {
                return Step::Done(Err(NgcError::EmptyFunctions));
            },
        };
        let details = read_details(function_id, version);
        self.hosted_nim_cache.insert(String::from_str(function_id), details.duplicate());
        assert(self@.details =~= old(self)@.details.insert(function_id@, details@));
        Step::Done(Ok(details))
    }
}

// ----------------------------------------------------------------------------
// Enriching container references
// ----------------------------------------------------------------------------
/// Whether the tag of a reference stands for "whatever is newest", so that
/// the concrete tag has to be looked up.
pub open spec fn needs_resolution(m: LocalNimMatchView) -> bool {
    m.tag == latest_tag() || m.tag.len() == 0
}

/// Where a run over container references stands.
pub ghost struct LocalBatch {
    /// What the client holds.
    pub client: NgcClientView,
    /// The references.
    pub items: Seq<LocalNimMatchView>,
    /// The index of the reference that is next.
    pub cursor: nat,
    /// Whether the run is through, or what it waits for.
    pub step: StepView<()>,
}

/// A reference with its resolved tag set.
pub open spec fn with_resolved(m: LocalNimMatchView, tag: Seq<char>) -> LocalNimMatchView {
    LocalNimMatchView { resolved_tag: Some(tag), ..m }
}

/// A run over the container references from `cursor` on. `reply` is the
/// reply for the reference at `cursor`, if the run waited for one. A
/// reference whose tag needs no lookup is passed over; one whose lookup
/// succeeds gets its resolved tag; one whose lookup fails stays as it is. The
/// run stops where a lookup needs a reply.
pub open spec fn enrich_local(
    c: NgcClientView,
    items: Seq<LocalNimMatchView>,
    cursor: nat,
    reply: Option<Result<Seq<char>, Seq<char>>>,
) -> LocalBatch
    decreases items.len() - cursor,
{
    if cursor >= items.len() {
        LocalBatch { client: c, items, cursor, step: StepView::Done(()) }
    } else if !needs_resolution(items[cursor as int]) {
        enrich_local(c, items, cursor + 1, None)
    } else {
        let (c1, s) = tag_lookup(c, items[cursor as int].image_url, reply);
        match s {
            StepView::Get(url) => LocalBatch {
                client: c1,
                items,
                cursor,
                step: StepView::Get(url),
            },
            StepView::Done(Ok(tag)) => enrich_local(
                c1,
                items.update(cursor as int, with_resolved(items[cursor as int], tag)),
                cursor + 1,
                None,
            ),
            StepView::Done(Err(_)) => enrich_local(c1, items, cursor + 1, None),
        }
    }
}

/// Whether two references differ in nothing but the resolved tag.
pub open spec fn same_but_resolved(a: LocalNimMatchView, b: LocalNimMatchView) -> bool {
    a == (LocalNimMatchView { resolved_tag: a.resolved_tag, ..b })
}

/// A run changes nothing but resolved tags, and those only where the tag
/// as written stands for the newest version.
pub proof fn lemma_enrich_local_keeps(
    c: NgcClientView,
    items: Seq<LocalNimMatchView>,
    cursor: nat,
    reply: Option<Result<Seq<char>, Seq<char>>>,
)
    ensures
        enrich_local(c, items, cursor, reply).items.len() == items.len(),
        enrich_local(c, items, cursor, reply).cursor >= cursor,
        forall|i: int|
            0 <= i < items.len() ==> same_but_resolved(
                #[trigger] enrich_local(c, items, cursor, reply).items[i],
                items[i],
            ),
        forall|i: int|
            0 <= i < items.len() && (!needs_resolution(items[i]) || i < cursor)
                ==> #[trigger] enrich_local(c, items, cursor, reply).items[i] == items[i],
    decreases items.len() - cursor,
{
    if cursor >= items.len() {
    } else if !needs_resolution(items[cursor as int]) {
        lemma_enrich_local_keeps(c, items, cursor + 1, None);
    } else {
        let (c1, s) = tag_lookup(c, items[cursor as int].image_url, reply);
        match s {
            StepView::Get(url) => {},
            StepView::Done(Ok(tag)) => {
                let next = items.update(cursor as int, with_resolved(items[cursor as int], tag));
                lemma_enrich_local_keeps(c1, next, cursor + 1, None);
                let out = enrich_local(c, items, cursor, reply).items;
                assert forall|i: int| 0 <= i < items.len() implies same_but_resolved(
                    #[trigger] out[i],
                    items[i],
                ) by {
                    assert(same_but_resolved(out[i], next[i]));
                }
                assert forall|i: int|
                    0 <= i < items.len() && (!needs_resolution(items[i]) || i < cursor)
                    implies #[trigger] out[i] == items[i] by {
                    assert(next[i] == items[i]);
                    assert(needs_resolution(next[i]) == needs_resolution(items[i]));
                }
            },
            StepView::Done(Err(_)) => {
                lemma_enrich_local_keeps(c1, items, cursor + 1, None);
            },
        }
    }
}

/// Whether every tag of `earlier` is held by `later` too, unchanged.
pub open spec fn keeps_tags(
    later: Map<Seq<char>, Seq<char>>,
    earlier: Map<Seq<char>, Seq<char>>,
) -> bool {
    forall|k: Seq<char>| #[trigger]
        earlier.contains_key(k) ==> later.contains_key(k) && later[k] == earlier[k]
}

/// Looking up a tag never changes a tag that the client holds, and a tag
/// that is handed out is held afterwards.
pub proof fn lemma_tag_lookup_keeps(
    c: NgcClientView,
    image_url: Seq<char>,
    reply: Option<Result<Seq<char>, Seq<char>>>,
)
    ensures
        keeps_tags(tag_lookup(c, image_url, reply).0.tags, c.tags),
        tag_lookup(c, image_url, reply).1 matches StepView::Done(Ok(tag)) ==> tag_lookup(
            c,
            image_url,
            reply,
        ).0.tags.contains_key(image_url) && tag_lookup(c, image_url, reply).0.tags[image_url]
            == tag,
{
}

/// A resolved tag that a run sets is the tag that the client holds for the
/// image afterwards: it comes from a lookup that succeeded, in this run or
/// before it. What the client held before the run it holds after it.
pub proof fn lemma_enrich_local_resolved(
    c: NgcClientView,
    items: Seq<LocalNimMatchView>,
    cursor: nat,
    reply: Option<Result<Seq<char>, Seq<char>>>,
)
    ensures
        keeps_tags(enrich_local(c, items, cursor, reply).client.tags, c.tags),
        forall|i: int|
            0 <= i < items.len() && (#[trigger] enrich_local(
                c,
                items,
                cursor,
                reply,
            ).items[i]).resolved_tag != items[i].resolved_tag ==> {
                let out = enrich_local(c, items, cursor, reply);
                &&& out.client.tags.contains_key(items[i].image_url)
                &&& out.items[i].resolved_tag == Some(out.client.tags[items[i].image_url])
            },
    decreases items.len() - cursor,
{
    lemma_enrich_local_keeps(c, items, cursor, reply);
    let out = enrich_local(c, items, cursor, reply);
    if cursor >= items.len() {
    } else if !needs_resolution(items[cursor as int]) {
        lemma_enrich_local_resolved(c, items, cursor + 1, None);
    } else {
        let image = items[cursor as int].image_url;
        let (c1, s) = tag_lookup(c, image, reply);
        lemma_tag_lookup_keeps(c, image, reply);
        match s {
            StepView::Get(url) => {},
            StepView::Done(Ok(tag)) => {
                let next = items.update(cursor as int, with_resolved(items[cursor as int], tag));
                lemma_enrich_local_resolved(c1, next, cursor + 1, None);
                lemma_enrich_local_keeps(c1, next, cursor + 1, None);
                assert(out == enrich_local(c1, next, cursor + 1, None));
                assert(c1.tags.contains_key(image));
                assert forall|i: int|
                    0 <= i < items.len() && (#[trigger] out.items[i]).resolved_tag
                        != items[i].resolved_tag implies {
                    &&& out.client.tags.contains_key(items[i].image_url)
                    &&& out.items[i].resolved_tag == Some(out.client.tags[items[i].image_url])
                } by {
                    if i == cursor {
                        assert(out.items[i] == next[i]);
                    } else {
                        assert(next[i] == items[i]);
                    }
                }
            },
            StepView::Done(Err(_)) => {
                lemma_enrich_local_resolved(c1, items, cursor + 1, None);
            },
        }
    }
}

impl NgcClient {
    /// Resolves the tags of container references.
    ///
    /// The run goes through the references from `cursor` on. For each one
    /// whose tag is `latest` or empty it looks up the newest tag; a tag found
    /// is set as the resolved tag, a failure leaves the reference as it is and
    /// never ends the run. Where a lookup needs a reply, the run stops with
    /// the address to get, `cursor` staying at that reference; the caller
    /// calls again with the reply. The tag as written is never changed.
    pub fn enrich_local_nim_matches(
        &mut self,
        findings: &mut NimFindings,
        cursor: &mut usize,
        reply: Option<Result<String, String>>,
    ) -> (r: Step<()>)
        ensures
            final(self)@ == enrich_local(
                old(self)@,
                old(findings)@.local_nim,
                *old(cursor) as nat,
                reply_view(reply),
            ).client,
            final(findings)@.local_nim == enrich_local(
                old(self)@,
                old(findings)@.local_nim,
                *old(cursor) as nat,
                reply_view(reply),
            ).items,
            *final(cursor) == enrich_local(
                old(self)@,
                old(findings)@.local_nim,
                *old(cursor) as nat,
                reply_view(reply),
            ).cursor,
            unit_step_view(r) == enrich_local(
                old(self)@,
                old(findings)@.local_nim,
                *old(cursor) as nat,
                reply_view(reply),
            ).step,
            final(findings)@.hosted_nim == old(findings)@.hosted_nim,
            final(findings)@.local_nim.len() == old(findings)@.local_nim.len(),
            forall|i: int|
                0 <= i < old(findings)@.local_nim.len() ==> same_but_resolved(
                    #[trigger] final(findings)@.local_nim[i],
                    old(findings)@.local_nim[i],
                ),
            forall|i: int|
                0 <= i < old(findings)@.local_nim.len() && !needs_resolution(
                    old(findings)@.local_nim[i],
                ) ==> #[trigger] final(findings)@.local_nim[i] == old(findings)@.local_nim[i],
    {
        let ghost wanted = enrich_local(
            old(self)@,
            old(findings)@.local_nim,
            *old(cursor) as nat,
            reply_view(reply),
        );
        proof {
            lemma_enrich_local_keeps(
                old(self)@,
                old(findings)@.local_nim,
                *old(cursor) as nat,
                reply_view(reply),
            );
        }
        let mut pending = reply;
        while *cursor < findings.local_nim.len()
            invariant
                findings@.hosted_nim == old(findings)@.hosted_nim,
                wanted == enrich_local(
                    old(self)@,
                    old(findings)@.local_nim,
                    *old(cursor) as nat,
                    reply_view(reply),
                ),
                wanted == enrich_local(
                    self@,
                    findings@.local_nim,
                    *cursor as nat,
                    reply_view(pending),
                ),
                wanted.items.len() == old(findings)@.local_nim.len(),
                forall|i: int|
                    0 <= i < old(findings)@.local_nim.len() ==> same_but_resolved(
                        #[trigger] wanted.items[i],
                        old(findings)@.local_nim[i],
                    ),
                forall|i: int|
                    0 <= i < old(findings)@.local_nim.len() && !needs_resolution(
                        old(findings)@.local_nim[i],
                    ) ==> #[trigger] wanted.items[i] == old(findings)@.local_nim[i],
            decreases findings.local_nim.len() - *cursor,
        {
            let i = *cursor;
            let ghost items = findings@.local_nim;
            assert(items[i as int] == findings.local_nim@[i as int]@);
            let needs = same(findings.local_nim[i].tag.as_str(), "latest")
                || findings.local_nim[i].tag.as_str().is_empty();
            if needs {
                let image = findings.local_nim[i].image_url.clone();
                let current = pending;
                pending = None;
                match self.resolve_latest_tag(image.as_str(), current) {
                    Step::Get(url) => {
                        return Step::Get(url);
                    },
                    Step::Done(Ok(tag)) => {
                        let ghost prior = findings.local_nim@[i as int];
                        findings.local_nim[i].resolved_tag = Some(tag);
                        assert(findings.local_nim@[i as int]@ == with_resolved(prior@, tag@));
                        assert(findings@.local_nim =~= items.update(
                            i as int,
                            with_resolved(items[i as int], tag@),
                        ));
                    },
                    Step::Done(Err(_)) => {},
                }
            } else {
                pending = None;
            }
            *cursor = i + 1;
        }
        Step::Done(())
    }
}

// ----------------------------------------------------------------------------
// Enriching hosted references
// ----------------------------------------------------------------------------
/// Where a run over hosted references stands.
pub ghost struct HostedBatch {
    /// What the client holds.
    pub client: NgcClientView,
    /// The references.
    pub items: Seq<HostedNimMatchView>,
    /// The index of the reference that is next.
    pub cursor: nat,
    /// Whether the run is through, or what it waits for.
    pub step: StepView<()>,
}

/// A reference with what was learned of its function.
pub open spec fn with_details(
    m: HostedNimMatchView,
    d: NgcFunctionDetailsView,
) -> HostedNimMatchView {
    HostedNimMatchView {
        function_id: Some(d.id),
        status: d.status,
        container_image: d.container_image,
        ..m
    }
}

/// A reference with the identifier of its function, of which no more is
/// known.
pub open spec fn with_function(m: HostedNimMatchView, id: Seq<char>) -> HostedNimMatchView {
    HostedNimMatchView { function_id: Some(id), ..m }
}

/// A run over the hosted references from `cursor` on. `reply` is the reply
/// that the run waited for, if it waited for one: the list of functions
/// while the client holds none, else the versions of the function of the
/// reference at `cursor`. A reference without a model is passed over, and so
/// is one for which the search fails or finds no function. One whose
/// function's details are found gets them; one for whose function the
/// lookup fails gets the function's identifier alone. The run stops where
/// a search or a lookup needs a reply.
pub open spec fn enrich_hosted(
    c: NgcClientView,
    items: Seq<HostedNimMatchView>,
    cursor: nat,
    reply: Option<Result<Seq<char>, Seq<char>>>,
) -> HostedBatch
    decreases items.len() - cursor,
{
    if cursor >= items.len() {
        HostedBatch { client: c, items, cursor, step: StepView::Done(()) }
    } else {
        match items[cursor as int].model_name {
            None => enrich_hosted(c, items, cursor + 1, None),
            Some(model) => {
                let list_known = c.functions.is_some();
                let (c1, s1) = find_lookup(
                    c,
                    model,
                    if list_known {
                        None
                    } else {
                        reply
                    },
                );
                match s1 {
                    StepView::Get(url) => HostedBatch {
                        client: c1,
                        items,
                        cursor,
                        step: StepView::Get(url),
                    },
                    StepView::Done(Err(_)) => enrich_hosted(c1, items, cursor + 1, None),
                    StepView::Done(Ok(None)) => enrich_hosted(c1, items, cursor + 1, None),
                    StepView::Done(Ok(Some(id))) => {
                        let (c2, s2) = details_lookup(
                            c1,
                            id,
                            if list_known {
                                reply
                            } else {
                                None
                            },
                        );
                        match s2 {
                            StepView::Get(url) => HostedBatch {
                                client: c2,
                                items,
                                cursor,
                                step: StepView::Get(url),
                            },
                            StepView::Done(Ok(d)) => enrich_hosted(
                                c2,
                                items.update(cursor as int, with_details(items[cursor as int], d)),
                                cursor + 1,
                                None,
                            ),
                            StepView::Done(Err(_)) => enrich_hosted(
                                c2,
                                items.update(
                                    cursor as int,
                                    with_function(items[cursor as int], id),
                                ),
                                cursor + 1,
                                None,
                            ),
                        }
                    },
                }
            },
        }
    }
}

/// Whether two references differ in nothing but what a lookup adds.
pub open spec fn same_but_looked_up(a: HostedNimMatchView, b: HostedNimMatchView) -> bool {
    a == (HostedNimMatchView {
        function_id: a.function_id,
        status: a.status,
        container_image: a.container_image,
        ..b
    })
}

/// A run changes nothing but the looked-up fields, and those only of
/// references that name a model.
pub proof fn lemma_enrich_hosted_keeps(
    c: NgcClientView,
    items: Seq<HostedNimMatchView>,
    cursor: nat,
    reply: Option<Result<Seq<char>, Seq<char>>>,
)
    ensures
        enrich_hosted(c, items, cursor, reply).items.len() == items.len(),
        enrich_hosted(c, items, cursor, reply).cursor >= cursor,
        forall|i: int|
            0 <= i < items.len() ==> same_but_looked_up(
                #[trigger] enrich_hosted(c, items, cursor, reply).items[i],
                items[i],
            ),
        forall|i: int|
            0 <= i < items.len() && (items[i].model_name.is_none() || i < cursor)
                ==> #[trigger] enrich_hosted(c, items, cursor, reply).items[i] == items[i],
    decreases items.len() - cursor,
{
    if cursor >= items.len() {
    } else {
        match items[cursor as int].model_name {
            None => {
                lemma_enrich_hosted_keeps(c, items, cursor + 1, None);
            },
            Some(model) => {
                let list_known = c.functions.is_some();
                let (c1, s1) = find_lookup(
                    c,
                    model,
                    if list_known {
                        None
                    } else {
                        reply
                    },
                );
                match s1 {
                    StepView::Get(url) => {},
                    StepView::Done(Err(_)) => {
                        lemma_enrich_hosted_keeps(c1, items, cursor + 1, None);
                    },
                    StepView::Done(Ok(None)) => {
                        lemma_enrich_hosted_keeps(c1, items, cursor + 1, None);
                    },
                    StepView::Done(Ok(Some(id))) => {
                        let (c2, s2) = details_lookup(
                            c1,
                            id,
                            if list_known {
                                reply
                            } else {
                                None
                            },
                        );
                        let out = enrich_hosted(c, items, cursor, reply).items;
                        match s2 {
                            StepView::Get(url) => {},
                            StepView::Done(Ok(d)) => {
                                let next = items.update(
                                    cursor as int,
                                    with_details(items[cursor as int], d),
                                );
                                lemma_enrich_hosted_keeps(c2, next, cursor + 1, None);
                                assert forall|i: int|
                                    0 <= i < items.len() implies same_but_looked_up(
                                    #[trigger] out[i],
                                    items[i],
                                ) by {
                                    assert(same_but_looked_up(out[i], next[i]));
                                }
                                assert forall|i: int|
                                    0 <= i < items.len() && (items[i].model_name.is_none() || i
                                        < cursor) implies #[trigger] out[i] == items[i] by {
                                    assert(next[i] == items[i]);
                                }
                            },
                            StepView::Done(Err(_)) => {
                                let next = items.update(
                                    cursor as int,
                                    with_function(items[cursor as int], id),
                                );
                                lemma_enrich_hosted_keeps(c2, next, cursor + 1, None);
                                assert forall|i: int|
                                    0 <= i < items.len() implies same_but_looked_up(
                                    #[trigger] out[i],
                                    items[i],
                                ) by {
                                    assert(same_but_looked_up(out[i], next[i]));
                                }
                                assert forall|i: int|
                                    0 <= i < items.len() && (items[i].model_name.is_none() || i
                                        < cursor) implies #[trigger] out[i] == items[i] by {
                                    assert(next[i] == items[i]);
                                }
                            },
                        }
                    },
                }
            },
        }
    }
}

impl NgcClient {
    /// Looks up the functions behind hosted references.
    ///
    /// The run goes through the references from `cursor` on. For each one
    /// that names a model it searches the function that serves the model and
    /// looks up the function's details. Details found are set on the
    /// reference; where only the function was found, its identifier is set;
    /// a failure never ends the run. Where the run needs a reply it stops
    /// with the address to get, `cursor` staying at that reference; the
    /// caller calls again with the reply.
    pub fn enrich_hosted_nim_matches(
        &mut self,
        findings: &mut NimFindings,
        cursor: &mut usize,
        reply: Option<Result<String, String>>,
    ) -> (r: Step<()>)
        ensures
            final(self)@ == enrich_hosted(
                old(self)@,
                old(findings)@.hosted_nim,
                *old(cursor) as nat,
                reply_view(reply),
            ).client,
            final(findings)@.hosted_nim == enrich_hosted(
                old(self)@,
                old(findings)@.hosted_nim,
                *old(cursor) as nat,
                reply_view(reply),
            ).items,
            *final(cursor) == enrich_hosted(
                old(self)@,
                old(findings)@.hosted_nim,
                *old(cursor) as nat,
                reply_view(reply),
            ).cursor,
            unit_step_view(r) == enrich_hosted(
                old(self)@,
                old(findings)@.hosted_nim,
                *old(cursor) as nat,
                reply_view(reply),
            ).step,
            final(findings)@.local_nim == old(findings)@.local_nim,
            final(findings)@.hosted_nim.len() == old(findings)@.hosted_nim.len(),
            forall|i: int|
                0 <= i < old(findings)@.hosted_nim.len() ==> same_but_looked_up(
                    #[trigger] final(findings)@.hosted_nim[i],
                    old(findings)@.hosted_nim[i],
                ),
            forall|i: int|
                0 <= i < old(findings)@.hosted_nim.len()
                    && old(findings)@.hosted_nim[i].model_name.is_none()
                    ==> #[trigger] final(findings)@.hosted_nim[i] == old(findings)@.hosted_nim[i],
    {
        let ghost wanted = enrich_hosted(
            old(self)@,
            old(findings)@.hosted_nim,
            *old(cursor) as nat,
            reply_view(reply),
        );
        proof {
            lemma_enrich_hosted_keeps(
                old(self)@,
                old(findings)@.hosted_nim,
                *old(cursor) as nat,
                reply_view(reply),
            );
        }
        let mut pending = reply;
        while *cursor < findings.hosted_nim.len()
            invariant
                findings@.local_nim == old(findings)@.local_nim,
                wanted == enrich_hosted(
                    old(self)@,
                    old(findings)@.hosted_nim,
                    *old(cursor) as nat,
                    reply_view(reply),
                ),
                wanted == enrich_hosted(
                    self@,
                    findings@.hosted_nim,
                    *cursor as nat,
                    reply_view(pending),
                ),
                wanted.items.len() == old(findings)@.hosted_nim.len(),
                forall|i: int|
                    0 <= i < old(findings)@.hosted_nim.len() ==> same_but_looked_up(
                        #[trigger] wanted.items[i],
                        old(findings)@.hosted_nim[i],
                    ),
                forall|i: int|
                    0 <= i < old(findings)@.hosted_nim.len()
                        && old(findings)@.hosted_nim[i].model_name.is_none()
                        ==> #[trigger] wanted.items[i] == old(findings)@.hosted_nim[i],
            decreases findings.hosted_nim.len() - *cursor,
        {
            let i = *cursor;
            let ghost items = findings@.hosted_nim;
            assert(items[i as int] == findings.hosted_nim@[i as int]@);
            let current = pending;
            pending = None;
            let model = copy_opt(&findings.hosted_nim[i].model_name);
            match model {
                None => {},
                Some(model_name) => {
                    let list_known = self.function_list_cache.is_some();
                    let (for_list, for_details) = if list_known {
                        (None, current)
                    } else {
                        (current, None)
                    };
                    match self.find_function_by_model(model_name.as_str(), for_list) {
                        Step::Get(url) => {
                            return Step::Get(url);
                        },
                        Step::Done(Err(_)) => {},
                        Step::Done(Ok(None)) => {},
                        Step::Done(Ok(Some(function_id))) => {
                            match self.get_function_details(function_id.as_str(), for_details) {
                                Step::Get(url) => {
                                    return Step::Get(url);
                                },
                                Step::Done(Ok(details)) => {
                                    let ghost prior = findings.hosted_nim@[i as int];
                                    let ghost d = details@;
                                    findings.hosted_nim[i].function_id = Some(details.id);
                                    findings.hosted_nim[i].status = details.status;
                                    findings.hosted_nim[i].container_image =
                                        details.container_image;
                                    assert(findings.hosted_nim@[i as int]@ == with_details(
                                        prior@,
                                        d,
                                    ));
                                    assert(findings@.hosted_nim =~= items.update(
                                        i as int,
                                        with_details(items[i as int], d),
                                    ));
                                },
                                Step::Done(Err(_)) => {
                                    let ghost prior = findings.hosted_nim@[i as int];
                                    let ghost id = function_id@;
                                    findings.hosted_nim[i].function_id = Some(function_id);
                                    assert(findings.hosted_nim@[i as int]@ == with_function(
                                        prior@,
                                        id,
                                    ));
                                    assert(findings@.hosted_nim =~= items.update(
                                        i as int,
                                        with_function(items[i as int], id),
                                    ));
                                },
                            }
                        },
                    }
                },
            }
            *cursor = i + 1;
        }
        Step::Done(())
    }
}

// ----------------------------------------------------------------------------
// Queries
// ----------------------------------------------------------------------------
/// All that the registry tells of an image.
#[derive(Debug)]
pub struct LocalNimQueryResult {
    /// The coordinate that was asked for.
    pub query_image: String,
    /// The organisation.
    pub team: String,
    /// The model.
    pub model: String,
    /// The repository's name.
    pub name: Option<String>,
    /// The newest tag.
    pub latest_tag: Option<String>,
    /// The identifier of the newest version.
    pub latest_version_id: Option<String>,
    /// The description.
    pub description: Option<String>,
    /// The short description.
    pub short_description: Option<String>,
    /// Whether the repository is public.
    pub is_public: Option<bool>,
    /// The publisher.
    pub publisher: Option<String>,
    /// The name for display.
    pub display_name: Option<String>,
    /// The coordinate to pull the image by.
    pub repository_url: String,
    /// The whole reply.
    pub raw_response: Json,
}

/// The content of a [`LocalNimQueryResult`].
pub ghost struct LocalNimQueryResultView {
    pub query_image: Seq<char>,
    pub team: Seq<char>,
    pub model: Seq<char>,
    pub name: Option<Seq<char>>,
    pub latest_tag: Option<Seq<char>>,
    pub latest_version_id: Option<Seq<char>>,
    pub description: Option<Seq<char>>,
    pub short_description: Option<Seq<char>>,
    pub is_public: Option<bool>,
    pub publisher: Option<Seq<char>>,
    pub display_name: Option<Seq<char>>,
    pub repository_url: Seq<char>,
    pub raw_response: JsonView,
}

impl View for LocalNimQueryResult {
    type V = LocalNimQueryResultView;

    open spec fn view(&self) -> LocalNimQueryResultView {
        LocalNimQueryResultView {
            query_image: self.query_image@,
            team: self.team@,
            model: self.model@,
            name: self.name.deep_view(),
            latest_tag: self.latest_tag.deep_view(),
            latest_version_id: self.latest_version_id.deep_view(),
            description: self.description.deep_view(),
            short_description: self.short_description.deep_view(),
            is_public: self.is_public,
            publisher: self.publisher.deep_view(),
            display_name: self.display_name.deep_view(),
            repository_url: self.repository_url@,
            raw_response: self.raw_response@,
        }
    }
}

/// All that the function service tells of the function behind a model.
#[derive(Debug)]
pub struct HostedNimQueryResult {
    /// The model that was asked for.
    pub query_model: String,
    /// The function's identifier.
    pub function_id: Option<String>,
    /// The function's name.
    pub name: Option<String>,
    /// The function's status.
    pub status: Option<String>,
    /// The image that backs the function.
    pub container_image: Option<String>,
    /// The identifier of the account that owns the function.
    pub ncf_function_id: Option<String>,
    /// The identifier of the version.
    pub version_id: Option<String>,
    /// When the version was made.
    pub created_at: Option<String>,
    /// The description.
    pub description: Option<String>,
    /// Where the function reports its health.
    pub health_uri: Option<String>,
    /// Where the function takes requests.
    pub inference_url: Option<String>,
    /// The models that the function serves.
    pub models: Option<Json>,
    /// The format of a request's body.
    pub api_body_format: Option<String>,
    /// The whole entry of the version.
    pub raw_response: Json,
}

/// The content of a [`HostedNimQueryResult`].
pub ghost struct HostedNimQueryResultView {
    pub query_model: Seq<char>,
    pub function_id: Option<Seq<char>>,
    pub name: Option<Seq<char>>,
    pub status: Option<Seq<char>>,
    pub container_image: Option<Seq<char>>,
    pub ncf_function_id: Option<Seq<char>>,
    pub version_id: Option<Seq<char>>,
    pub created_at: Option<Seq<char>>,
    pub description: Option<Seq<char>>,
    pub health_uri: Option<Seq<char>>,
    pub inference_url: Option<Seq<char>>,
    pub models: Option<JsonView>,
    pub api_body_format: Option<Seq<char>>,
    pub raw_response: JsonView,
}

impl View for HostedNimQueryResult {
    type V = HostedNimQueryResultView;

    open spec fn view(&self) -> HostedNimQueryResultView {
        HostedNimQueryResultView {
            query_model: self.query_model@,
            function_id: self.function_id.deep_view(),
            name: self.name.deep_view(),
            status: self.status.deep_view(),
            container_image: self.container_image.deep_view(),
            ncf_function_id: self.ncf_function_id.deep_view(),
            version_id: self.version_id.deep_view(),
            created_at: self.created_at.deep_view(),
            description: self.description.deep_view(),
            health_uri: self.health_uri.deep_view(),
            inference_url: self.inference_url.deep_view(),
            models: self.models.deep_view(),
            api_body_format: self.api_body_format.deep_view(),
            raw_response: self.raw_response@,
        }
    }
}

/// The content of the step of a query for an image.
pub open spec fn local_query_step_view(s: Step<Result<LocalNimQueryResult, NgcError>>) -> StepView<
    Result<LocalNimQueryResultView, NgcErrorView>,
> {
    match s {
        Step::Done(Ok(r)) => StepView::Done(Ok(r@)),
        Step::Done(Err(e)) => StepView::Done(Err(e@)),
        Step::Get(url) => StepView::Get(url@),
    }
}

/// The content of the step of a query for a model.
pub open spec fn hosted_query_step_view(
    s: Step<Result<HostedNimQueryResult, NgcError>>,
) -> StepView<Result<HostedNimQueryResultView, NgcErrorView>> {
    match s {
        Step::Done(Ok(r)) => StepView::Done(Ok(r@)),
        Step::Done(Err(e)) => StepView::Done(Err(e@)),
        Step::Get(url) => StepView::Get(url@),
    }
}

/// What a reply about an image's repository tells.
pub open spec fn local_query_result(
    image_url: Seq<char>,
    team: Seq<char>,
    model: Seq<char>,
    j: JsonView,
) -> LocalNimQueryResultView {
    LocalNimQueryResultView {
        query_image: image_url,
        team,
        model,
        name: j.text_member("name"@),
        latest_tag: j.text_member("latestTag"@),
        latest_version_id: j.text_member("latestVersionId"@),
        description: j.text_member("description"@),
        short_description: j.text_member("shortDescription"@),
        is_public: j.truth_member("isPublic"@),
        publisher: j.text_member("publisher"@),
        display_name: j.text_member("displayName"@),
        repository_url: "nvcr.io/nim/"@ + team + "/"@ + model,
        raw_response: j,
    }
}

/// Asking the registry about an image, past what the client holds.
pub open spec fn local_query(
    image_url: Seq<char>,
    reply: Option<Result<Seq<char>, Seq<char>>>,
) -> StepView<Result<LocalNimQueryResultView, NgcErrorView>> {
    match image_parts(image_url) {
        None => StepView::Done(Err(NgcErrorView::InvalidImageUrl)),
        Some((team, model)) => match reply {
            None => StepView::Get(repo_info_url(team, model)),
            Some(Err(why)) => StepView::Done(Err(NgcErrorView::Request(why))),
            Some(Ok(body)) => match parsed_json(body) {
                None => StepView::Done(Err(NgcErrorView::InvalidJson)),
                Some(j) => StepView::Done(Ok(local_query_result(image_url, team, model, j))),
            },
        },
    }
}

/// What the entry of a function's newest version tells.
pub open spec fn hosted_query_result(
    model_name: Seq<char>,
    version: JsonView,
) -> HostedNimQueryResultView {
    HostedNimQueryResultView {
        query_model: model_name,
        function_id: version.text_member("id"@),
        name: version.text_member("name"@),
        status: version.text_member("status"@),
        container_image: version.text_member("containerImage"@),
        ncf_function_id: version.text_member("ncaId"@),
        version_id: version.text_member("versionId"@),
        created_at: version.text_member("createdAt"@),
        description: version.text_member("description"@),
        health_uri: version.text_member("healthUri"@),
        inference_url: version.text_member("inferenceUrl"@),
        models: version.member("models"@),
        api_body_format: version.text_member("apiBodyFormat"@),
        raw_response: version,
    }
}

/// Asking the function service about the function that serves a model. The
/// list of functions is the client's; the versions are asked for anew. That
/// no function serves the model is a failure here.
pub open spec fn hosted_query(
    c: NgcClientView,
    model_name: Seq<char>,
    reply: Option<Result<Seq<char>, Seq<char>>>,
) -> (NgcClientView, StepView<Result<HostedNimQueryResultView, NgcErrorView>>) {
    let list_known = c.functions.is_some();
    let (c1, s1) = find_lookup(
        c,
        model_name,
        if list_known {
            None
        } else {
            reply
        },
    );
    match s1 {
        StepView::Get(url) => (c1, StepView::Get(url)),
        StepView::Done(Err(e)) => (c1, StepView::Done(Err(e))),
        StepView::Done(Ok(None)) => (c1, StepView::Done(Err(NgcErrorView::FunctionNotFound))),
        StepView::Done(Ok(Some(id))) => {
            let versions = if list_known {
                reply
            } else {
                None
            };
            match versions {
                None => (c1, StepView::Get(versions_url(id))),
                Some(Err(why)) => (c1, StepView::Done(Err(NgcErrorView::Request(why)))),
                Some(Ok(body)) => match parsed_json(body) {
                    None => (c1, StepView::Done(Err(NgcErrorView::InvalidJson))),
                    Some(j) => match newest_version(j) {
                        Err(fault) => (c1, StepView::Done(Err(fault_error(fault)))),
                        Ok(version) => (
                            c1,
                            StepView::Done(Ok(hosted_query_result(model_name, version))),
                        ),
                    },
                },
            }
        },
    }
}

impl NgcClient {
    /// Asks the registry about an image and hands out all it tells, whatever
    /// the client holds.
    ///
    /// Called without a reply, this refuses a malformed coordinate or names
    /// the address to get; called with the reply, it reads the result.
    pub fn query_local_nim(&mut self, image_url: &str, reply: Option<Result<String, String>>) -> (r:
        Step<Result<LocalNimQueryResult, NgcError>>)
        ensures
            final(self)@ == old(self)@,
            local_query_step_view(r) == local_query(image_url@, reply_view(reply)),
    {
        let (team, model) = match parse_image_url(image_url) {
            Some(parts) => parts,
            None => {
                return Step::Done(Err(NgcError::InvalidImageUrl));
            },
        };
        let body = match reply {
            None => {
                return Step::Get(repo_info_address(team.as_str(), model.as_str()));
            },
            Some(Err(why)) => {
                return Step::Done(Err(NgcError::Request(why)));
            },
            Some(Ok(body)) => body,
        };
        let json = match Json::parse(body.as_str()) {
            Ok(j) => j,
            Err(_) => {
                return Step::Done(Err(NgcError::InvalidJson));
            },
        };
        let with_team = concat("nvcr.io/nim/", team.as_str());
        let with_slash = concat(with_team.as_str(), "/");
        let repository_url = concat(with_slash.as_str(), model.as_str());
        let result = LocalNimQueryResult {
            query_image: String::from_str(image_url),
            team,
            model,
            name: json.text_member("name"),
            latest_tag: json.text_member("latestTag"),
            latest_version_id: json.text_member("latestVersionId"),
            description: json.text_member("description"),
            short_description: json.text_member("shortDescription"),
            is_public: json.truth_member("isPublic"),
            publisher: json.text_member("publisher"),
            display_name: json.text_member("displayName"),
            repository_url,
            raw_response: json,
        };
        Step::Done(Ok(result))
    }

    /// Asks the function service about the function that serves a model and
    /// hands out all that its newest version tells.
    ///
    /// The list of functions is fetched first where the client does not hold
    /// it; then the versions of the function are asked for. Each call either
    /// names the address to get or, given the reply, goes on.
    pub fn query_hosted_nim(&mut self, model_name: &str, reply: Option<Result<String, String>>) -> (r:
        Step<Result<HostedNimQueryResult, NgcError>>)
        ensures
            (final(self)@, hosted_query_step_view(r)) == hosted_query(
                old(self)@,
                model_name@,
                reply_view(reply),
            ),
    {
        let list_known = self.function_list_cache.is_some();
        let (for_list, for_versions) = if list_known {
            (None, reply)
        } else {
            (reply, None)
        };
        let function_id = match self.find_function_by_model(model_name, for_list) {
            Step::Get(url) => {
                return Step::Get(url);
            },
            Step::Done(Err(e)) => {
                return Step::Done(Err(e));
            },
            Step::Done(Ok(None)) => {
                return Step::Done(Err(NgcError::FunctionNotFound));
            },
            Step::Done(Ok(Some(id))) => id,
        };
        let body = match for_versions {
            None => {
                return Step::Get(versions_address(function_id.as_str()));
            },
            Some(Err(why)) => {
                return Step::Done(Err(NgcError::Request(why)));
            },
            Some(Ok(body)) => body,
        };
        let json = match Json::parse(body.as_str()) {
            Ok(j) => j,
            Err(_) => {
                return Step::Done(Err(NgcError::InvalidJson));
            },
        };
        let version = match read_newest_version(&json) {
            Ok(v) => v,
            Err(VersionsFault::MissingFunctions) => {
                return Step::Done(Err(NgcError::MissingFunctions));
            },
            Err(VersionsFault::EmptyFunctions) => {
                return Step::Done(Err(NgcError::EmptyFunctions));
            },
        };
        let models = match version.get("models") {
            Some(m) => Some(m.duplicate()),
            None => None,
        };
        let result = HostedNimQueryResult {
            query_model: String::from_str(model_name),
            function_id: version.text_member("id"),
            name: version.text_member("name"),
            status: version.text_member("status"),
            container_image: version.text_member("containerImage"),
            ncf_function_id: version.text_member("ncaId"),
            version_id: version.text_member("versionId"),
            created_at: version.text_member("createdAt"),
            description: version.text_member("description"),
            health_uri: version.text_member("healthUri"),
            inference_url: version.text_member("inferenceUrl"),
            models,
            api_body_format: version.text_member("apiBodyFormat"),
            raw_response: version.duplicate(),
        };
        Step::Done(Ok(result))
    }
}

// ----------------------------------------------------------------------------
// Enriching all findings
// ----------------------------------------------------------------------------
/// How far the enrichment of all findings has come.
pub struct EnrichProgress {
    client: Option<NgcClient>,
    phase: usize,
    cursor: usize,
}

/// The content of an [`EnrichProgress`].
pub ghost struct EnrichProgressView {
    /// The client, once the enrichment has begun.
    pub client: Option<NgcClientView>,
    /// The run that is next: container references in ordinary source, then
    /// in workflow files, then hosted references in ordinary source, then in
    /// workflow files.
    pub phase: nat,
    /// Where that run stands.
    pub cursor: nat,
}

impl View for EnrichProgress {
    type V = EnrichProgressView;

    closed spec fn view(&self) -> EnrichProgressView {
        EnrichProgressView {
            client: match self.client {
                Some(c) => Some(c@),
                None => None,
            },
            phase: self.phase as nat,
            cursor: self.cursor as nat,
        }
    }
}

impl EnrichProgressView {
    /// Nothing done yet.
    pub open spec fn start() -> EnrichProgressView {
        EnrichProgressView { client: None, phase: 0, cursor: 0 }
    }
}

impl EnrichProgress {
    /// The progress of an enrichment that has not begun.
    pub fn new() -> (r: EnrichProgress)
        ensures
            r@ == EnrichProgressView::start(),
    {
        EnrichProgress { client: None, phase: 0, cursor: 0 }
    }
}

/// Where the enrichment of all findings stands.
pub ghost struct EnrichAll {
    pub client: NgcClientView,
    pub source_code: NimFindingsView,
    pub actions_workflow: NimFindingsView,
    pub phase: nat,
    pub cursor: nat,
    pub step: StepView<()>,
}

/// The number of runs of an enrichment.
pub open spec fn phase_count() -> nat {
    4
}

/// The runs of an enrichment from run `phase` on, that run standing at
/// `cursor`. A run that is through is followed by the next from its start;
/// a run that needs a reply stops the enrichment there.
pub open spec fn enrich_phases(
    c: NgcClientView,
    source_code: NimFindingsView,
    actions_workflow: NimFindingsView,
    phase: nat,
    cursor: nat,
    reply: Option<Result<Seq<char>, Seq<char>>>,
) -> EnrichAll
    decreases phase_count() - phase,
{
    if phase >= phase_count() {
        EnrichAll { client: c, source_code, actions_workflow, phase, cursor, step: StepView::Done(()) }
    } else if phase == 0 {
        let b = enrich_local(c, source_code.local_nim, cursor, reply);
        let after = NimFindingsView { local_nim: b.items, ..source_code };
        if b.step is Get {
            EnrichAll {
                client: b.client,
                source_code: after,
                actions_workflow,
                phase,
                cursor: b.cursor,
                step: b.step,
            }
        } else {
            enrich_phases(b.client, after, actions_workflow, 1, 0, None)
        }
    } else if phase == 1 {
        let b = enrich_local(c, actions_workflow.local_nim, cursor, reply);
        let after = NimFindingsView { local_nim: b.items, ..actions_workflow };
        if b.step is Get {
            EnrichAll {
                client: b.client,
                source_code,
                actions_workflow: after,
                phase,
                cursor: b.cursor,
                step: b.step,
            }
        } else {
            enrich_phases(b.client, source_code, after, 2, 0, None)
        }
    } else if phase == 2 {
        let b = enrich_hosted(c, source_code.hosted_nim, cursor, reply);
        let after = NimFindingsView { hosted_nim: b.items, ..source_code };
        if b.step is Get {
            EnrichAll {
                client: b.client,
                source_code: after,
                actions_workflow,
                phase,
                cursor: b.cursor,
                step: b.step,
            }
        } else {
            enrich_phases(b.client, after, actions_workflow, 3, 0, None)
        }
    } else {
        let b = enrich_hosted(c, actions_workflow.hosted_nim, cursor, reply);
        let after = NimFindingsView { hosted_nim: b.items, ..actions_workflow };
        if b.step is Get {
            EnrichAll {
                client: b.client,
                source_code,
                actions_workflow: after,
                phase,
                cursor: b.cursor,
                step: b.step,
            }
        } else {
            enrich_phases(b.client, source_code, after, 4, 0, None)
        }
    }
}

/// Whether a credential is there to enrich with.
pub open spec fn has_credential(api_key: Option<Seq<char>>) -> bool {
    match api_key {
        Some(key) => key.len() > 0,
        None => false,
    }
}

/// The client that an enrichment works with: the one it has, else a fresh
/// one with the credential.
pub open spec fn client_of(progress: EnrichProgressView, api_key: Seq<char>) -> NgcClientView {
    match progress.client {
        Some(c) => c,
        None => NgcClientView::fresh(api_key),
    }
}

/// Enriches all findings with what the remote catalogue knows.
///
/// Without a credential, or with an empty one, nothing is done and nothing
/// changes: the findings pass through as they are. With one, the tags of the
/// container references are resolved, in ordinary source and then in
/// workflow files, and then the functions behind the hosted references are
/// looked up, in the same order, all through one client. Where a reply is
/// needed, the enrichment stops with the address to get, and `progress`
/// remembers where; the caller calls again with the reply.
pub fn enrich_all_findings(
    api_key: Option<&str>,
    source_code: &mut NimFindings,
    actions_workflow: &mut NimFindings,
    progress: &mut EnrichProgress,
    reply: Option<Result<String, String>>,
) -> (r: Step<()>)
    ensures
        !has_credential(api_key.deep_view()) ==> {
            &&& r is Done
            &&& final(source_code)@ == old(source_code)@
            &&& final(actions_workflow)@ == old(actions_workflow)@
            &&& final(progress)@ == old(progress)@
        },
        has_credential(api_key.deep_view()) ==> {
            let all = enrich_phases(
                client_of(old(progress)@, api_key.deep_view().unwrap()),
                old(source_code)@,
                old(actions_workflow)@,
                old(progress)@.phase,
                old(progress)@.cursor,
                reply_view(reply),
            );
            &&& final(progress)@ == (EnrichProgressView {
                client: Some(all.client),
                phase: all.phase,
                cursor: all.cursor,
            })
            &&& final(source_code)@ == all.source_code
            &&& final(actions_workflow)@ == all.actions_workflow
            &&& unit_step_view(r) == all.step
        },
{
    let key = match api_key {
        Some(key) => {
            if key.is_empty() {
                return Step::Done(());
            }
            key
        },
        None => {
            return Step::Done(());
        },
    };
    let mut client = match progress.client.take() {
        Some(c) => c,
        None => NgcClient::new(String::from_str(key)),
    };
    let ghost wanted = enrich_phases(
        client@,
        source_code@,
        actions_workflow@,
        progress.phase as nat,
        progress.cursor as nat,
        reply_view(reply),
    );
    let mut phase = progress.phase;
    let mut cursor = progress.cursor;
    let mut pending = reply;
    while phase < 4
        invariant
            api_key.deep_view() == Some(key@),
            has_credential(api_key.deep_view()),
            wanted == enrich_phases(
                client_of(old(progress)@, key@),
                old(source_code)@,
                old(actions_workflow)@,
                old(progress)@.phase,
                old(progress)@.cursor,
                reply_view(reply),
            ),
            wanted == enrich_phases(
                client@,
                source_code@,
                actions_workflow@,
                phase as nat,
                cursor as nat,
                reply_view(pending),
            ),
        decreases 4 - phase,
    {
        let current = pending;
        pending = None;
        let step = if phase == 0 {
            client.enrich_local_nim_matches(source_code, &mut cursor, current)
        } else if phase == 1 {
            client.enrich_local_nim_matches(actions_workflow, &mut cursor, current)
        } else if phase == 2 {
            client.enrich_hosted_nim_matches(source_code, &mut cursor, current)
        } else {
            client.enrich_hosted_nim_matches(actions_workflow, &mut cursor, current)
        };
        match step {
            Step::Get(url) => {
                progress.client = Some(client);
                progress.phase = phase;
                progress.cursor = cursor;
                return Step::Get(url);
            },
            Step::Done(_) => {
                phase = phase + 1;
                cursor = 0;
            },
        }
    }
    progress.client = Some(client);
    progress.phase = phase;
    progress.cursor = cursor;
    Step::Done(())
}

} // verus!
