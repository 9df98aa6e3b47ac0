//! The regular expressions of the scanner, compiled once.
//!
//! Matching is left to the `regex` crate. What the engine finds is not
//! modelled here: it is given a name, and the scanner's contracts say what the
//! scanner makes of it.

use vstd::prelude::*;
use crate::seqs::{first_index, lemma_first_index_is};

verus! {

#[verifier::external_type_specification]
#[verifier::external_body]
pub struct ExRegex(regex::Regex);

#[verifier::external_type_specification]
#[verifier::external_body]
pub struct ExRegexError(regex::Error);

/// An image of the registry namespace with a tag: organisation and name in
/// the first group, the tag in the second.
pub const LOCAL_NIM_FULL: &'static str =
    r"nvcr\.io/nim/([a-zA-Z0-9._-]+/[a-zA-Z0-9._-]+):([a-zA-Z0-9._-]+)";

/// An image of the registry namespace that no tag follows.
pub const LOCAL_NIM_NO_TAG: &'static str =
    r"nvcr\.io/nim/([a-zA-Z0-9._-]+/[a-zA-Z0-9._-]+)(?:[^:a-zA-Z0-9._-]|$)";

/// An endpoint on one of the three hosts, up to white space, a quote or a
/// closing parenthesis.
pub const HOSTED_ENDPOINT: &'static str =
    r#"https://(?:integrate|ai|build)\.api\.nvidia\.com[^\s"'\)]*"#;

/// A quoted value assigned to `model`, with a known organisation in front or
/// a slash inside.
pub const MODEL_ASSIGN: &'static str =
    r#"model\s*[=:]\s*["']((nvidia|meta|mistralai|google|deepseek|stg)/[^"']+|[^"']+/[^"']+)["']"#;

/// The `model` argument of a chat client's constructor.
pub const CHATNVIDIA: &'static str = r#"ChatNVIDIA\s*\([^)]*model\s*=\s*["']([^"']+)["']"#;

/// The `model` argument of an embeddings client's constructor.
pub const NVIDIA_EMBEDDINGS: &'static str =
    r#"NVIDIAEmbeddings\s*\([^)]*model\s*=\s*["']([^"']+)["']"#;

/// The `model` argument of a reranking client's constructor.
pub const NVIDIA_RERANK: &'static str = r#"NVIDIARerank\s*\([^)]*model\s*=\s*["']([^"']+)["']"#;

/// A `model` or `model_name` key with a value of the shape `org/name`.
pub const CONTEXT_MODEL: &'static str =
    r#"model(?:_name)?\s*[:=]\s*["']?([a-zA-Z0-9_/-]+/[a-zA-Z0-9._-]+)["']?"#;

/// Whether the regex engine accepts `pattern` as a regular expression.
pub uninterp spec fn regex_accepts(pattern: Seq<char>) -> bool;

/// A pattern text that, compiled by the engine with its default settings,
/// matches as `re` does. For a regular expression compiled from a text it is
/// that text.
pub uninterp spec fn regex_source(re: regex::Regex) -> Seq<char>;

/// What the engine's search for the first match of `pattern` in `text`
/// captures: nothing where there is no match, else the text of each group,
/// group 0 being the whole match, and a group that took no part being absent.
pub uninterp spec fn regex_captures(pattern: Seq<char>, text: Seq<char>) -> Option<
    Seq<Option<Seq<char>>>,
>;

/// The text of the first match of `pattern` in `text` that the engine finds.
pub uninterp spec fn regex_find(pattern: Seq<char>, text: Seq<char>) -> Option<Seq<char>>;

/// `regex::Regex::new`: compiles a pattern. It succeeds on the patterns the
/// engine accepts, and the result stands for the pattern it was made from.
#[verifier::external_body]
fn compile(pattern: &str) -> (r: Result<regex::Regex, regex::Error>)
    ensures
        r.is_ok() == regex_accepts(pattern@),
        r matches Ok(re) ==> regex_source(re) == pattern@,
{
    regex::Regex::new(pattern)
}

/// `regex::Regex::captures`: the groups of the first match, each copied into
/// a string of its own. The result depends on the pattern and the text alone.
#[verifier::external_body]
pub(crate) fn captures(re: &regex::Regex, text: &str) -> (r: Option<Vec<Option<String>>>)
    ensures
        r.deep_view() == regex_captures(regex_source(*re), text@),
{
    re.captures(text).map(|c| c.iter().map(|g| g.map(|m| m.as_str().to_string())).collect())
}

/// `regex::Regex::find`: the text of the first match, copied into a string
/// of its own. The result depends on the pattern and the text alone.
#[verifier::external_body]
pub(crate) fn find(re: &regex::Regex, text: &str) -> (r: Option<String>)
    ensures
        r.deep_view() == regex_find(regex_source(*re), text@),
{
    re.find(text).map(|m| m.as_str().to_string())
}

/// The patterns that name a model explicitly, in the order in which they are
/// tried.
pub open spec fn model_rules() -> Seq<Seq<char>> {
    seq![MODEL_ASSIGN@, CHATNVIDIA@, NVIDIA_EMBEDDINGS@, NVIDIA_RERANK@]
}

/// All patterns of the scanner, in the order in which they are compiled.
pub open spec fn all_patterns() -> Seq<Seq<char>> {
    seq![
        LOCAL_NIM_FULL@,
        LOCAL_NIM_NO_TAG@,
        HOSTED_ENDPOINT@,
        MODEL_ASSIGN@,
        CHATNVIDIA@,
        NVIDIA_EMBEDDINGS@,
        NVIDIA_RERANK@,
        CONTEXT_MODEL@,
    ]
}

/// The test for the patterns that the engine refuses.
pub open spec fn refused() -> spec_fn(Seq<char>) -> bool {
    |pattern: Seq<char>| !regex_accepts(pattern)
}

/// Whether the engine accepts every pattern of the scanner.
pub open spec fn all_patterns_accepted() -> bool {
    first_index(all_patterns(), refused()) == all_patterns().len()
}

/// A pattern that the engine refused.
#[derive(Debug, Clone)]
pub struct PatternError {
    /// The text of the pattern.
    pub pattern: String,
}

/// The scanner's patterns in compiled form.
pub struct Patterns {
    local_full: regex::Regex,
    local_no_tag: regex::Regex,
    hosted_endpoint: regex::Regex,
    model_rules: Vec<regex::Regex>,
    context_model: regex::Regex,
}

impl Patterns {
    /// Each compiled pattern stands for its text.
    #[verifier::type_invariant]
    spec fn well_formed(self) -> bool {
        &&& regex_source(self.local_full) == LOCAL_NIM_FULL@
        &&& regex_source(self.local_no_tag) == LOCAL_NIM_NO_TAG@
        &&& regex_source(self.hosted_endpoint) == HOSTED_ENDPOINT@
        &&& regex_source(self.context_model) == CONTEXT_MODEL@
        &&& self.model_rules@.len() == model_rules().len()
        &&& forall|i: int|
            0 <= i < self.model_rules@.len() ==> regex_source(#[trigger] self.model_rules@[i])
                == model_rules()[i]
    }

    /// Compiles the scanner's patterns. This succeeds exactly when the engine
    /// accepts them all; else the error names the first that it refused.
    pub fn new() -> (r: Result<Patterns, PatternError>)
        ensures
            r.is_ok() == all_patterns_accepted(),
            r matches Err(e) ==> e.pattern@ == all_patterns()[first_index(
                all_patterns(),
                refused(),
            ) as int],
    {
        let local_full = match compile(LOCAL_NIM_FULL) {
            Ok(re) => re,
            Err(_) => {
                proof {
                    lemma_first_index_is(all_patterns(), refused(), 0);
                }
                return Err(PatternError { pattern: String::from_str(LOCAL_NIM_FULL) });
            },
        };
        let local_no_tag = match compile(LOCAL_NIM_NO_TAG) {
            Ok(re) => re,
            Err(_) => {
                proof {
                    lemma_first_index_is(all_patterns(), refused(), 1);
                }
                return Err(PatternError { pattern: String::from_str(LOCAL_NIM_NO_TAG) });
            },
        };
        let hosted_endpoint = match compile(HOSTED_ENDPOINT) {
            Ok(re) => re,
            Err(_) => {
                proof {
                    lemma_first_index_is(all_patterns(), refused(), 2);
                }
                return Err(PatternError { pattern: String::from_str(HOSTED_ENDPOINT) });
            },
        };
        let model_assign = match compile(MODEL_ASSIGN) {
            Ok(re) => re,
            Err(_) => {
                proof {
                    lemma_first_index_is(all_patterns(), refused(), 3);
                }
                return Err(PatternError { pattern: String::from_str(MODEL_ASSIGN) });
            },
        };
        let chat = match compile(CHATNVIDIA) {
            Ok(re) => re,
            Err(_) => {
                proof {
                    lemma_first_index_is(all_patterns(), refused(), 4);
                }
                return Err(PatternError { pattern: String::from_str(CHATNVIDIA) });
            },
        };
        let embeddings = match compile(NVIDIA_EMBEDDINGS) {
            Ok(re) => re,
            Err(_) => {
                proof {
                    lemma_first_index_is(all_patterns(), refused(), 5);
                }
                return Err(PatternError { pattern: String::from_str(NVIDIA_EMBEDDINGS) });
            },
        };
        let rerank = match compile(NVIDIA_RERANK) {
            Ok(re) => re,
            Err(_) => {
                proof {
                    lemma_first_index_is(all_patterns(), refused(), 6);
                }
                return Err(PatternError { pattern: String::from_str(NVIDIA_RERANK) });
            },
        };
        let context_model = match compile(CONTEXT_MODEL) {
            Ok(re) => re,
            Err(_) => {
                proof {
                    lemma_first_index_is(all_patterns(), refused(), 7);
                }
                return Err(PatternError { pattern: String::from_str(CONTEXT_MODEL) });
            },
        };
        let mut rules: Vec<regex::Regex> = Vec::new();
        rules.push(model_assign);
        rules.push(chat);
        rules.push(embeddings);
        rules.push(rerank);
        proof {
            lemma_first_index_is(all_patterns(), refused(), 8);
        }
        Ok(Patterns { local_full, local_no_tag, hosted_endpoint, model_rules: rules, context_model })
    }

    /// The groups that the tagged image pattern captures in `text`.
    pub(crate) fn local_full(&self, text: &str) -> (r: Option<Vec<Option<String>>>)
        ensures
            r.deep_view() == regex_captures(LOCAL_NIM_FULL@, text@),
    {
        proof {
            use_type_invariant(self);
        }
        captures(&self.local_full, text)
    }

    /// The groups that the untagged image pattern captures in `text`.
    pub(crate) fn local_no_tag(&self, text: &str) -> (r: Option<Vec<Option<String>>>)
        ensures
            r.deep_view() == regex_captures(LOCAL_NIM_NO_TAG@, text@),
    {
        proof {
            use_type_invariant(self);
        }
        captures(&self.local_no_tag, text)
    }

    /// The endpoint that the endpoint pattern finds in `text`.
    pub(crate) fn hosted_endpoint(&self, text: &str) -> (r: Option<String>)
        ensures
            r.deep_view() == regex_find(HOSTED_ENDPOINT@, text@),
    {
        proof {
            use_type_invariant(self);
        }
        find(&self.hosted_endpoint, text)
    }

    /// The groups that the model rule of rank `rank` captures in `text`.
    pub(crate) fn model_rule(&self, rank: usize, text: &str) -> (r: Option<Vec<Option<String>>>)
        requires
            rank < model_rules().len(),
        ensures
            r.deep_view() == regex_captures(model_rules()[rank as int], text@),
    {
        proof {
            use_type_invariant(self);
        }
        captures(&self.model_rules[rank], text)
    }

    /// The groups that the context pattern captures in `text`.
    pub(crate) fn context_model(&self, text: &str) -> (r: Option<Vec<Option<String>>>)
        ensures
            r.deep_view() == regex_captures(CONTEXT_MODEL@, text@),
    {
        proof {
            use_type_invariant(self);
        }
        captures(&self.context_model, text)
    }
}

} // verus!
