use nim_usage_scanner::catalog::{
    ai_prefixed_name, find_function_in, function_list_address, normalized_name, repo_info_address,
    short_name, versions_address,
};
use nim_usage_scanner::models::{
    HostedNimMatch, LocalNimMatch, NgcFunctionDetails, NimFindings,
};
use nim_usage_scanner::ngc_api::{
    enrich_all_findings, EnrichProgress, NgcClient, NgcError, Step,
};

#[test]
fn test_parse_image_url() {
    let result = NgcClient::parse_image_url("nvcr.io/nim/nvidia/llama-3.2-nv-embedqa-1b-v2");
    assert!(result.is_some());
    let (team, model) = result.unwrap();
    assert_eq!(team, "nvidia");
    assert_eq!(model, "llama-3.2-nv-embedqa-1b-v2");
}

#[test]
fn test_parse_image_url_meta() {
    let result = NgcClient::parse_image_url("nvcr.io/nim/meta/llama-3.3-70b-instruct");
    assert!(result.is_some());
    let (team, model) = result.unwrap();
    assert_eq!(team, "meta");
    assert_eq!(model, "llama-3.3-70b-instruct");
}

#[test]
fn test_parse_image_url_invalid() {
    assert!(NgcClient::parse_image_url("docker.io/library/nginx").is_none());
    assert!(NgcClient::parse_image_url("invalid").is_none());
}

#[test]
fn test_model_name_normalization() {
    let model_name = "meta/llama-3.3-70b-instruct";
    let normalized = normalized_name(model_name);
    let ai_prefixed = ai_prefixed_name(model_name);

    assert_eq!(normalized, "llama-3_3-70b-instruct");
    assert_eq!(ai_prefixed, "ai-llama-3_3-70b-instruct");
}

#[test]
fn test_model_name_normalization_nvidia() {
    let model_name = "nvidia/llama-3.3-nemotron-super-49b-v1";
    let normalized = normalized_name(model_name);
    let ai_prefixed = ai_prefixed_name(model_name);

    assert_eq!(normalized, "llama-3_3-nemotron-super-49b-v1");
    assert_eq!(ai_prefixed, "ai-llama-3_3-nemotron-super-49b-v1");
}

#[test]
fn test_model_name_normalization_stg_prefix() {
    let model_name = "stg/nvidia/llama-3.3-nemotron-super-49b-v1";
    let short_name = short_name(model_name);
    let normalized = normalized_name(model_name);
    let ai_prefixed = ai_prefixed_name(model_name);

    assert_eq!(short_name, "llama-3.3-nemotron-super-49b-v1");
    assert_eq!(normalized, "llama-3_3-nemotron-super-49b-v1");
    assert_eq!(ai_prefixed, "ai-llama-3_3-nemotron-super-49b-v1");
}

#[test]
fn test_model_name_normalization_deepseek() {
    let model_name = "stg/deepseek-ai/deepseek-r1";
    let short_name = short_name(model_name);
    let normalized = normalized_name(model_name);

    assert_eq!(short_name, "deepseek-r1");
    assert_eq!(normalized, "deepseek-r1");
}

fn function(id: &str, name: &str) -> NgcFunctionDetails {
    NgcFunctionDetails {
        id: id.to_string(),
        name: name.to_string(),
        status: Some("ACTIVE".to_string()),
        container_image: None,
    }
}

fn local(image: &str, tag: &str) -> LocalNimMatch {
    LocalNimMatch {
        repository: "r".to_string(),
        image_url: image.to_string(),
        tag: tag.to_string(),
        resolved_tag: None,
        file_path: "f".to_string(),
        line_number: 1,
        match_context: "ctx".to_string(),
    }
}

fn hosted(model: Option<&str>) -> HostedNimMatch {
    HostedNimMatch {
        repository: "r".to_string(),
        endpoint_url: Some("https://integrate.api.nvidia.com/v1".to_string()),
        model_name: model.map(|m| m.to_string()),
        file_path: "f".to_string(),
        line_number: 1,
        match_context: "ctx".to_string(),
        function_id: None,
        status: None,
        container_image: None,
    }
}

fn ok(body: &str) -> Option<Result<String, String>> {
    Some(Ok(body.to_string()))
}

fn failed(why: &str) -> Option<Result<String, String>> {
    Some(Err(why.to_string()))
}

const LIST: &str = r#"{"functions": [
    {"id": "f-other", "name": "ai-mixtral-8x7b", "status": "ACTIVE"},
    {"id": "f-llama", "name": "ai-llama-3_3-70b-instruct", "status": "ACTIVE"},
    {"id": "f-second", "name": "ai-llama-3_3-70b-instruct-v2"}
]}"#;

const VERSIONS: &str = r#"{"functions": [
    {"id": "f-llama", "name": "ai-llama-3_3-70b-instruct", "status": "ACTIVE",
     "containerImage": "nvcr.io/nim/meta/llama-3.3-70b-instruct:1.8.2",
     "models": [{"name": "meta/llama-3.3-70b-instruct"}, {"name": "second"}],
     "ncaId": "nca", "versionId": "v-2", "createdAt": "2025-01-01T00:00:00Z",
     "description": "d", "healthUri": "/health", "inferenceUrl": "/infer",
     "apiBodyFormat": "CUSTOM"},
    {"id": "f-llama", "name": "older", "status": "INACTIVE"}
]}"#;

#[test]
fn name_normalization_end_to_end() {
    assert_eq!(short_name("meta/llama-3.3-70b-instruct"), "llama-3.3-70b-instruct");
    assert_eq!(normalized_name("meta/llama-3.3-70b-instruct"), "llama-3_3-70b-instruct");
    assert_eq!(ai_prefixed_name("meta/llama-3.3-70b-instruct"), "ai-llama-3_3-70b-instruct");
    assert_eq!(short_name("plain"), "plain");
    assert_eq!(short_name("org/"), "");
    assert_eq!(short_name(""), "");
    assert_eq!(normalized_name("NVIDIA/Llama-3.1.Nemotron"), "llama-3_1_nemotron");
    assert_eq!(ai_prefixed_name(""), "ai-");
}

#[test]
fn image_coordinates() {
    assert_eq!(
        NgcClient::parse_image_url("nvcr.io/nim/a/b/c"),
        Some(("a".to_string(), "b".to_string()))
    );
    assert_eq!(NgcClient::parse_image_url("nvcr.io/nim/a/"), Some(("a".to_string(), "".to_string())));
    assert_eq!(NgcClient::parse_image_url("nvcr.io/nim/onlyone"), None);
    assert_eq!(NgcClient::parse_image_url("nvcr.io/nim/"), None);
    assert_eq!(NgcClient::parse_image_url("x nvcr.io/nim/a/b"), None);
    assert_eq!(NgcClient::parse_image_url(""), None);
}

#[test]
fn addresses() {
    assert_eq!(
        repo_info_address("nvidia", "nemo"),
        "https://api.ngc.nvidia.com/v2/org/nim/team/nvidia/repos/nemo"
    );
    assert_eq!(function_list_address(), "https://api.nvcf.nvidia.com/v2/nvcf/functions");
    assert_eq!(
        versions_address("abc-123"),
        "https://api.nvcf.nvidia.com/v2/nvcf/functions/abc-123/versions"
    );
    assert_eq!(NgcClient::new("k3y".to_string()).auth_header(), "Bearer k3y");
}

#[test]
fn the_first_matching_function_is_taken() {
    let functions = vec![
        function("1", "ai-mixtral-8x7b"),
        function("2", "AI-Llama-3_3-70B-Instruct-v2"),
        function("3", "ai-llama-3_3-70b-instruct"),
    ];
    assert_eq!(find_function_in(&functions, "meta/llama-3.3-70b-instruct").as_deref(), Some("2"));
    assert_eq!(find_function_in(&functions, "mistralai/mixtral-8x7b").as_deref(), Some("1"));
    assert_eq!(find_function_in(&functions, "nvidia/unknown-model"), None);
    assert_eq!(find_function_in(&vec![], "meta/llama-3.3-70b-instruct"), None);
}

#[test]
fn each_way_of_matching_a_function() {
    let one = |name: &str| vec![function("id", name)];
    // the prefixed name itself, and as a prefix
    assert!(find_function_in(&one("ai-model-1_0"), "org/model-1.0").is_some());
    assert!(find_function_in(&one("ai-model-1_0-extra"), "org/model-1.0").is_some());
    // the normalized name itself, and held inside
    assert!(find_function_in(&one("model-1_0"), "org/model-1.0").is_some());
    assert!(find_function_in(&one("x-model-1_0-y"), "org/model-1.0").is_some());
    // the short name held inside
    assert!(find_function_in(&one("x-model-1.0-y"), "org/Model-1.0").is_some());
    // the function's name without its prefix held inside the short name
    assert!(find_function_in(&one("ai-del-1"), "org/model-1.0").is_some());
    assert!(find_function_in(&one("ai-"), "org/model").is_some());
    // only a prefix in front is taken off
    assert!(find_function_in(&one("openai-gpt"), "x/opengpt").is_none());
    assert!(find_function_in(&one("ai-open"), "x/opengpt").is_some());
    assert!(find_function_in(&one("x-ai-del"), "org/model").is_none());
    // none of them
    assert!(find_function_in(&one("ai-other"), "org/model-1.0").is_none());
    assert!(find_function_in(&one("ai-model-1_1"), "org/model-1.0").is_none());
}

#[test]
fn resolving_a_tag_asks_then_reads_then_remembers() {
    let mut client = NgcClient::new("key".to_string());
    let image = "nvcr.io/nim/nvidia/nemo";
    match client.resolve_latest_tag(image, None) {
        Step::Get(url) => {
            assert_eq!(url, "https://api.ngc.nvidia.com/v2/org/nim/team/nvidia/repos/nemo")
        }
        other => panic!("unexpected {:?}", other),
    }
    match client.resolve_latest_tag(image, ok(r#"{"name": "nemo", "latestTag": "1.2.3"}"#)) {
        Step::Done(Ok(tag)) => assert_eq!(tag, "1.2.3"),
        other => panic!("unexpected {:?}", other),
    }
    // held now: no request, and a reply is not looked at
    match client.resolve_latest_tag(image, None) {
        Step::Done(Ok(tag)) => assert_eq!(tag, "1.2.3"),
        other => panic!("unexpected {:?}", other),
    }
    match client.resolve_latest_tag(image, ok(r#"{"latestTag": "9"}"#)) {
        Step::Done(Ok(tag)) => assert_eq!(tag, "1.2.3"),
        other => panic!("unexpected {:?}", other),
    }
}

#[test]
fn resolving_a_tag_fails_without_remembering() {
    let mut client = NgcClient::new("key".to_string());
    let image = "nvcr.io/nim/nvidia/nemo";
    assert!(matches!(
        client.resolve_latest_tag("docker.io/library/nginx", None),
        Step::Done(Err(NgcError::InvalidImageUrl))
    ));
    assert!(matches!(
        client.resolve_latest_tag("docker.io/library/nginx", ok(r#"{"latestTag": "1"}"#)),
        Step::Done(Err(NgcError::InvalidImageUrl))
    ));
    assert!(matches!(
        client.resolve_latest_tag(image, failed("HTTP error 404: nope")),
        Step::Done(Err(NgcError::Request(why))) if why == "HTTP error 404: nope"
    ));
    assert!(matches!(
        client.resolve_latest_tag(image, ok("<html>")),
        Step::Done(Err(NgcError::InvalidJson))
    ));
    assert!(matches!(
        client.resolve_latest_tag(image, ok(r#"{"name": "nemo"}"#)),
        Step::Done(Err(NgcError::MissingLatestTag))
    ));
    assert!(matches!(
        client.resolve_latest_tag(image, ok(r#"{"latestTag": 7}"#)),
        Step::Done(Err(NgcError::MissingLatestTag))
    ));
    assert!(matches!(
        client.resolve_latest_tag(image, ok(r#"["latestTag"]"#)),
        Step::Done(Err(NgcError::MissingLatestTag))
    ));
    assert!(matches!(client.resolve_latest_tag(image, None), Step::Get(_)));
}

#[test]
fn the_function_list_is_fetched_once() {
    let mut client = NgcClient::new("key".to_string());
    match client.find_function_by_model("meta/llama-3.3-70b-instruct", None) {
        Step::Get(url) => assert_eq!(url, "https://api.nvcf.nvidia.com/v2/nvcf/functions"),
        other => panic!("unexpected {:?}", other),
    }
    match client.find_function_by_model("meta/llama-3.3-70b-instruct", ok(LIST)) {
        Step::Done(Ok(id)) => assert_eq!(id.as_deref(), Some("f-llama")),
        other => panic!("unexpected {:?}", other),
    }
    match client.find_function_by_model("mistralai/mixtral-8x7b", None) {
        Step::Done(Ok(id)) => assert_eq!(id.as_deref(), Some("f-other")),
        other => panic!("unexpected {:?}", other),
    }
    match client.find_function_by_model("nvidia/no-such-model", None) {
        Step::Done(Ok(id)) => assert_eq!(id, None),
        other => panic!("unexpected {:?}", other),
    }
    assert!(matches!(client.fetch_function_list(None), Step::Done(Ok(()))));
}

#[test]
fn a_failed_list_fetch_is_tried_again() {
    let mut client = NgcClient::new("key".to_string());
    assert!(matches!(
        client.find_function_by_model("a/b", failed("boom")),
        Step::Done(Err(NgcError::Request(why))) if why == "boom"
    ));
    assert!(matches!(
        client.find_function_by_model("a/b", ok("not json")),
        Step::Done(Err(NgcError::InvalidJson))
    ));
    assert!(matches!(
        client.find_function_by_model("a/b", ok(r#"{"items": []}"#)),
        Step::Done(Err(NgcError::InvalidFunctionList))
    ));
    assert!(matches!(
        client.find_function_by_model("a/b", ok(r#"{"functions": [{"id": "1"}]}"#)),
        Step::Done(Err(NgcError::InvalidFunctionList))
    ));
    assert!(matches!(client.find_function_by_model("a/b", None), Step::Get(_)));
    assert!(matches!(
        client.find_function_by_model("a/b", ok(r#"{"functions": []}"#)),
        Step::Done(Ok(None))
    ));
}

#[test]
fn details_come_from_the_first_version() {
    let mut client = NgcClient::new("key".to_string());
    match client.get_function_details("f-llama", None) {
        Step::Get(url) => {
            assert_eq!(url, "https://api.nvcf.nvidia.com/v2/nvcf/functions/f-llama/versions")
        }
        other => panic!("unexpected {:?}", other),
    }
    match client.get_function_details("f-llama", ok(VERSIONS)) {
        Step::Done(Ok(d)) => {
            assert_eq!(d.id, "f-llama");
            assert_eq!(d.name, "meta/llama-3.3-70b-instruct");
            assert_eq!(d.status.as_deref(), Some("ACTIVE"));
            assert_eq!(
                d.container_image.as_deref(),
                Some("nvcr.io/nim/meta/llama-3.3-70b-instruct:1.8.2")
            );
        }
        other => panic!("unexpected {:?}", other),
    }
    match client.get_function_details("f-llama", None) {
        Step::Done(Ok(d)) => assert_eq!(d.name, "meta/llama-3.3-70b-instruct"),
        other => panic!("unexpected {:?}", other),
    }
}

#[test]
fn details_fall_back() {
    let mut client = NgcClient::new("key".to_string());
    match client.get_function_details("asked", ok(r#"{"functions": [{"name": "own-name"}]}"#)) {
        Step::Done(Ok(d)) => {
            assert_eq!(d.id, "asked");
            assert_eq!(d.name, "own-name");
            assert_eq!(d.status, None);
            assert_eq!(d.container_image, None);
        }
        other => panic!("unexpected {:?}", other),
    }
    match client.get_function_details("bare", ok(r#"{"functions": [{"models": []}]}"#)) {
        Step::Done(Ok(d)) => {
            assert_eq!(d.id, "bare");
            assert_eq!(d.name, "");
        }
        other => panic!("unexpected {:?}", other),
    }
    assert!(matches!(
        client.get_function_details("x", ok(r#"{"versions": []}"#)),
        Step::Done(Err(NgcError::MissingFunctions))
    ));
    assert!(matches!(
        client.get_function_details("x", ok(r#"{"functions": {}}"#)),
        Step::Done(Err(NgcError::MissingFunctions))
    ));
    assert!(matches!(
        client.get_function_details("x", ok(r#"{"functions": []}"#)),
        Step::Done(Err(NgcError::EmptyFunctions))
    ));
    assert!(matches!(
        client.get_function_details("x", ok("{")),
        Step::Done(Err(NgcError::InvalidJson))
    ));
    assert!(matches!(
        client.get_function_details("x", failed("down")),
        Step::Done(Err(NgcError::Request(_)))
    ));
}

#[test]
fn container_references_are_enriched_one_request_at_a_time() {
    let mut client = NgcClient::new("key".to_string());
    let mut findings = NimFindings {
        local_nim: vec![
            local("nvcr.io/nim/a/pinned", "1.0"),
            local("nvcr.io/nim/a/x", "latest"),
            local("not-an-image", "latest"),
            local("nvcr.io/nim/a/y", ""),
            local("nvcr.io/nim/a/x", "latest"),
            local("nvcr.io/nim/a/z", "latest"),
        ],
        hosted_nim: vec![hosted(Some("a/x"))],
    };
    let mut cursor = 0;
    match client.enrich_local_nim_matches(&mut findings, &mut cursor, None) {
        Step::Get(url) => assert_eq!(url, "https://api.ngc.nvidia.com/v2/org/nim/team/a/repos/x"),
        other => panic!("unexpected {:?}", other),
    }
    assert_eq!(cursor, 1);
    match client.enrich_local_nim_matches(&mut findings, &mut cursor, ok(r#"{"latestTag": "2.0"}"#)) {
        Step::Get(url) => assert_eq!(url, "https://api.ngc.nvidia.com/v2/org/nim/team/a/repos/y"),
        other => panic!("unexpected {:?}", other),
    }
    assert_eq!(cursor, 3);
    match client.enrich_local_nim_matches(&mut findings, &mut cursor, failed("HTTP error 404: ")) {
        Step::Get(url) => assert_eq!(url, "https://api.ngc.nvidia.com/v2/org/nim/team/a/repos/z"),
        other => panic!("unexpected {:?}", other),
    }
    assert_eq!(cursor, 5);
    assert!(matches!(
        client.enrich_local_nim_matches(&mut findings, &mut cursor, ok(r#"{"latestTag": "3.1"}"#)),
        Step::Done(())
    ));
    assert_eq!(cursor, 6);

    let resolved: Vec<Option<&str>> =
        findings.local_nim.iter().map(|m| m.resolved_tag.as_deref()).collect();
    assert_eq!(resolved, vec![None, Some("2.0"), None, None, Some("2.0"), Some("3.1")]);
    let tags: Vec<&str> = findings.local_nim.iter().map(|m| m.tag.as_str()).collect();
    assert_eq!(tags, vec!["1.0", "latest", "latest", "", "latest", "latest"]);
    assert_eq!(findings.hosted_nim.len(), 1);
    assert_eq!(findings.hosted_nim[0].function_id, None);
}

#[test]
fn hosted_references_are_enriched_one_request_at_a_time() {
    let mut client = NgcClient::new("key".to_string());
    let mut findings = NimFindings {
        local_nim: vec![local("nvcr.io/nim/a/x", "latest")],
        hosted_nim: vec![
            hosted(None),
            hosted(Some("meta/llama-3.3-70b-instruct")),
            hosted(Some("nvidia/no-such-model")),
            hosted(Some("mistralai/mixtral-8x7b")),
            hosted(Some("meta/llama-3.3-70b-instruct")),
        ],
    };
    let mut cursor = 0;
    match client.enrich_hosted_nim_matches(&mut findings, &mut cursor, None) {
        Step::Get(url) => assert_eq!(url, "https://api.nvcf.nvidia.com/v2/nvcf/functions"),
        other => panic!("unexpected {:?}", other),
    }
    assert_eq!(cursor, 1);
    match client.enrich_hosted_nim_matches(&mut findings, &mut cursor, ok(LIST)) {
        Step::Get(url) => {
            assert_eq!(url, "https://api.nvcf.nvidia.com/v2/nvcf/functions/f-llama/versions")
        }
        other => panic!("unexpected {:?}", other),
    }
    assert_eq!(cursor, 1);
    match client.enrich_hosted_nim_matches(&mut findings, &mut cursor, ok(VERSIONS)) {
        Step::Get(url) => {
            assert_eq!(url, "https://api.nvcf.nvidia.com/v2/nvcf/functions/f-other/versions")
        }
        other => panic!("unexpected {:?}", other),
    }
    assert_eq!(cursor, 3);
    assert!(matches!(
        client.enrich_hosted_nim_matches(&mut findings, &mut cursor, failed("HTTP error 500")),
        Step::Done(())
    ));
    assert_eq!(cursor, 5);

    let h = &findings.hosted_nim;
    assert_eq!(h[0].function_id, None);
    assert_eq!(h[1].function_id.as_deref(), Some("f-llama"));
    assert_eq!(h[1].status.as_deref(), Some("ACTIVE"));
    assert_eq!(
        h[1].container_image.as_deref(),
        Some("nvcr.io/nim/meta/llama-3.3-70b-instruct:1.8.2")
    );
    assert_eq!(h[2].function_id, None);
    assert_eq!(h[2].status, None);
    assert_eq!(h[3].function_id.as_deref(), Some("f-other"));
    assert_eq!(h[3].status, None);
    assert_eq!(h[3].container_image, None);
    assert_eq!(h[4].function_id.as_deref(), Some("f-llama"));
    assert_eq!(h[4].status.as_deref(), Some("ACTIVE"));
    for m in h.iter() {
        assert_eq!(m.endpoint_url.as_deref(), Some("https://integrate.api.nvidia.com/v1"));
        assert_eq!(m.match_context, "ctx");
    }
    assert_eq!(findings.local_nim[0].resolved_tag, None);
}

#[test]
fn a_failed_list_fetch_skips_one_reference_only() {
    let mut client = NgcClient::new("key".to_string());
    let mut findings = NimFindings {
        local_nim: vec![],
        hosted_nim: vec![hosted(Some("a/first")), hosted(Some("mistralai/mixtral-8x7b"))],
    };
    let mut cursor = 0;
    assert!(matches!(
        client.enrich_hosted_nim_matches(&mut findings, &mut cursor, None),
        Step::Get(_)
    ));
    match client.enrich_hosted_nim_matches(&mut findings, &mut cursor, failed("down")) {
        Step::Get(url) => assert_eq!(url, "https://api.nvcf.nvidia.com/v2/nvcf/functions"),
        other => panic!("unexpected {:?}", other),
    }
    assert_eq!(cursor, 1);
    assert_eq!(findings.hosted_nim[0].function_id, None);
}

#[test]
fn without_a_credential_nothing_is_enriched() {
    let mut source_code = NimFindings {
        local_nim: vec![local("nvcr.io/nim/a/x", "latest")],
        hosted_nim: vec![hosted(Some("a/x"))],
    };
    let mut actions_workflow = NimFindings::new();
    let mut progress = EnrichProgress::new();
    assert!(matches!(
        enrich_all_findings(None, &mut source_code, &mut actions_workflow, &mut progress, None),
        Step::Done(())
    ));
    assert!(matches!(
        enrich_all_findings(Some(""), &mut source_code, &mut actions_workflow, &mut progress, None),
        Step::Done(())
    ));
    assert_eq!(source_code.local_nim[0].resolved_tag, None);
    assert_eq!(source_code.hosted_nim[0].function_id, None);
}

#[test]
fn all_findings_are_enriched_through_one_client() {
    let mut source_code = NimFindings {
        local_nim: vec![local("nvcr.io/nim/a/x", "latest")],
        hosted_nim: vec![hosted(Some("meta/llama-3.3-70b-instruct"))],
    };
    let mut actions_workflow = NimFindings {
        local_nim: vec![local("nvcr.io/nim/a/x", "latest"), local("nvcr.io/nim/a/w", "")],
        hosted_nim: vec![hosted(Some("meta/llama-3.3-70b-instruct"))],
    };
    let mut progress = EnrichProgress::new();
    let key = Some("key");
    let mut asked: Vec<String> = Vec::new();
    let mut reply = None;
    loop {
        match enrich_all_findings(key, &mut source_code, &mut actions_workflow, &mut progress, reply) {
            Step::Done(()) => break,
            Step::Get(url) => {
                reply = if url.ends_with("/repos/x") {
                    ok(r#"{"latestTag": "4.5"}"#)
                } else if url.ends_with("/repos/w") {
                    failed("HTTP error 404: ")
                } else if url.ends_with("/functions") {
                    ok(LIST)
                } else {
                    ok(VERSIONS)
                };
                asked.push(url);
                assert!(asked.len() < 20);
            }
        }
    }
    assert_eq!(
        asked,
        vec![
            "https://api.ngc.nvidia.com/v2/org/nim/team/a/repos/x",
            "https://api.ngc.nvidia.com/v2/org/nim/team/a/repos/w",
            "https://api.nvcf.nvidia.com/v2/nvcf/functions",
            "https://api.nvcf.nvidia.com/v2/nvcf/functions/f-llama/versions",
        ]
    );
    assert_eq!(source_code.local_nim[0].resolved_tag.as_deref(), Some("4.5"));
    assert_eq!(actions_workflow.local_nim[0].resolved_tag.as_deref(), Some("4.5"));
    assert_eq!(actions_workflow.local_nim[1].resolved_tag, None);
    assert_eq!(source_code.hosted_nim[0].function_id.as_deref(), Some("f-llama"));
    assert_eq!(actions_workflow.hosted_nim[0].function_id.as_deref(), Some("f-llama"));
    assert_eq!(actions_workflow.hosted_nim[0].status.as_deref(), Some("ACTIVE"));
    // a further call finds nothing left to do
    assert!(matches!(
        enrich_all_findings(key, &mut source_code, &mut actions_workflow, &mut progress, None),
        Step::Done(())
    ));
}

#[test]
fn querying_an_image() {
    let mut client = NgcClient::new("key".to_string());
    let image = "nvcr.io/nim/nvidia/nemo";
    match client.query_local_nim(image, None) {
        Step::Get(url) => {
            assert_eq!(url, "https://api.ngc.nvidia.com/v2/org/nim/team/nvidia/repos/nemo")
        }
        other => panic!("unexpected {:?}", other),
    }
    let body = r#"{"name": "nemo", "latestTag": "1.2.3", "latestVersionId": "v9",
        "description": "long", "shortDescription": "short", "isPublic": true,
        "publisher": "NVIDIA", "displayName": "NeMo", "extra": [1, 2.5, null]}"#;
    match client.query_local_nim(image, ok(body)) {
        Step::Done(Ok(r)) => {
            assert_eq!(r.query_image, image);
            assert_eq!(r.team, "nvidia");
            assert_eq!(r.model, "nemo");
            assert_eq!(r.name.as_deref(), Some("nemo"));
            assert_eq!(r.latest_tag.as_deref(), Some("1.2.3"));
            assert_eq!(r.latest_version_id.as_deref(), Some("v9"));
            assert_eq!(r.description.as_deref(), Some("long"));
            assert_eq!(r.short_description.as_deref(), Some("short"));
            assert_eq!(r.is_public, Some(true));
            assert_eq!(r.publisher.as_deref(), Some("NVIDIA"));
            assert_eq!(r.display_name.as_deref(), Some("NeMo"));
            assert_eq!(r.repository_url, "nvcr.io/nim/nvidia/nemo");
            assert_eq!(r.raw_response.text_member("latestTag").as_deref(), Some("1.2.3"));
        }
        other => panic!("unexpected {:?}", other),
    }
    // a query remembers nothing
    assert!(matches!(client.resolve_latest_tag(image, None), Step::Get(_)));
    assert!(matches!(
        client.query_local_nim("nginx", None),
        Step::Done(Err(NgcError::InvalidImageUrl))
    ));
    assert!(matches!(
        client.query_local_nim(image, ok("nope")),
        Step::Done(Err(NgcError::InvalidJson))
    ));
    assert!(matches!(
        client.query_local_nim(image, failed("x")),
        Step::Done(Err(NgcError::Request(_)))
    ));
    match client.query_local_nim(image, ok("{}")) {
        Step::Done(Ok(r)) => {
            assert_eq!(r.latest_tag, None);
            assert_eq!(r.is_public, None);
        }
        other => panic!("unexpected {:?}", other),
    }
}

#[test]
fn querying_a_model() {
    let mut client = NgcClient::new("key".to_string());
    let model = "meta/llama-3.3-70b-instruct";
    match client.query_hosted_nim(model, None) {
        Step::Get(url) => assert_eq!(url, "https://api.nvcf.nvidia.com/v2/nvcf/functions"),
        other => panic!("unexpected {:?}", other),
    }
    match client.query_hosted_nim(model, ok(LIST)) {
        Step::Get(url) => {
            assert_eq!(url, "https://api.nvcf.nvidia.com/v2/nvcf/functions/f-llama/versions")
        }
        other => panic!("unexpected {:?}", other),
    }
    match client.query_hosted_nim(model, ok(VERSIONS)) {
        Step::Done(Ok(r)) => {
            assert_eq!(r.query_model, model);
            assert_eq!(r.function_id.as_deref(), Some("f-llama"));
            assert_eq!(r.name.as_deref(), Some("ai-llama-3_3-70b-instruct"));
            assert_eq!(r.status.as_deref(), Some("ACTIVE"));
            assert_eq!(
                r.container_image.as_deref(),
                Some("nvcr.io/nim/meta/llama-3.3-70b-instruct:1.8.2")
            );
            assert_eq!(r.ncf_function_id.as_deref(), Some("nca"));
            assert_eq!(r.version_id.as_deref(), Some("v-2"));
            assert_eq!(r.created_at.as_deref(), Some("2025-01-01T00:00:00Z"));
            assert_eq!(r.description.as_deref(), Some("d"));
            assert_eq!(r.health_uri.as_deref(), Some("/health"));
            assert_eq!(r.inference_url.as_deref(), Some("/infer"));
            assert_eq!(r.api_body_format.as_deref(), Some("CUSTOM"));
            let models = r.models.expect("models");
            assert_eq!(models.as_array().map(|a| a.len()), Some(2));
            assert_eq!(r.raw_response.text_member("versionId").as_deref(), Some("v-2"));
        }
        other => panic!("unexpected {:?}", other),
    }
    // the versions are asked for anew each time
    assert!(matches!(client.query_hosted_nim(model, None), Step::Get(_)));
    assert!(matches!(
        client.query_hosted_nim("nvidia/no-such-model", None),
        Step::Done(Err(NgcError::FunctionNotFound))
    ));
    assert!(matches!(
        client.query_hosted_nim(model, ok(r#"{"functions": []}"#)),
        Step::Done(Err(NgcError::EmptyFunctions))
    ));
    assert!(matches!(
        client.query_hosted_nim(model, ok(r#"{}"#)),
        Step::Done(Err(NgcError::MissingFunctions))
    ));
}

#[test]
fn a_prefix_inside_a_function_name_stays() {
    let mut client = NgcClient::new("key".to_string());
    let list = r#"{"functions": [{"id": "f-9", "name": "openai-gpt"}]}"#;
    assert!(matches!(
        client.find_function_by_model("x/opengpt", ok(list)),
        Step::Done(Ok(None))
    ));
}
