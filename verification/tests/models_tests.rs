use nim_usage_scanner::models::{
    AggregatedFindings, CategorySummary, Defaults, HostedNimMatch, LocalNimMatch, NimFindings,
    RepoConfig, SourceType, Summary,
};

fn local(repository: &str, image: &str, tag: &str, file: &str, line: usize) -> LocalNimMatch {
    LocalNimMatch {
        repository: repository.to_string(),
        image_url: image.to_string(),
        tag: tag.to_string(),
        resolved_tag: None,
        file_path: file.to_string(),
        line_number: line,
        match_context: format!("image: {}:{}", image, tag),
    }
}

fn hosted(
    repository: &str,
    endpoint: Option<&str>,
    model: Option<&str>,
    file: &str,
    line: usize,
) -> HostedNimMatch {
    HostedNimMatch {
        repository: repository.to_string(),
        endpoint_url: endpoint.map(|s| s.to_string()),
        model_name: model.map(|s| s.to_string()),
        file_path: file.to_string(),
        line_number: line,
        match_context: "ctx".to_string(),
        function_id: None,
        status: None,
        container_image: None,
    }
}

#[test]
fn test_repo_config_defaults() {
    let defaults = Defaults {
        branch: "develop".to_string(),
        depth: 5,
    };

    let config = RepoConfig {
        name: "test".to_string(),
        url: "https://github.com/test/test.git".to_string(),
        branch: None,
        depth: None,
        enabled: true,
    };

    let config = config.with_defaults(&defaults);
    assert_eq!(config.branch(), "develop");
    assert_eq!(config.depth(), 5);
}

#[test]
fn test_nim_findings_empty() {
    let findings = NimFindings::new();
    assert!(findings.is_empty());
    assert_eq!(findings.total_count(), 0);
}

#[test]
fn test_summary_calculation() {
    let source_code = NimFindings {
        local_nim: vec![
            LocalNimMatch {
                repository: "repo1".to_string(),
                image_url: "nvcr.io/nim/nvidia/test".to_string(),
                tag: "1.0.0".to_string(),
                resolved_tag: None,
                file_path: "Dockerfile".to_string(),
                line_number: 1,
                match_context: "FROM nvcr.io/nim/nvidia/test:1.0.0".to_string(),
            },
        ],
        hosted_nim: vec![],
    };

    let actions_workflow = NimFindings {
        local_nim: vec![],
        hosted_nim: vec![
            HostedNimMatch {
                repository: "repo2".to_string(),
                endpoint_url: Some("https://ai.api.nvidia.com/v1".to_string()),
                model_name: Some("nvidia/test".to_string()),
                file_path: ".github/workflows/test.yml".to_string(),
                line_number: 10,
                match_context: "model: nvidia/test".to_string(),
                function_id: None,
                status: None,
                container_image: None,
            },
        ],
    };

    let summary = Summary::calculate(&source_code, &actions_workflow);
    assert_eq!(summary.total_local_nim, 1);
    assert_eq!(summary.total_hosted_nim, 1);
    assert_eq!(summary.repos_with_nim, 2);
    assert_eq!(summary.source_code.local_nim, 1);
    assert_eq!(summary.actions_workflow.hosted_nim, 1);
}

#[test]
fn source_type_labels() {
    assert_eq!(SourceType::SourceCode.as_str(), "source_code");
    assert_eq!(SourceType::ActionsWorkflow.as_str(), "actions_workflow");
}

#[test]
fn findings_count_both_families() {
    let findings = NimFindings {
        local_nim: vec![local("r", "nvcr.io/nim/a/b", "1", "f", 1)],
        hosted_nim: vec![
            hosted("r", None, Some("a/b"), "f", 2),
            hosted("r", None, Some("a/c"), "f", 3),
        ],
    };
    assert!(!findings.is_empty());
    assert_eq!(findings.total_count(), 3);
    let d = NimFindings::default();
    assert!(d.is_empty());
    assert_eq!(CategorySummary::default(), CategorySummary { local_nim: 0, hosted_nim: 0 });
}

#[test]
fn summary_counts_each_repository_once() {
    let source_code = NimFindings {
        local_nim: vec![
            local("one", "nvcr.io/nim/a/b", "1", "f", 1),
            local("two", "nvcr.io/nim/a/b", "1", "f", 1),
            local("one", "nvcr.io/nim/a/c", "1", "g", 2),
        ],
        hosted_nim: vec![hosted("two", None, Some("a/b"), "f", 2)],
    };
    let actions_workflow = NimFindings {
        local_nim: vec![local("three", "nvcr.io/nim/a/b", "1", "w.yml", 1)],
        hosted_nim: vec![hosted("one", Some("https://ai.api.nvidia.com/v1"), None, "w.yml", 2)],
    };
    let summary = Summary::calculate(&source_code, &actions_workflow);
    assert_eq!(
        summary,
        Summary {
            total_local_nim: 4,
            total_hosted_nim: 2,
            repos_with_nim: 3,
            source_code: CategorySummary { local_nim: 3, hosted_nim: 1 },
            actions_workflow: CategorySummary { local_nim: 1, hosted_nim: 1 },
        }
    );
    let none = Summary::calculate(&NimFindings::new(), &NimFindings::new());
    assert_eq!(none.repos_with_nim, 0);
    assert_eq!(none.total_local_nim, 0);
}

#[test]
fn same_image_and_tag_merge_in_either_order() {
    let a = local("r1", "nvcr.io/nim/nvidia/x", "1.0", "a.yaml", 3);
    let mut b = local("r2", "nvcr.io/nim/nvidia/x", "1.0", "b.yaml", 7);
    b.resolved_tag = Some("9.9".to_string());

    let ab = NimFindings { local_nim: vec![a.clone(), b.clone()], hosted_nim: vec![] };
    let ba = NimFindings { local_nim: vec![b.clone(), a.clone()], hosted_nim: vec![] };
    let none = NimFindings::new();

    let first = AggregatedFindings::from_findings(&ab, &none);
    assert_eq!(first.local_nim.len(), 1);
    assert_eq!(first.local_nim[0].image_url, "nvcr.io/nim/nvidia/x");
    assert_eq!(first.local_nim[0].tag, "1.0");
    assert_eq!(first.local_nim[0].resolved_tag, None);
    assert_eq!(first.local_nim[0].locations.len(), 2);
    assert_eq!(first.local_nim[0].locations[0].file_path, "a.yaml");
    assert_eq!(first.local_nim[0].locations[1].file_path, "b.yaml");

    let second = AggregatedFindings::from_findings(&ba, &none);
    assert_eq!(second.local_nim.len(), 1);
    assert_eq!(second.local_nim[0].resolved_tag.as_deref(), Some("9.9"));
    assert_eq!(second.local_nim[0].locations.len(), 2);
    assert_eq!(second.local_nim[0].locations[0].file_path, "b.yaml");
    assert_eq!(second.local_nim[0].locations[1].file_path, "a.yaml");

    let split = AggregatedFindings::from_findings(
        &NimFindings { local_nim: vec![a], hosted_nim: vec![] },
        &NimFindings { local_nim: vec![b], hosted_nim: vec![] },
    );
    assert_eq!(split.local_nim.len(), 1);
    assert_eq!(split.local_nim[0].locations.len(), 2);
    assert_eq!(split.local_nim[0].locations[0].source_type, "source_code");
    assert_eq!(split.local_nim[0].locations[1].source_type, "actions_workflow");
}

#[test]
fn different_tags_stay_apart() {
    let findings = NimFindings {
        local_nim: vec![
            local("r", "nvcr.io/nim/nvidia/x", "1.0", "a", 1),
            local("r", "nvcr.io/nim/nvidia/x", "2.0", "a", 2),
            local("r", "nvcr.io/nim/nvidia/y", "1.0", "a", 3),
            local("r", "nvcr.io/nim/nvidia/x", "1.0", "a", 4),
        ],
        hosted_nim: vec![],
    };
    let out = AggregatedFindings::from_findings(&findings, &NimFindings::new());
    assert_eq!(out.local_nim.len(), 3);
    assert_eq!(out.local_nim[0].tag, "1.0");
    assert_eq!(out.local_nim[0].locations.len(), 2);
    assert_eq!(out.local_nim[0].locations[1].line_number, 4);
    assert_eq!(out.local_nim[1].tag, "2.0");
    assert_eq!(out.local_nim[2].image_url, "nvcr.io/nim/nvidia/y");
    assert_eq!(out.local_nim[0].locations[0].repository, "r");
    assert_eq!(out.local_nim[0].locations[0].match_context, "image: nvcr.io/nim/nvidia/x:1.0");
}

#[test]
fn hosted_references_group_by_model_then_endpoint_then_line() {
    let mut enriched = hosted("r", Some("https://ai.api.nvidia.com/v1"), Some("meta/m"), "a", 1);
    enriched.function_id = Some("f-1".to_string());
    enriched.status = Some("ACTIVE".to_string());
    enriched.container_image = Some("img".to_string());
    let source_code = NimFindings {
        local_nim: vec![],
        hosted_nim: vec![
            enriched,
            hosted("r", Some("https://integrate.api.nvidia.com/v1"), None, "a", 2),
            hosted("r", None, None, "a", 30),
            hosted("r", None, Some("meta/m"), "b", 4),
        ],
    };
    let actions_workflow = NimFindings {
        local_nim: vec![],
        hosted_nim: vec![
            hosted("q", Some("https://integrate.api.nvidia.com/v1"), None, "w.yml", 5),
            hosted("q", None, None, "w.yml", 30),
            hosted("q", None, Some("unknown-30"), "w.yml", 6),
        ],
    };
    let out = AggregatedFindings::from_findings(&source_code, &actions_workflow);
    assert_eq!(out.hosted_nim.len(), 3);

    assert_eq!(out.hosted_nim[0].model_name.as_deref(), Some("meta/m"));
    assert_eq!(out.hosted_nim[0].endpoint_url.as_deref(), Some("https://ai.api.nvidia.com/v1"));
    assert_eq!(out.hosted_nim[0].function_id.as_deref(), Some("f-1"));
    assert_eq!(out.hosted_nim[0].status.as_deref(), Some("ACTIVE"));
    assert_eq!(out.hosted_nim[0].container_image.as_deref(), Some("img"));
    assert_eq!(out.hosted_nim[0].locations.len(), 2);

    assert_eq!(out.hosted_nim[1].model_name, None);
    assert_eq!(
        out.hosted_nim[1].endpoint_url.as_deref(),
        Some("https://integrate.api.nvidia.com/v1")
    );
    assert_eq!(out.hosted_nim[1].locations.len(), 2);
    assert_eq!(out.hosted_nim[1].locations[1].source_type, "actions_workflow");

    assert_eq!(out.hosted_nim[2].model_name, None);
    assert_eq!(out.hosted_nim[2].endpoint_url, None);
    assert_eq!(out.hosted_nim[2].locations.len(), 3);
    assert_eq!(out.hosted_nim[2].locations[0].line_number, 30);
    assert_eq!(out.hosted_nim[2].locations[2].line_number, 6);
}

#[test]
fn aggregating_nothing_gives_nothing() {
    let out = AggregatedFindings::from_findings(&NimFindings::new(), &NimFindings::new());
    assert!(out.local_nim.is_empty());
    assert!(out.hosted_nim.is_empty());
}
