use nim_usage_scanner::models::{HostedNimMatch, LocalNimMatch, NimFindings, ScanReport};
use nim_usage_scanner::report::csv_records;

fn create_test_report() -> ScanReport {
    let source_code = NimFindings {
        local_nim: vec![
            LocalNimMatch {
                repository: "test/repo".to_string(),
                image_url: "nvcr.io/nim/nvidia/test".to_string(),
                tag: "1.0.0".to_string(),
                resolved_tag: None,
                file_path: "Dockerfile".to_string(),
                line_number: 1,
                match_context: "FROM nvcr.io/nim/nvidia/test:1.0.0".to_string(),
            },
        ],
        hosted_nim: vec![
            HostedNimMatch {
                repository: "test/repo".to_string(),
                endpoint_url: Some("https://ai.api.nvidia.com/v1".to_string()),
                model_name: Some("nvidia/test-model".to_string()),
                file_path: "src/main.py".to_string(),
                line_number: 10,
                match_context: "model=\"nvidia/test-model\"".to_string(),
                function_id: Some("test-id".to_string()),
                status: Some("ACTIVE".to_string()),
                container_image: None,
            },
        ],
    };
    let actions_workflow = NimFindings::default();

    ScanReport::new(2, source_code, actions_workflow)
}

#[test]
fn a_report_holds_findings_groups_and_counts() {
    let report = create_test_report();
    assert_eq!(report.total_repos, 2);
    assert!(!report.scan_time.is_empty());
    assert!(report.scan_time.contains('T'));
    assert!(report.scan_time.ends_with("+00:00"));
    assert_eq!(report.source_code.local_nim.len(), 1);
    assert_eq!(report.source_code.hosted_nim.len(), 1);
    assert!(report.actions_workflow.is_empty());
    assert_eq!(report.summary.total_local_nim, 1);
    assert_eq!(report.summary.total_hosted_nim, 1);
    assert_eq!(report.summary.repos_with_nim, 1);
    assert_eq!(report.summary.source_code.local_nim, 1);
    assert_eq!(report.summary.source_code.hosted_nim, 1);
    assert_eq!(report.summary.actions_workflow.local_nim, 0);
    assert_eq!(report.aggregated.local_nim.len(), 1);
    assert_eq!(report.aggregated.hosted_nim.len(), 1);
    assert_eq!(report.aggregated.hosted_nim[0].function_id.as_deref(), Some("test-id"));
}

#[test]
fn a_report_keeps_the_time_it_is_given() {
    let report = ScanReport::with_time(
        "2025-06-01T12:00:00+00:00".to_string(),
        0,
        NimFindings::new(),
        NimFindings::new(),
    );
    assert_eq!(report.scan_time, "2025-06-01T12:00:00+00:00");
    assert_eq!(report.total_repos, 0);
    assert_eq!(report.summary.repos_with_nim, 0);
}

#[test]
fn the_table_has_a_header_and_a_row_for_each_reference() {
    let report = create_test_report();
    let table = csv_records(&report);
    assert_eq!(table.len(), 3);
    assert_eq!(
        table[0],
        vec![
            "source_type",
            "nim_type",
            "repository",
            "file_path",
            "line_number",
            "image_url",
            "tag",
            "resolved_tag",
            "endpoint_url",
            "model_name",
            "function_id",
            "status",
            "container_image",
            "match_context"
        ]
    );
    assert_eq!(
        table[1],
        vec![
            "source_code",
            "local_nim",
            "test/repo",
            "Dockerfile",
            "1",
            "nvcr.io/nim/nvidia/test",
            "1.0.0",
            "",
            "",
            "",
            "",
            "",
            "",
            "FROM nvcr.io/nim/nvidia/test:1.0.0"
        ]
    );
    assert_eq!(
        table[2],
        vec![
            "source_code",
            "hosted_nim",
            "test/repo",
            "src/main.py",
            "10",
            "",
            "",
            "",
            "https://ai.api.nvidia.com/v1",
            "nvidia/test-model",
            "test-id",
            "ACTIVE",
            "",
            "model=\"nvidia/test-model\""
        ]
    );
}

#[test]
fn the_rows_follow_the_categories() {
    let mut resolved = LocalNimMatch {
        repository: "w".to_string(),
        image_url: "nvcr.io/nim/a/b".to_string(),
        tag: "latest".to_string(),
        resolved_tag: None,
        file_path: ".github/workflows/ci.yml".to_string(),
        line_number: 120,
        match_context: "c".to_string(),
    };
    resolved.resolved_tag = Some("2.1".to_string());
    let workflow = NimFindings { local_nim: vec![resolved], hosted_nim: vec![] };
    let mut report = create_test_report();
    report.actions_workflow = workflow;
    let table = csv_records(&report);
    assert_eq!(table.len(), 4);
    assert_eq!(table[3][0], "actions_workflow");
    assert_eq!(table[3][1], "local_nim");
    assert_eq!(table[3][4], "120");
    assert_eq!(table[3][6], "latest");
    assert_eq!(table[3][7], "2.1");
    let empty = ScanReport::with_time("t".to_string(), 0, NimFindings::new(), NimFindings::new());
    assert_eq!(csv_records(&empty).len(), 1);
}
