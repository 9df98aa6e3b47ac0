use nim_usage_scanner::models::{HostedNimMatch, LocalNimMatch, NimFindings, SourceType};
use nim_usage_scanner::patterns::Patterns;
use nim_usage_scanner::scanner::{
    categorize_results, deduplicate_results, determine_source_type, extension_of,
    extract_hosted_nim,
    extract_local_nim, extract_model_from_url, find_model_name_in_context, is_excluded_path,
    is_scan_candidate, is_skipped_component, merge_scans, scan_content, should_scan_file,
    should_scan_name,
};

fn patterns() -> Patterns {
    Patterns::new().expect("the scanner's patterns compile")
}

#[test]
fn test_determine_source_type() {
    assert_eq!(
        determine_source_type("src/main.py"),
        SourceType::SourceCode
    );
    assert_eq!(
        determine_source_type(".github/workflows/deploy.yml"),
        SourceType::ActionsWorkflow
    );
    assert_eq!(
        determine_source_type(".github/workflows/test.yaml"),
        SourceType::ActionsWorkflow
    );
    assert_eq!(
        determine_source_type(".github/actions/test.yml"),
        SourceType::SourceCode  // Not in workflows/
    );
}

#[test]
fn test_extract_local_nim_with_tag() {
    let line = "image: nvcr.io/nim/nvidia/llama-3.2-nv-embedqa-1b-v2:1.10.0";
    let result = extract_local_nim(&patterns(), line, 1, "docker-compose.yaml", "test/repo");

    assert!(result.is_some());
    let m = result.unwrap();
    assert_eq!(m.image_url, "nvcr.io/nim/nvidia/llama-3.2-nv-embedqa-1b-v2");
    assert_eq!(m.tag, "1.10.0");
}

#[test]
fn test_extract_local_nim_without_tag() {
    let line = "FROM nvcr.io/nim/nvidia/nemo-retriever";
    let result = extract_local_nim(&patterns(), line, 1, "Dockerfile", "test/repo");

    assert!(result.is_some());
    let m = result.unwrap();
    assert_eq!(m.image_url, "nvcr.io/nim/nvidia/nemo-retriever");
    assert_eq!(m.tag, "latest");
}

#[test]
fn test_extract_hosted_nim_endpoint() {
    let line = r#"base_url = "https://ai.api.nvidia.com/v1/chat""#;
    let result = extract_hosted_nim(&patterns(), line, 1, "client.py", "test/repo");

    assert_eq!(result.len(), 1);
    assert_eq!(result[0].endpoint_url.as_deref(), Some("https://ai.api.nvidia.com/v1/chat"));
}

#[test]
fn test_extract_hosted_nim_model() {
    let line = r#"model = "nvidia/llama-3.1-nemotron-70b-instruct""#;
    let result = extract_hosted_nim(&patterns(), line, 1, "client.py", "test/repo");

    assert_eq!(result.len(), 1);
    assert_eq!(result[0].model_name.as_deref(), Some("nvidia/llama-3.1-nemotron-70b-instruct"));
}

#[test]
fn test_extract_hosted_nim_chatnvidia() {
    let line = r#"llm = ChatNVIDIA(model="nvidia/llama-3.1-nemotron")"#;
    let result = extract_hosted_nim(&patterns(), line, 1, "chain.py", "test/repo");

    assert_eq!(result.len(), 1);
    assert_eq!(result[0].model_name.as_deref(), Some("nvidia/llama-3.1-nemotron"));
}

#[test]
fn test_should_scan_file() {
    assert!(should_scan_file("src/main.py"));
    assert!(should_scan_file("docker-compose.yaml"));
    assert!(should_scan_file("Dockerfile"));
    assert!(should_scan_file("deploy/Dockerfile.prod"));
    assert!(should_scan_file("script.sh"));

    assert!(!should_scan_file("image.png"));
    assert!(!should_scan_file("data.csv"));
    // Note: .json files are scanned (package-lock.json would match)
}

#[test]
fn test_categorize_results() {
    let local = vec![
        LocalNimMatch {
            repository: "test".to_string(),
            image_url: "nvcr.io/nim/nvidia/test".to_string(),
            tag: "1.0".to_string(),
            resolved_tag: None,
            file_path: "Dockerfile".to_string(),
            line_number: 1,
            match_context: "FROM nvcr.io/nim/nvidia/test:1.0".to_string(),
        },
        LocalNimMatch {
            repository: "test".to_string(),
            image_url: "nvcr.io/nim/nvidia/test2".to_string(),
            tag: "2.0".to_string(),
            resolved_tag: None,
            file_path: ".github/workflows/deploy.yml".to_string(),
            line_number: 10,
            match_context: "image: nvcr.io/nim/nvidia/test2:2.0".to_string(),
        },
    ];

    let hosted = vec![];

    let (source_code, actions_workflow) = categorize_results(local, hosted);

    assert_eq!(source_code.local_nim.len(), 1);
    assert_eq!(actions_workflow.local_nim.len(), 1);
}

#[test]
fn test_deduplicate_results() {
    let mut findings = NimFindings {
        local_nim: vec![
            LocalNimMatch {
                repository: "test".to_string(),
                image_url: "nvcr.io/nim/nvidia/test".to_string(),
                tag: "1.0".to_string(),
                resolved_tag: None,
                file_path: "Dockerfile".to_string(),
                line_number: 1,
                match_context: "FROM nvcr.io/nim/nvidia/test:1.0".to_string(),
            },
            LocalNimMatch {
                repository: "test".to_string(),
                image_url: "nvcr.io/nim/nvidia/test".to_string(),
                tag: "1.0".to_string(),
                resolved_tag: None,
                file_path: "Dockerfile".to_string(),
                line_number: 1,  // Same line - duplicate
                match_context: "FROM nvcr.io/nim/nvidia/test:1.0".to_string(),
            },
        ],
        hosted_nim: vec![],
    };

    deduplicate_results(&mut findings);
    assert_eq!(findings.local_nim.len(), 1);
}

fn local(repository: &str, file: &str, line: usize, tag: &str) -> LocalNimMatch {
    LocalNimMatch {
        repository: repository.to_string(),
        image_url: "nvcr.io/nim/nvidia/test".to_string(),
        tag: tag.to_string(),
        resolved_tag: None,
        file_path: file.to_string(),
        line_number: line,
        match_context: "ctx".to_string(),
    }
}

fn hosted(repository: &str, file: &str, line: usize, model: &str) -> HostedNimMatch {
    HostedNimMatch {
        repository: repository.to_string(),
        endpoint_url: None,
        model_name: Some(model.to_string()),
        file_path: file.to_string(),
        line_number: line,
        match_context: "ctx".to_string(),
        function_id: None,
        status: None,
        container_image: None,
    }
}

#[test]
fn classification_goes_by_the_path_alone() {
    assert_eq!(determine_source_type(".github/workflows/deploy.yml"), SourceType::ActionsWorkflow);
    assert_eq!(determine_source_type(".github/actions/test.yml"), SourceType::SourceCode);
    assert_eq!(determine_source_type("src/main.py"), SourceType::SourceCode);
    assert_eq!(
        determine_source_type("repo\\.github\\workflows\\ci.yaml"),
        SourceType::ActionsWorkflow
    );
    assert_eq!(determine_source_type(".github/workflows/run.sh"), SourceType::SourceCode);
    assert_eq!(determine_source_type(".github/workflows/"), SourceType::SourceCode);
    assert_eq!(determine_source_type(""), SourceType::SourceCode);
    assert_eq!(determine_source_type(".GITHUB/WORKFLOWS/ci.yml"), SourceType::SourceCode);
}

#[test]
fn tagged_reference_keeps_its_tag_and_has_no_resolved_tag() {
    let p = patterns();
    let m = extract_local_nim(&p, "  image: nvcr.io/nim/meta/llama3:24.05-rc1  ", 7, "c.yaml", "r")
        .unwrap();
    assert_eq!(m.repository, "r");
    assert_eq!(m.file_path, "c.yaml");
    assert_eq!(m.line_number, 7);
    assert_eq!(m.image_url, "nvcr.io/nim/meta/llama3");
    assert_eq!(m.tag, "24.05-rc1");
    assert_eq!(m.resolved_tag, None);
    assert_eq!(m.match_context, "image: nvcr.io/nim/meta/llama3:24.05-rc1");
}

#[test]
fn untagged_reference_is_latest() {
    let p = patterns();
    let m = extract_local_nim(&p, "docker pull nvcr.io/nim/meta/llama3 && run", 2, "s.sh", "r")
        .unwrap();
    assert_eq!(m.image_url, "nvcr.io/nim/meta/llama3");
    assert_eq!(m.tag, "latest");
    assert_eq!(m.resolved_tag, None);
}

#[test]
fn the_tagged_pattern_wins_over_the_untagged_one() {
    let p = patterns();
    let m = extract_local_nim(&p, "nvcr.io/nim/a/first nvcr.io/nim/b/second:2.0", 1, "f", "r").unwrap();
    assert_eq!(m.image_url, "nvcr.io/nim/b/second");
    assert_eq!(m.tag, "2.0");
}

#[test]
fn only_the_first_reference_of_a_line_counts() {
    let p = patterns();
    let m = extract_local_nim(&p, "nvcr.io/nim/a/one:1 nvcr.io/nim/b/two:2", 1, "f", "r").unwrap();
    assert_eq!(m.image_url, "nvcr.io/nim/a/one");
    assert_eq!(m.tag, "1");
}

#[test]
fn lines_without_a_reference_give_nothing() {
    let p = patterns();
    assert!(extract_local_nim(&p, "FROM ubuntu:22.04", 1, "Dockerfile", "r").is_none());
    assert!(extract_local_nim(&p, "nvcr.io/nim/onlyorg", 1, "Dockerfile", "r").is_none());
    assert!(extract_local_nim(&p, "", 1, "Dockerfile", "r").is_none());
    assert!(extract_hosted_nim(&p, "print('hello')", 1, "a.py", "r").is_empty());
    assert!(extract_hosted_nim(&p, "model = \"gpt\"", 1, "a.py", "r").is_empty());
    assert!(extract_hosted_nim(&p, "https://api.nvidia.com/v1", 1, "a.py", "r").is_empty());
}

#[test]
fn model_line_has_no_endpoint() {
    let p = patterns();
    let found =
        extract_hosted_nim(&p, r#"model = "nvidia/llama-3.1-nemotron-70b-instruct""#, 4, "a.py", "r");
    assert_eq!(found.len(), 1);
    assert_eq!(found[0].model_name.as_deref(), Some("nvidia/llama-3.1-nemotron-70b-instruct"));
    assert_eq!(found[0].endpoint_url, None);
    assert_eq!(found[0].line_number, 4);
    assert_eq!(found[0].file_path, "a.py");
    assert_eq!(found[0].repository, "r");
    assert_eq!(found[0].function_id, None);
    assert_eq!(found[0].status, None);
    assert_eq!(found[0].container_image, None);
    assert_eq!(found[0].match_context, r#"model = "nvidia/llama-3.1-nemotron-70b-instruct""#);
}

#[test]
fn endpoint_stops_at_quote_space_and_parenthesis() {
    let p = patterns();
    let a = extract_hosted_nim(&p, "get('https://integrate.api.nvidia.com/v1') now", 1, "a", "r");
    assert_eq!(a[0].endpoint_url.as_deref(), Some("https://integrate.api.nvidia.com/v1"));
    let b = extract_hosted_nim(&p, "url=https://build.api.nvidia.com/x y", 1, "a", "r");
    assert_eq!(b[0].endpoint_url.as_deref(), Some("https://build.api.nvidia.com/x"));
    let c = extract_hosted_nim(&p, "f(https://ai.api.nvidia.com/v1)", 1, "a", "r");
    assert_eq!(c[0].endpoint_url.as_deref(), Some("https://ai.api.nvidia.com/v1"));
    assert_eq!(c[0].model_name, None);
}

#[test]
fn the_rules_for_a_model_are_tried_in_their_order() {
    let p = patterns();
    let both = r#"NVIDIARerank(model="rerank-qa") and model: 'meta/first'"#;
    let found = extract_hosted_nim(&p, both, 1, "a.py", "r");
    assert_eq!(found[0].model_name.as_deref(), Some("meta/first"));

    let embed = extract_hosted_nim(&p, r#"e = NVIDIAEmbeddings(truncate="END", model='nv-embed')"#, 1, "a", "r");
    assert_eq!(embed[0].model_name.as_deref(), Some("nv-embed"));

    let rerank = extract_hosted_nim(&p, r#"r = NVIDIARerank (model="rerank-qa")"#, 1, "a", "r");
    assert_eq!(rerank[0].model_name.as_deref(), Some("rerank-qa"));

    let chat_first = r#"ChatNVIDIA(model="chat-m"); NVIDIAEmbeddings(model="embed-m")"#;
    let found = extract_hosted_nim(&p, chat_first, 1, "a", "r");
    assert_eq!(found[0].model_name.as_deref(), Some("chat-m"));
}

#[test]
fn an_explicit_model_wins_over_the_path_of_the_endpoint() {
    let p = patterns();
    let line = r#"call("https://ai.api.nvidia.com/v1/cv/baidu/paddleocr", model="nvidia/other")"#;
    let found = extract_hosted_nim(&p, line, 1, "a.py", "r");
    assert_eq!(found.len(), 1);
    assert_eq!(
        found[0].endpoint_url.as_deref(),
        Some("https://ai.api.nvidia.com/v1/cv/baidu/paddleocr")
    );
    assert_eq!(found[0].model_name.as_deref(), Some("nvidia/other"));
}

#[test]
fn the_path_of_an_endpoint_names_the_model() {
    let p = patterns();
    let found =
        extract_hosted_nim(&p, "url: https://ai.api.nvidia.com/v1/cv/baidu/paddleocr", 1, "a", "r");
    assert_eq!(found[0].model_name.as_deref(), Some("baidu/paddleocr"));
}

#[test]
fn model_from_url() {
    assert_eq!(
        extract_model_from_url("https://ai.api.nvidia.com/v1/cv/baidu/paddleocr").as_deref(),
        Some("baidu/paddleocr")
    );
    assert_eq!(
        extract_model_from_url("https://ai.api.nvidia.com/v1/cv/nvidia/nemoretriever-page-elements-v2")
            .as_deref(),
        Some("nvidia/nemoretriever-page-elements-v2")
    );
    assert_eq!(
        extract_model_from_url("http://ai.api.nvidia.com/v1/cv/nvidia/x").as_deref(),
        Some("nvidia/x")
    );
    assert_eq!(extract_model_from_url("https://integrate.api.nvidia.com/v1"), None);
    assert_eq!(extract_model_from_url("https://integrate.api.nvidia.com"), None);
    assert_eq!(extract_model_from_url("https://integrate.api.nvidia.com/"), None);
    assert_eq!(extract_model_from_url("https://ai.api.nvidia.com/v1/chat/completions"), None);
    assert_eq!(extract_model_from_url("https://ai.api.nvidia.com/v1/a/b/embeddings"), None);
    assert_eq!(extract_model_from_url("https://ai.api.nvidia.com/v1/a/b/c/completions"), None);
    assert_eq!(
        extract_model_from_url("https://ai.api.nvidia.com/v1/baidu/paddleocr").as_deref(),
        Some("baidu/paddleocr")
    );
    assert_eq!(
        extract_model_from_url("https://ai.api.nvidia.com/org/model").as_deref(),
        Some("org/model")
    );
    assert_eq!(extract_model_from_url("https://ai.api.nvidia.com/v1/model"), None);
    assert_eq!(extract_model_from_url("https://ai.api.nvidia.com/model"), None);
    assert_eq!(extract_model_from_url("https://ai.api.nvidia.com/chat/model"), None);
    assert_eq!(extract_model_from_url("https://ai.api.nvidia.com/embeddings/model"), None);
    assert_eq!(extract_model_from_url("https://ai.api.nvidia.com/a/b/v1/model"), None);
    assert_eq!(extract_model_from_url("https://ai.api.nvidia.com/a/b/chat/model"), None);
    assert_eq!(extract_model_from_url("https://ai.api.nvidia.com/a/b/embeddings/model"), None);
    assert_eq!(extract_model_from_url("https://ai.api.nvidia.com/a/b/org/"), None);
    assert_eq!(extract_model_from_url("https://ai.api.nvidia.com/a/b//model"), None);
    assert_eq!(extract_model_from_url("ftp://ai.api.nvidia.com/v1/cv/baidu/paddleocr"), None);
    assert_eq!(extract_model_from_url(""), None);
}

#[test]
fn which_names_are_scanned() {
    assert!(should_scan_name("main.py", Some("py")));
    assert!(should_scan_name("MAIN.PY", Some("PY")));
    assert!(should_scan_name("Dockerfile", None));
    assert!(should_scan_name("DOCKERFILE.prod", Some("prod")));
    assert!(should_scan_name("dockerfile-dev", None));
    assert!(should_scan_name("app.Dockerfile", Some("Dockerfile")));
    assert!(!should_scan_name("my-dockerfile", None));
    assert!(!should_scan_name("README", None));
    assert!(!should_scan_name("README.md", Some("md")));
    for ext in [
        "py", "yaml", "yml", "sh", "bash", "js", "ts", "jsx", "tsx", "dockerfile", "env", "json",
        "toml", "cfg", "ini", "conf",
    ] {
        assert!(should_scan_name("x", Some(ext)));
    }
    for ext in ["rs", "png", "csv", "txt", "lock", "pyc", ""] {
        assert!(!should_scan_name("x", Some(ext)));
    }
}

#[test]
fn which_files_are_scanned() {
    assert!(should_scan_file("a/b/config.TOML"));
    assert!(should_scan_file("prod.env"));
    assert!(!should_scan_file(".env"));
    assert!(!should_scan_file("a/b/notes"));
    assert!(!should_scan_file(""));
}

#[test]
fn skipped_directories_are_whole_components() {
    for name in [
        ".git", "node_modules", "vendor", "__pycache__", ".venv", "venv", "target", "build",
        "dist", ".tox", ".pytest_cache", ".mypy_cache", "eggs", ".eggs",
    ] {
        assert!(is_skipped_component(name));
    }
    for name in [".github", "src", "builder", "my_vendor", "Target", "", "git"] {
        assert!(!is_skipped_component(name));
    }
    let parts = |p: &[&str]| p.iter().map(|s| s.to_string()).collect::<Vec<String>>();
    assert!(is_excluded_path(&parts(&["repo", "node_modules", "pkg", "index.js"])));
    assert!(is_excluded_path(&parts(&["repo", ".git", "config"])));
    assert!(!is_excluded_path(&parts(&["repo", ".github", "workflows", "ci.yml"])));
    assert!(!is_excluded_path(&parts(&["repo", "rebuild", "distribution", "a.py"])));
    assert!(is_excluded_path(&parts(&["a", "b", "c", "dist"])));
    assert!(!is_excluded_path(&parts(&[])));
}

#[test]
fn container_line_in_a_dockerfile() {
    let (local, hosted) =
        scan_content(&patterns(), "FROM nvcr.io/nim/nvidia/nemo-retriever", "Dockerfile", "repo");
    assert_eq!(local.len(), 1);
    assert_eq!(local[0].image_url, "nvcr.io/nim/nvidia/nemo-retriever");
    assert_eq!(local[0].tag, "latest");
    assert_eq!(local[0].line_number, 1);
    assert_eq!(local[0].file_path, "Dockerfile");
    assert_eq!(local[0].repository, "repo");
    assert_eq!(local[0].resolved_tag, None);
    assert!(hosted.is_empty());
}

#[test]
fn lines_are_numbered_from_one() {
    let content = "# compose\r\nservices:\n  a:\n    image: nvcr.io/nim/meta/llama3:1.0\n\n    b: nvcr.io/nim/x/y\nmodel = \"meta/llama3\"\n";
    let (local, hosted) = scan_content(&patterns(), content, "docker-compose.txt", "r");
    assert_eq!(local.len(), 2);
    assert_eq!(local[0].line_number, 4);
    assert_eq!(local[0].tag, "1.0");
    assert_eq!(local[0].match_context, "image: nvcr.io/nim/meta/llama3:1.0");
    assert_eq!(local[1].line_number, 6);
    assert_eq!(local[1].tag, "latest");
    assert_eq!(hosted.len(), 1);
    assert_eq!(hosted[0].line_number, 7);
    assert_eq!(hosted[0].model_name.as_deref(), Some("meta/llama3"));
}

#[test]
fn empty_content_has_no_references() {
    let (local, hosted) = scan_content(&patterns(), "", "a.py", "r");
    assert!(local.is_empty());
    assert!(hosted.is_empty());
    let (local, hosted) = scan_content(&patterns(), "\n\n\n", "a.py", "r");
    assert!(local.is_empty());
    assert!(hosted.is_empty());
}

#[test]
fn a_line_can_hold_both_families() {
    let line = r#"run nvcr.io/nim/a/b:3 against https://ai.api.nvidia.com/v1 with model="a/b""#;
    let (local, hosted) = scan_content(&patterns(), line, "a.sh", "r");
    assert_eq!(local.len(), 1);
    assert_eq!(hosted.len(), 1);
    assert_eq!(hosted[0].endpoint_url.as_deref(), Some("https://ai.api.nvidia.com/v1"));
    assert_eq!(hosted[0].model_name.as_deref(), Some("a/b"));
}

#[test]
fn yaml_endpoint_takes_the_model_from_the_line_above() {
    let content = "llm:\n  model_name: meta/llama-3.1-8b-instruct\n  base_url: https://integrate.api.nvidia.com/v1\n  model: nvidia/below\n";
    let (_, hosted) = scan_content(&patterns(), content, "config.yaml", "r");
    assert_eq!(hosted.len(), 1);
    assert_eq!(hosted[0].line_number, 3);
    assert_eq!(hosted[0].endpoint_url.as_deref(), Some("https://integrate.api.nvidia.com/v1"));
    assert_eq!(hosted[0].model_name.as_deref(), Some("meta/llama-3.1-8b-instruct"));
}

#[test]
fn yaml_endpoint_takes_the_model_from_below_when_none_is_above() {
    let content = "llm:\n  base_url: https://integrate.api.nvidia.com/v1\n  temperature: 0\n  model: nvidia/below\n";
    let (_, hosted) = scan_content(&patterns(), content, "config.yml", "r");
    assert_eq!(hosted.len(), 1);
    assert_eq!(hosted[0].model_name.as_deref(), Some("nvidia/below"));
}

#[test]
fn only_yaml_files_look_around() {
    let content = "model_name: meta/llama-3.1-8b-instruct\nbase_url: https://integrate.api.nvidia.com/v1\n";
    let (_, hosted) = scan_content(&patterns(), content, "config.toml", "r");
    assert_eq!(hosted.len(), 1);
    assert_eq!(hosted[0].model_name, None);
}

fn lines_of(n: usize, models: &[(usize, &str)]) -> Vec<String> {
    let mut lines: Vec<String> = (0..n).map(|i| format!("key{}: value", i)).collect();
    for (i, m) in models {
        lines[*i] = format!("model: {}", m);
    }
    lines
}

#[test]
fn context_reaches_ten_lines_each_way() {
    let p = patterns();
    let at_back_edge = lines_of(40, &[(10, "org/back")]);
    assert_eq!(
        find_model_name_in_context(&p, &at_back_edge, 20, 10).as_deref(),
        Some("org/back")
    );
    let past_back_edge = lines_of(40, &[(9, "org/back")]);
    assert_eq!(find_model_name_in_context(&p, &past_back_edge, 20, 10), None);

    let at_forward_edge = lines_of(40, &[(30, "org/fwd")]);
    assert_eq!(
        find_model_name_in_context(&p, &at_forward_edge, 20, 10).as_deref(),
        Some("org/fwd")
    );
    let past_forward_edge = lines_of(40, &[(31, "org/fwd")]);
    assert_eq!(find_model_name_in_context(&p, &past_forward_edge, 20, 10), None);
}

#[test]
fn context_prefers_above_and_nearest() {
    let p = patterns();
    let lines = lines_of(40, &[(12, "org/far"), (18, "org/near"), (21, "org/below")]);
    assert_eq!(find_model_name_in_context(&p, &lines, 20, 10).as_deref(), Some("org/near"));
    let below = lines_of(40, &[(25, "org/far"), (22, "org/near")]);
    assert_eq!(find_model_name_in_context(&p, &below, 20, 10).as_deref(), Some("org/near"));
    let own_line = lines_of(40, &[(20, "org/self")]);
    assert_eq!(find_model_name_in_context(&p, &own_line, 20, 10), None);
}

#[test]
fn context_at_the_ends_of_a_file() {
    let p = patterns();
    let lines = lines_of(3, &[(0, "org/top"), (2, "org/bottom")]);
    assert_eq!(find_model_name_in_context(&p, &lines, 0, 10).as_deref(), Some("org/bottom"));
    assert_eq!(find_model_name_in_context(&p, &lines, 2, 10).as_deref(), Some("org/top"));
    assert_eq!(find_model_name_in_context(&p, &lines, 1, 0), None);
    assert_eq!(find_model_name_in_context(&p, &lines, 7, 10).as_deref(), Some("org/bottom"));
    assert_eq!(find_model_name_in_context(&p, &lines, 1, usize::MAX).as_deref(), Some("org/top"));
    assert_eq!(find_model_name_in_context(&p, &vec![], 0, 10), None);
}

#[test]
fn categorize_keeps_the_order_within_a_category() {
    let local = vec![
        local("r", "a.py", 1, "1"),
        local("r", ".github/workflows/x.yml", 2, "2"),
        local("r", "b.py", 3, "3"),
        local("r", ".github/workflows/y.yaml", 4, "4"),
    ];
    let hosted = vec![
        hosted("r", ".github/workflows/x.yml", 5, "m/1"),
        hosted("r", "c.py", 6, "m/2"),
    ];
    let (source_code, actions_workflow) = categorize_results(local, hosted);
    assert_eq!(source_code.local_nim.len(), 2);
    assert_eq!(source_code.local_nim[0].line_number, 1);
    assert_eq!(source_code.local_nim[1].line_number, 3);
    assert_eq!(actions_workflow.local_nim.len(), 2);
    assert_eq!(actions_workflow.local_nim[0].line_number, 2);
    assert_eq!(actions_workflow.local_nim[1].line_number, 4);
    assert_eq!(source_code.hosted_nim.len(), 1);
    assert_eq!(source_code.hosted_nim[0].line_number, 6);
    assert_eq!(actions_workflow.hosted_nim.len(), 1);
    assert_eq!(actions_workflow.hosted_nim[0].line_number, 5);
}

#[test]
fn deduplication_keeps_the_first_of_each_place() {
    let mut findings = NimFindings {
        local_nim: vec![
            local("r", "a", 1, "first"),
            local("r", "a", 2, "other-line"),
            local("r", "a", 1, "second"),
            local("q", "a", 1, "other-repo"),
            local("r", "b", 1, "other-file"),
            local("r", "a", 2, "again"),
        ],
        hosted_nim: vec![
            hosted("r", "a", 1, "m/first"),
            hosted("r", "a", 1, "m/second"),
            hosted("r", "a", 3, "m/third"),
        ],
    };
    deduplicate_results(&mut findings);
    let tags: Vec<&str> = findings.local_nim.iter().map(|m| m.tag.as_str()).collect();
    assert_eq!(tags, vec!["first", "other-line", "other-repo", "other-file"]);
    let models: Vec<&str> =
        findings.hosted_nim.iter().map(|m| m.model_name.as_deref().unwrap()).collect();
    assert_eq!(models, vec!["m/first", "m/third"]);
}

#[test]
fn deduplication_twice_is_deduplication_once() {
    let mut findings = NimFindings {
        local_nim: vec![
            local("r", "a", 1, "x"),
            local("r", "a", 1, "y"),
            local("r", "b", 1, "z"),
            local("r", "a", 1, "w"),
        ],
        hosted_nim: vec![hosted("r", "a", 1, "m/1"), hosted("r", "a", 1, "m/2")],
    };
    deduplicate_results(&mut findings);
    let once: Vec<String> = findings.local_nim.iter().map(|m| m.tag.clone()).collect();
    let once_hosted = findings.hosted_nim.len();
    deduplicate_results(&mut findings);
    let twice: Vec<String> = findings.local_nim.iter().map(|m| m.tag.clone()).collect();
    assert_eq!(once, twice);
    assert_eq!(once, vec!["x", "z"]);
    assert_eq!(findings.hosted_nim.len(), once_hosted);
    assert_eq!(once_hosted, 1);

    let mut empty = NimFindings::new();
    deduplicate_results(&mut empty);
    assert!(empty.is_empty());
}

#[test]
fn families_are_deduplicated_apart() {
    let mut findings = NimFindings {
        local_nim: vec![local("r", "a", 1, "x")],
        hosted_nim: vec![hosted("r", "a", 1, "m/1")],
    };
    deduplicate_results(&mut findings);
    assert_eq!(findings.local_nim.len(), 1);
    assert_eq!(findings.hosted_nim.len(), 1);
}

#[test]
fn candidates_are_scanned_files_outside_skipped_directories() {
    let parts = |p: &[&str]| p.iter().map(|s| s.to_string()).collect::<Vec<String>>();
    assert!(is_scan_candidate(&parts(&["repo", "src", "main.py"]), "repo/src/main.py"));
    assert!(is_scan_candidate(
        &parts(&["repo", ".github", "workflows", "ci.yml"]),
        "repo/.github/workflows/ci.yml"
    ));
    assert!(!is_scan_candidate(
        &parts(&["repo", "node_modules", "x", "index.js"]),
        "repo/node_modules/x/index.js"
    ));
    assert!(!is_scan_candidate(&parts(&["repo", ".git", "config.toml"]), "repo/.git/config.toml"));
    assert!(!is_scan_candidate(&parts(&["repo", "src", "logo.png"]), "repo/src/logo.png"));
}

#[test]
fn scans_are_merged_file_after_file() {
    let files = vec![
        (vec![local("r", "a", 1, "a1"), local("r", "a", 2, "a2")], vec![hosted("r", "a", 3, "m/a")]),
        (vec![], vec![]),
        (vec![local("r", "b", 1, "b1")], vec![hosted("r", "b", 2, "m/b1"), hosted("r", "b", 3, "m/b2")]),
    ];
    let (all_local, all_hosted) = merge_scans(files);
    let tags: Vec<&str> = all_local.iter().map(|m| m.tag.as_str()).collect();
    assert_eq!(tags, vec!["a1", "a2", "b1"]);
    let models: Vec<&str> = all_hosted.iter().map(|m| m.model_name.as_deref().unwrap()).collect();
    assert_eq!(models, vec!["m/a", "m/b1", "m/b2"]);
    let (no_local, no_hosted) = merge_scans(vec![]);
    assert!(no_local.is_empty());
    assert!(no_hosted.is_empty());
}

#[test]
fn a_lone_carriage_return_ends_no_line() {
    let content = "a\rb\nrun nvcr.io/nim/x/y\r\n\r\nmodel = \"m/n\"";
    let (local, hosted) = scan_content(&patterns(), content, "notes.conf", "r");
    assert_eq!(local.len(), 1);
    assert_eq!(local[0].line_number, 2);
    assert_eq!(local[0].match_context, "run nvcr.io/nim/x/y");
    assert_eq!(hosted.len(), 1);
    assert_eq!(hosted[0].line_number, 4);
}

#[test]
fn context_is_trimmed_of_all_white_space() {
    let line = "\u{a0}\t image: nvcr.io/nim/a/b:1 \u{2003}";
    let m = extract_local_nim(&patterns(), line, 1, "f", "r").unwrap();
    assert_eq!(m.match_context, "image: nvcr.io/nim/a/b:1");
}

#[test]
fn a_short_path_names_a_model_too() {
    let p = patterns();
    let found =
        extract_hosted_nim(&p, "url: https://ai.api.nvidia.com/v1/baidu/paddleocr", 1, "a", "r");
    assert_eq!(found.len(), 1);
    assert_eq!(found[0].model_name.as_deref(), Some("baidu/paddleocr"));
}

#[test]
fn the_extension_follows_the_last_dot() {
    assert_eq!(extension_of("main.py").as_deref(), Some("py"));
    assert_eq!(extension_of("archive.tar.gz").as_deref(), Some("gz"));
    assert_eq!(extension_of("Dockerfile"), None);
    assert_eq!(extension_of(""), None);
    assert_eq!(extension_of(".env"), None);
    assert_eq!(extension_of(".env.local").as_deref(), Some("local"));
    assert_eq!(extension_of("..a").as_deref(), Some("a"));
    assert_eq!(extension_of("name.").as_deref(), Some(""));
    assert_eq!(extension_of("a.b.C").as_deref(), Some("C"));
}

#[test]
fn the_extension_is_the_one_the_platform_reads() {
    for name in [
        "main.py", "archive.tar.gz", "Dockerfile", ".env", ".env.local", "..a", "name.", "a..b",
        "x.", ".x.", "deploy.Dockerfile", "...",
    ] {
        let by_platform = std::path::Path::new(name).extension().map(|e| e.to_str().unwrap());
        assert_eq!(extension_of(name).as_deref(), by_platform, "{}", name);
    }
}

#[test]
fn a_plain_path_is_judged_by_its_last_name() {
    assert!(should_scan_file("main.py"));
    assert!(should_scan_file("a/b/c/main.PY"));
    assert!(should_scan_file("a/dockerfile.d/values.yaml"));
    assert!(should_scan_file("a/b/DOCKERFILE"));
    assert!(should_scan_file("docker/app.Dockerfile"));
    assert!(!should_scan_file("main.py/readme"));
    assert!(!should_scan_file("dockerfile/readme.md"));
    assert!(!should_scan_file("a.json/b.yaml/c"));
    assert!(!should_scan_file("a/b/.yaml"));
    assert!(should_scan_file("a/b/.hidden.yaml"));
    assert!(!should_scan_file("a/b/name."));
}
