use scaffolder::guard::check_target;
use scaffolder::guard::DirProbe;
use scaffolder::job::Language;
use scaffolder::job::TemplateKind;
use scaffolder::scaffold::parse_language;
use scaffolder::scaffold::parse_template_kind;
use scaffolder::scaffold::ScaffoldError;
use scaffolder::versions::order_versions;
use scaffolder::versions::parse_version_output;
use scaffolder::versions::VersionQueryError;
use scaffolder::versions::VERSION_QUERY_TIMEOUT_SECS;

#[test]
fn nonempty_target_is_always_a_conflict() {
    let r = check_target(DirProbe::NonEmpty, "demo", "/work/demo");
    let msg = r.unwrap_err();
    assert!(msg.contains("\"demo\""));
    assert!(msg.contains("/work/demo"));
    assert_eq!(
        msg,
        "target folder \"demo\" is not empty (path: /work/demo); choose another name or an empty directory."
    );
}

#[test]
fn inaccessible_target_is_a_conflict_too() {
    let r = check_target(DirProbe::Inaccessible, "demo", "/work/demo");
    let msg = r.unwrap_err();
    assert_eq!(
        msg,
        "target folder \"demo\" already exists (path: /work/demo); choose another name or an empty directory."
    );
}

#[test]
fn absent_or_empty_target_is_accepted() {
    assert!(check_target(DirProbe::Absent, "demo", "/work/demo").is_ok());
    assert!(check_target(DirProbe::EmptyDir, "demo", "/work/demo").is_ok());
}

#[test]
fn version_list_is_reversed_and_capped_at_100() {
    let raw: Vec<String> = (0..150).map(|i| format!("1.0.{}", i)).collect();
    let ordered = order_versions(&raw);
    assert_eq!(ordered.len(), 100);
    assert_eq!(ordered[0], "1.0.149");
    assert_eq!(ordered[1], "1.0.148");
    assert_eq!(ordered[99], "1.0.50");
}

#[test]
fn short_version_list_is_fully_reversed() {
    let raw = vec!["1.0.0".to_string(), "1.1.0".to_string(), "2.0.0".to_string()];
    let ordered = order_versions(&raw);
    assert_eq!(ordered, vec!["2.0.0", "1.1.0", "1.0.0"]);
}

#[test]
fn version_output_parses_a_json_string_array() {
    let out = parse_version_output("[\"1.0.0\",\"1.1.0\",\"2.0.0\"]").unwrap();
    assert_eq!(out, vec!["2.0.0", "1.1.0", "1.0.0"]);
}

#[test]
fn version_output_rejects_other_json() {
    assert!(parse_version_output("{\"not\":\"an array\"}").is_none());
    assert!(parse_version_output("[1,2,3]").is_none());
    assert!(parse_version_output("garbage").is_none());
}

#[test]
fn version_query_error_messages_are_distinct() {
    assert_eq!(VersionQueryError::ToolNotFound.message(), "pnpm not found");
    assert_eq!(VersionQueryError::Timeout.message(), "npm version query timed out (8s)");
    assert_eq!(
        VersionQueryError::WorkerFailed("gone".to_string()).message(),
        "failed to run pnpm: gone"
    );
    assert_eq!(
        VersionQueryError::QueryFailed("404".to_string()).message(),
        "version query failed: 404"
    );
    assert_eq!(VERSION_QUERY_TIMEOUT_SECS, 8);
}

#[test]
fn template_kind_parses_both_known_selectors() {
    assert!(matches!(parse_template_kind("vue3"), Ok(TemplateKind::V3)));
    assert!(matches!(parse_template_kind("vue2"), Ok(TemplateKind::V2)));
    assert!(matches!(
        parse_template_kind("vue9"),
        Err(ScaffoldError::UnsupportedTemplate)
    ));
}

#[test]
fn language_selector_defaults_to_plain() {
    assert!(matches!(parse_language("ts"), Language::Ts));
    assert!(matches!(parse_language("js"), Language::Js));
    assert!(matches!(parse_language("anything"), Language::Js));
}
