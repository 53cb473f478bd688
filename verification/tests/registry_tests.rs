use scaffolder::job::Language;
use scaffolder::job::TemplateKind;
use scaffolder::registry::build_install_plan;
use scaffolder::registry::decode_entry;
use scaffolder::registry::default_registry;
use scaffolder::registry::match_feature;
use scaffolder::registry::resolve_package_specs;
use scaffolder::registry::RawFeatureEntry;

fn raw(key: Option<&str>) -> RawFeatureEntry {
    RawFeatureEntry {
        key: key.map(|s| s.to_string()),
        label: None,
        packages: None,
        package: None,
        dev: None,
        version_v2: None,
        version_v3: None,
        supports_v2: None,
        supports_v3: None,
        supports_ts: None,
        supports_js: None,
    }
}

#[test]
fn decode_rejects_entry_without_key() {
    assert!(decode_entry(raw(None)).is_none());
}

#[test]
fn decode_applies_defaults() {
    let d = decode_entry(raw(Some("thing"))).unwrap();
    assert_eq!(d.key, "thing");
    assert_eq!(d.label, "thing");
    assert!(d.package_names.is_empty());
    assert!(!d.is_dev_dependency);
    assert!(d.version_v2.is_none() && d.version_v3.is_none());
    assert!(d.supports_v2 && d.supports_v3 && d.supports_ts && d.supports_js);
}

#[test]
fn decode_keeps_only_string_package_entries() {
    let mut e = raw(Some("mix"));
    e.packages = Some(vec![Some("a".to_string()), None, Some("b".to_string())]);
    let d = decode_entry(e).unwrap();
    assert_eq!(d.package_names, vec!["a".to_string(), "b".to_string()]);
}

#[test]
fn decode_falls_back_to_singular_package_field() {
    let mut e = raw(Some("single"));
    e.package = Some("one-pkg".to_string());
    e.dev = Some(true);
    e.supports_js = Some(false);
    let d = decode_entry(e).unwrap();
    assert_eq!(d.package_names, vec!["one-pkg".to_string()]);
    assert!(d.is_dev_dependency);
    assert!(!d.supports_js);
    assert!(d.supports_ts);
}

#[test]
fn default_registry_holds_the_six_seed_features() {
    let reg = default_registry();
    let keys: Vec<&str> = reg.iter().map(|d| d.key.as_str()).collect();
    assert_eq!(keys, vec!["router", "pinia", "sass", "naive-ui", "vfonts", "xicons"]);
    assert_eq!(reg[1].package_names, vec!["pinia", "pinia-plugin-persistedstate"]);
    assert!(reg[2].is_dev_dependency);
    assert_eq!(reg[2].version_v3.as_deref(), Some("^1.94.0"));
    assert!(!reg[3].supports_v2 && !reg[3].supports_js);
    assert_eq!(reg[5].label, "@vicons/ionicons5");
}

#[test]
fn match_feature_filters_by_support_matrix() {
    let reg = default_registry();
    // naive-ui supports v3/ts but not v2 or js
    assert!(match_feature(&reg, "naive-ui", TemplateKind::V3, Language::Ts).is_some());
    assert!(match_feature(&reg, "naive-ui", TemplateKind::V2, Language::Ts).is_none());
    assert!(match_feature(&reg, "naive-ui", TemplateKind::V3, Language::Js).is_none());
}

#[test]
fn match_feature_first_match_wins() {
    let mut reg = default_registry();
    let mut dup = decode_entry(raw(Some("router"))).unwrap();
    dup.label = "shadowed".to_string();
    reg.push(dup);
    let d = match_feature(&reg, "router", TemplateKind::V3, Language::Ts).unwrap();
    assert_eq!(d.label, "vue-router");
}

#[test]
fn resolve_package_specs_pins_template_version() {
    let reg = default_registry();
    let router = &reg[0];
    let v3 = resolve_package_specs(router, TemplateKind::V3);
    assert_eq!(v3, vec!["vue-router@^4.6.3".to_string()]);
    let v2 = resolve_package_specs(router, TemplateKind::V2);
    assert_eq!(v2, vec!["vue-router@^3.x".to_string()]);
    // pinia has no pin for the older generation: bare names
    let pinia = &reg[1];
    let bare = resolve_package_specs(pinia, TemplateKind::V2);
    assert_eq!(bare, vec!["pinia".to_string(), "pinia-plugin-persistedstate".to_string()]);
}

#[test]
fn unknown_feature_key_contributes_no_package_add() {
    let reg = default_registry();
    let features = vec!["no-such-feature".to_string()];
    let plan = build_install_plan(&reg, &features, TemplateKind::V3, Language::Ts);
    assert!(plan.is_empty());
}

#[test]
fn install_plan_preserves_request_order_and_dev_flags() {
    let reg = default_registry();
    let features = vec!["sass".to_string(), "router".to_string(), "bogus".to_string()];
    let plan = build_install_plan(&reg, &features, TemplateKind::V3, Language::Ts);
    let texts: Vec<(&str, bool)> = plan.iter().map(|p| (p.pkg.as_str(), p.dev)).collect();
    assert_eq!(
        texts,
        vec![
            ("sass@^1.94.0", true),
            ("sass-loader@^1.94.0", true),
            ("vue-router@^4.6.3", false),
        ]
    );
}

#[test]
fn unsupported_feature_contributes_nothing() {
    let reg = default_registry();
    let features = vec!["naive-ui".to_string()];
    let plan = build_install_plan(&reg, &features, TemplateKind::V2, Language::Ts);
    assert!(plan.is_empty());
}
