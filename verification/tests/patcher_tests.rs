use scaffolder::job::Language;
use scaffolder::job::TemplateKind;
use scaffolder::patcher::choose_entry;
use scaffolder::patcher::entry_filename;
use scaffolder::patcher::patch_entry_content;
use scaffolder::patcher::patch_entry_for_features;
use scaffolder::patcher::plan_assets;
use scaffolder::patcher::EntryFile;

const V3_ENTRY: &str = "import { createApp } from 'vue'\nimport { createPinia } from 'pinia'\nimport App from './App.vue'\n\nconst app = createApp(App)\n\napp.use(createPinia())\n\napp.mount('#app')\n";

#[test]
fn sass_job_adds_single_stylesheet_import() {
    let features = vec!["sass".to_string()];
    let patched = patch_entry_for_features(V3_ENTRY, TemplateKind::V3, &features);
    let line = "import './styles/main.scss'";
    assert_eq!(patched.matches(line).count(), 1);
    assert!(patched.starts_with("import './styles/main.scss'\n"));
    // no font or persistence import was added
    assert!(!patched.contains("vfonts"));
    assert!(!patched.contains("pinia-plugin-persistedstate"));
}

#[test]
fn sass_job_plans_stylesheet_asset_and_no_store() {
    let assets = plan_assets(TemplateKind::V3, Language::Ts, true, false);
    assert_eq!(assets.len(), 1);
    assert_eq!(assets[0].subdir, "styles");
    assert_eq!(assets[0].filename, "main.scss");
    assert!(assets[0].contents.contains("$primary-color: #2f54eb;"));
}

#[test]
fn pinia_v3_rewrites_init_call_once_even_when_patched_twice() {
    let features = vec!["pinia".to_string()];
    let once = patch_entry_for_features(V3_ENTRY, TemplateKind::V3, &features);
    let twice = patch_entry_for_features(&once, TemplateKind::V3, &features);
    assert_eq!(once, twice);
    assert_eq!(once.matches("pinia.use(persisted)").count(), 1);
    assert!(once.contains("const pinia = createPinia();\npinia.use(persisted);\napp.use(pinia)"));
    assert!(!once.contains("app.use(createPinia())"));
    assert!(once.contains("import persisted from 'pinia-plugin-persistedstate'"));
}

#[test]
fn patching_is_idempotent_on_arbitrary_content() {
    let content = "const x = 1\napp.use(createPinia())\ncreatePinia()\n";
    let once = patch_entry_content(content, TemplateKind::V3, true, true, true);
    let twice = patch_entry_content(&once, TemplateKind::V3, true, true, true);
    assert_eq!(once, twice);
}

#[test]
fn patching_without_features_changes_nothing() {
    let patched = patch_entry_content(V3_ENTRY, TemplateKind::V3, false, false, false);
    assert_eq!(patched, V3_ENTRY);
}

#[test]
fn pinia_v2_gets_import_but_no_rewrite() {
    let features = vec!["pinia".to_string()];
    let patched = patch_entry_for_features(V3_ENTRY, TemplateKind::V2, &features);
    assert!(patched.contains("import persisted from 'pinia-plugin-persistedstate'"));
    assert!(patched.contains("app.use(createPinia())"));
    assert!(!patched.contains("pinia.use(persisted)"));
}

#[test]
fn loose_init_shape_gets_appended_registration() {
    let content = "import { createPinia } from 'pinia'\nconst pinia = createPinia()\napp.use(pinia)\n";
    let patched = patch_entry_content(content, TemplateKind::V3, false, false, true);
    assert_eq!(patched.matches("pinia.use(persisted)").count(), 1);
    let again = patch_entry_content(&patched, TemplateKind::V3, false, false, true);
    assert_eq!(patched, again);
}

#[test]
fn unrecognizable_content_passes_through_rewrite_unchanged() {
    let content = "console.log('nothing to see')\n";
    let patched = patch_entry_content(content, TemplateKind::V3, false, false, true);
    // only the import line is prepended; no registration is invented
    assert_eq!(
        patched,
        format!("import persisted from 'pinia-plugin-persistedstate'\n{}", content)
    );
}

#[test]
fn vfonts_adds_both_font_imports() {
    let patched = patch_entry_content(V3_ENTRY, TemplateKind::V3, false, true, false);
    assert!(patched.contains("import 'vfonts/Lato.css'"));
    assert!(patched.contains("import 'vfonts/FiraCode.css'"));
}

#[test]
fn store_asset_depends_on_language() {
    let ts = plan_assets(TemplateKind::V3, Language::Ts, false, true);
    assert_eq!(ts.len(), 1);
    assert_eq!(ts[0].subdir, "stores");
    assert_eq!(ts[0].filename, "counter.ts");
    assert!(ts[0].contents.contains("interface CounterState"));
    let js = plan_assets(TemplateKind::V3, Language::Js, false, true);
    assert_eq!(js[0].filename, "counter.js");
    assert!(!js[0].contents.contains("interface"));
    // no store under the older generation
    let v2 = plan_assets(TemplateKind::V2, Language::Ts, false, true);
    assert_eq!(v2.len(), 0);
}

#[test]
fn entry_choice_prefers_the_requested_language() {
    assert_eq!(choose_entry(Language::Ts, true, true), Some(EntryFile::MainTs));
    assert_eq!(choose_entry(Language::Ts, false, true), Some(EntryFile::MainJs));
    assert_eq!(choose_entry(Language::Js, true, true), Some(EntryFile::MainJs));
    assert_eq!(choose_entry(Language::Js, true, false), Some(EntryFile::MainTs));
    assert_eq!(choose_entry(Language::Ts, false, false), None);
    assert_eq!(entry_filename(EntryFile::MainTs), "main.ts");
    assert_eq!(entry_filename(EntryFile::MainJs), "main.js");
}
