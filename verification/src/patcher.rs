//! Source patcher: prepends missing import lines to a generated entry
//! file and rewrites the state-store initialization call to wire in the
//! persistence plugin. Both transforms are bounded heuristic text edits,
//! and their composition is proved idempotent.

use vstd::prelude::*;

use crate::job::Language;
use crate::job::TemplateKind;
use crate::text::char_free;
use crate::text::contains_sub;
use crate::text::has_sub;
use crate::text::lemma_char_free_concat;
use crate::text::lemma_first_index;
use crate::text::lemma_has_sub_not_char_free;
use crate::text::lemma_has_sub_prefix;
use crate::text::lemma_has_sub_suffix;
use crate::text::lemma_has_sub_within;
use crate::text::lemma_no_straddle;
use crate::text::occurs_at;
use crate::text::replace_first;
use crate::text::spec_replace_first;
use crate::text::str_eq;

verus! {

// The fixed texts the patcher searches for and inserts.
pub open spec fn nl() -> Seq<char> {
    "\n"@
}

pub open spec fn sass_import_line() -> Seq<char> {
    "import './styles/main.scss'"@
}

pub open spec fn font_lato_line() -> Seq<char> {
    "import 'vfonts/Lato.css'"@
}

pub open spec fn font_fira_line() -> Seq<char> {
    "import 'vfonts/FiraCode.css'"@
}

pub open spec fn persist_import_line() -> Seq<char> {
    "import persisted from 'pinia-plugin-persistedstate'"@
}

pub open spec fn persist_package() -> Seq<char> {
    "pinia-plugin-persistedstate"@
}

pub open spec fn plugin_use_marker() -> Seq<char> {
    "pinia.use(persisted)"@
}

pub open spec fn pinia_init_call() -> Seq<char> {
    "app.use(createPinia())"@
}

pub open spec fn pinia_init_extended() -> Seq<char> {
    "const pinia = createPinia();\npinia.use(persisted);\napp.use(pinia)"@
}

pub open spec fn create_call() -> Seq<char> {
    "createPinia()"@
}

pub open spec fn app_use_fragment() -> Seq<char> {
    "app.use("@
}

pub open spec fn const_pinia_decl() -> Seq<char> {
    "const pinia = createPinia()"@
}

pub open spec fn create_call_extended() -> Seq<char> {
    "const pinia = createPinia();\npinia.use(persisted);\npinia"@
}

pub open spec fn plugin_append_text() -> Seq<char> {
    "\n// pinia persisted plugin\npinia.use(persisted)\n"@
}

/// The header of import lines that `content` is still missing, given
/// which features were requested.
pub open spec fn header_for(content: Seq<char>, sass: bool, fonts: bool, pinia: bool) -> Seq<
    char,
> {
    let h1 = if sass && !has_sub(content, sass_import_line()) {
        sass_import_line() + nl()
    } else {
        Seq::<char>::empty()
    };
    let h2 = if fonts && !has_sub(content, font_lato_line()) {
        font_lato_line() + nl()
    } else {
        Seq::<char>::empty()
    };
    let h3 = if fonts && !has_sub(content, font_fira_line()) {
        font_fira_line() + nl()
    } else {
        Seq::<char>::empty()
    };
    let h4 = if pinia && !has_sub(content, persist_package()) {
        persist_import_line() + nl()
    } else {
        Seq::<char>::empty()
    };
    h1 + h2 + h3 + h4
}

/// Import prepending: the missing header lines, then the old content.
pub open spec fn spec_prepend_imports(
    content: Seq<char>,
    sass: bool,
    fonts: bool,
    pinia: bool,
) -> Seq<char> {
    header_for(content, sass, fonts, pinia) + content
}

/// Initialization rewrite: extends the plain store setup call with the
/// persistence plugin, appending a registration when only a looser call
/// shape is found, and leaving unrecognizable content unchanged.
pub open spec fn spec_rewrite_init(content: Seq<char>) -> Seq<char> {
    if has_sub(content, plugin_use_marker()) {
        content
    } else if has_sub(content, pinia_init_call()) {
        spec_replace_first(content, pinia_init_call(), pinia_init_extended())
    } else if has_sub(content, create_call()) && has_sub(content, app_use_fragment()) {
        if !has_sub(content, const_pinia_decl()) {
            spec_replace_first(content, create_call(), create_call_extended())
        } else {
            content + plugin_append_text()
        }
    } else {
        content
    }
}

/// One full entry-file patch: the store rewrite (only when the store
/// feature is requested under the newer template generation), then the
/// missing import lines.
pub open spec fn spec_patch_entry(
    content: Seq<char>,
    sass: bool,
    fonts: bool,
    pinia: bool,
    kind: TemplateKind,
) -> Seq<char> {
    let c1 = if pinia && kind == TemplateKind::V3 {
        spec_rewrite_init(content)
    } else {
        content
    };
    spec_prepend_imports(c1, sass, fonts, pinia)
}

/// Rewrites the store initialization call to register the persistence
/// plugin, once: content already holding the registration is unchanged.
pub fn rewrite_pinia_init(content: &str) -> (r: String)
    ensures
        r@ == spec_rewrite_init(content@),
{
    if contains_sub(content, "pinia.use(persisted)") {
        String::from_str(content)
    } else if contains_sub(content, "app.use(createPinia())") {
        replace_first(
            content,
            "app.use(createPinia())",
            "const pinia = createPinia();\npinia.use(persisted);\napp.use(pinia)",
        )
    } else if contains_sub(content, "createPinia()") && contains_sub(content, "app.use(") {
        if !contains_sub(content, "const pinia = createPinia()") {
            replace_first(
                content,
                "createPinia()",
                "const pinia = createPinia();\npinia.use(persisted);\npinia",
            )
        } else {
            let mut out = String::from_str(content);
            out.append("\n// pinia persisted plugin\npinia.use(persisted)\n");
            out
        }
    } else {
        String::from_str(content)
    }
}

/// Prepends the import lines that the requested features call for and
/// that `content` does not already hold.
pub fn prepend_missing_imports(content: &str, sass: bool, fonts: bool, pinia: bool) -> (r:
    String)
    ensures
        r@ == spec_prepend_imports(content@, sass, fonts, pinia),
{
    let mut out = String::new();
    if sass && !contains_sub(content, "import './styles/main.scss'") {
        out.append("import './styles/main.scss'");
        out.append("\n");
    }
    if fonts && !contains_sub(content, "import 'vfonts/Lato.css'") {
        out.append("import 'vfonts/Lato.css'");
        out.append("\n");
    }
    if fonts && !contains_sub(content, "import 'vfonts/FiraCode.css'") {
        out.append("import 'vfonts/FiraCode.css'");
        out.append("\n");
    }
    if pinia && !contains_sub(content, "pinia-plugin-persistedstate") {
        out.append("import persisted from 'pinia-plugin-persistedstate'");
        out.append("\n");
    }
    proof {
        assert(out@ =~= header_for(content@, sass, fonts, pinia));
    }
    out.append(content);
    out
}

/// One full entry-file patch over plain feature flags.
pub fn patch_entry_content(content: &str, kind: TemplateKind, sass: bool, fonts: bool, pinia:
    bool) -> (r: String)
    ensures
        r@ == spec_patch_entry(content@, sass, fonts, pinia, kind),
{
    let rewritten: String = if pinia && matches!(kind, TemplateKind::V3) {
        rewrite_pinia_init(content)
    } else {
        String::from_str(content)
    };
    prepend_missing_imports(rewritten.as_str(), sass, fonts, pinia)
}

// Concrete facts about the fixed texts, each settled by revealing the
// literals involved.
proof fn lemma_inserted_texts_carry_marker()
    ensures
        has_sub(pinia_init_extended(), plugin_use_marker()),
        has_sub(create_call_extended(), plugin_use_marker()),
        has_sub(plugin_append_text(), plugin_use_marker()),
        has_sub(persist_import_line(), persist_package()),
{
    reveal_strlit("const pinia = createPinia();\npinia.use(persisted);\napp.use(pinia)");
    reveal_strlit("const pinia = createPinia();\npinia.use(persisted);\npinia");
    reveal_strlit("\n// pinia persisted plugin\npinia.use(persisted)\n");
    reveal_strlit("pinia.use(persisted)");
    reveal_strlit("import persisted from 'pinia-plugin-persistedstate'");
    reveal_strlit("pinia-plugin-persistedstate");
    assert(pinia_init_extended().subrange(29, 49) =~= plugin_use_marker());
    assert(occurs_at(pinia_init_extended(), plugin_use_marker(), 29));
    assert(create_call_extended().subrange(29, 49) =~= plugin_use_marker());
    assert(occurs_at(create_call_extended(), plugin_use_marker(), 29));
    assert(plugin_append_text().subrange(27, 47) =~= plugin_use_marker());
    assert(occurs_at(plugin_append_text(), plugin_use_marker(), 27));
    assert(persist_import_line().subrange(23, 50) =~= persist_package());
    assert(occurs_at(persist_import_line(), persist_package(), 23));
}

proof fn lemma_shape_texts()
    ensures
        has_sub(pinia_init_call(), create_call()),
        has_sub(pinia_init_call(), app_use_fragment()),
        char_free(create_call(), '\n'),
        char_free(app_use_fragment(), '\n'),
        char_free(pinia_init_call(), '\n'),
        create_call().len() == 13,
        app_use_fragment().len() == 8,
        pinia_init_call().len() == 22,
        create_call()[11] == '(',
        app_use_fragment()[7] == '(',
        pinia_init_call()[3] == '.',
        pinia_init_call()[7] == '(',
{
    reveal_strlit("app.use(createPinia())");
    reveal_strlit("createPinia()");
    reveal_strlit("app.use(");
    assert(pinia_init_call().subrange(8, 21) =~= create_call());
    assert(occurs_at(pinia_init_call(), create_call(), 8));
    assert(pinia_init_call().subrange(0, 8) =~= app_use_fragment());
    assert(occurs_at(pinia_init_call(), app_use_fragment(), 0));
}

proof fn lemma_import_lines_paren_free()
    ensures
        char_free(sass_import_line(), '('),
        char_free(font_lato_line(), '('),
        char_free(font_fira_line(), '('),
        char_free(persist_import_line(), '('),
        char_free(nl(), '('),
        nl().len() == 1 && nl()[0] == '\n',
{
    reveal_strlit("import './styles/main.scss'");
    reveal_strlit("import 'vfonts/Lato.css'");
    reveal_strlit("import 'vfonts/FiraCode.css'");
    reveal_strlit("import persisted from 'pinia-plugin-persistedstate'");
    reveal_strlit("\n");
}

// The header holds no parenthesis and, unless empty, ends in a newline.
proof fn lemma_header_wf(content: Seq<char>, sass: bool, fonts: bool, pinia: bool)
    ensures
        char_free(header_for(content, sass, fonts, pinia), '('),
        header_for(content, sass, fonts, pinia).len() == 0 || header_for(
            content,
            sass,
            fonts,
            pinia,
        )[header_for(content, sass, fonts, pinia).len() - 1] == '\n',
{
    lemma_import_lines_paren_free();
    let h1 = if sass && !has_sub(content, sass_import_line()) {
        sass_import_line() + nl()
    } else {
        Seq::<char>::empty()
    };
    let h2 = if fonts && !has_sub(content, font_lato_line()) {
        font_lato_line() + nl()
    } else {
        Seq::<char>::empty()
    };
    let h3 = if fonts && !has_sub(content, font_fira_line()) {
        font_fira_line() + nl()
    } else {
        Seq::<char>::empty()
    };
    let h4 = if pinia && !has_sub(content, persist_package()) {
        persist_import_line() + nl()
    } else {
        Seq::<char>::empty()
    };
    lemma_char_free_concat(sass_import_line(), nl(), '(');
    lemma_char_free_concat(font_lato_line(), nl(), '(');
    lemma_char_free_concat(font_fira_line(), nl(), '(');
    lemma_char_free_concat(persist_import_line(), nl(), '(');
    lemma_char_free_concat(h1, h2, '(');
    lemma_char_free_concat(h1 + h2, h3, '(');
    lemma_char_free_concat(h1 + h2 + h3, h4, '(');
    let h = h1 + h2 + h3 + h4;
    assert(h == header_for(content, sass, fonts, pinia));
    // each block ends in a newline unless empty, so the whole does too
    if h.len() > 0 {
        if h4.len() > 0 {
            assert(h[h.len() - 1] == h4[h4.len() - 1]);
        } else if h3.len() > 0 {
            assert(h[h.len() - 1] == h3[h3.len() - 1]);
        } else if h2.len() > 0 {
            assert(h[h.len() - 1] == h2[h2.len() - 1]);
        } else {
            assert(h[h.len() - 1] == h1[h1.len() - 1]);
        }
    }
}

// After prepending, every requested import line (and the persistence
// package name) occurs in the result.
proof fn lemma_prepend_provides(content: Seq<char>, sass: bool, fonts: bool, pinia: bool)
    ensures
        sass ==> has_sub(spec_prepend_imports(content, sass, fonts, pinia), sass_import_line()),
        fonts ==> has_sub(spec_prepend_imports(content, sass, fonts, pinia), font_lato_line()),
        fonts ==> has_sub(spec_prepend_imports(content, sass, fonts, pinia), font_fira_line()),
        pinia ==> has_sub(spec_prepend_imports(content, sass, fonts, pinia), persist_package()),
{
    lemma_inserted_texts_carry_marker();
    let h1 = if sass && !has_sub(content, sass_import_line()) {
        sass_import_line() + nl()
    } else {
        Seq::<char>::empty()
    };
    let h2 = if fonts && !has_sub(content, font_lato_line()) {
        font_lato_line() + nl()
    } else {
        Seq::<char>::empty()
    };
    let h3 = if fonts && !has_sub(content, font_fira_line()) {
        font_fira_line() + nl()
    } else {
        Seq::<char>::empty()
    };
    let h4 = if pinia && !has_sub(content, persist_package()) {
        persist_import_line() + nl()
    } else {
        Seq::<char>::empty()
    };
    let h = h1 + h2 + h3 + h4;
    let r = h + content;
    assert(r == spec_prepend_imports(content, sass, fonts, pinia));
    if sass {
        if has_sub(content, sass_import_line()) {
            lemma_has_sub_suffix(h, content, sass_import_line());
        } else {
            assert(sass_import_line().subrange(0, sass_import_line().len() as int)
                =~= sass_import_line());
            assert(occurs_at(h1, sass_import_line(), 0)) by {
                assert((sass_import_line() + nl()).subrange(0, sass_import_line().len() as int)
                    =~= sass_import_line());
            }
            lemma_has_sub_prefix(h1, h2, sass_import_line());
            lemma_has_sub_prefix(h1 + h2, h3, sass_import_line());
            lemma_has_sub_prefix(h1 + h2 + h3, h4, sass_import_line());
            lemma_has_sub_prefix(h, content, sass_import_line());
        }
    }
    if fonts {
        if has_sub(content, font_lato_line()) {
            lemma_has_sub_suffix(h, content, font_lato_line());
        } else {
            assert(occurs_at(h2, font_lato_line(), 0)) by {
                assert((font_lato_line() + nl()).subrange(0, font_lato_line().len() as int)
                    =~= font_lato_line());
            }
            lemma_has_sub_suffix(h1, h2, font_lato_line());
            lemma_has_sub_prefix(h1 + h2, h3, font_lato_line());
            lemma_has_sub_prefix(h1 + h2 + h3, h4, font_lato_line());
            lemma_has_sub_prefix(h, content, font_lato_line());
        }
        if has_sub(content, font_fira_line()) {
            lemma_has_sub_suffix(h, content, font_fira_line());
        } else {
            assert(occurs_at(h3, font_fira_line(), 0)) by {
                assert((font_fira_line() + nl()).subrange(0, font_fira_line().len() as int)
                    =~= font_fira_line());
            }
            lemma_has_sub_suffix(h1 + h2, h3, font_fira_line());
            lemma_has_sub_prefix(h1 + h2 + h3, h4, font_fira_line());
            lemma_has_sub_prefix(h, content, font_fira_line());
        }
    }
    if pinia {
        if has_sub(content, persist_package()) {
            lemma_has_sub_suffix(h, content, persist_package());
        } else {
            assert(occurs_at(h4, persist_import_line(), 0)) by {
                assert((persist_import_line() + nl()).subrange(
                    0,
                    persist_import_line().len() as int,
                ) =~= persist_import_line());
            }
            lemma_has_sub_within(h4, persist_import_line(), persist_package());
            lemma_has_sub_suffix(h1 + h2 + h3, h4, persist_package());
            lemma_has_sub_prefix(h, content, persist_package());
        }
    }
}

// Whenever the rewrite recognizes a shape (or the registration is
// already there), its result holds the plugin registration marker.
proof fn lemma_rewrite_provides_marker(content: Seq<char>)
    requires
        has_sub(content, plugin_use_marker()) || has_sub(content, pinia_init_call()) || (has_sub(
            content,
            create_call(),
        ) && has_sub(content, app_use_fragment())),
    ensures
        has_sub(spec_rewrite_init(content), plugin_use_marker()),
{
    lemma_inserted_texts_carry_marker();
    if has_sub(content, plugin_use_marker()) {
    } else if has_sub(content, pinia_init_call()) {
        lemma_first_index(content, pinia_init_call());
        let i = crate::text::first_index(content, pinia_init_call());
        let pre = content.subrange(0, i);
        let suf = content.subrange(i + pinia_init_call().len() as int, content.len() as int);
        assert(spec_rewrite_init(content) == pre + pinia_init_extended() + suf);
        lemma_has_sub_suffix(pre, pinia_init_extended(), plugin_use_marker());
        lemma_has_sub_prefix(pre + pinia_init_extended(), suf, plugin_use_marker());
    } else if !has_sub(content, const_pinia_decl()) {
        lemma_first_index(content, create_call());
        let i = crate::text::first_index(content, create_call());
        let pre = content.subrange(0, i);
        let suf = content.subrange(i + create_call().len() as int, content.len() as int);
        assert(spec_rewrite_init(content) == pre + create_call_extended() + suf);
        lemma_has_sub_suffix(pre, create_call_extended(), plugin_use_marker());
        lemma_has_sub_prefix(pre + create_call_extended(), suf, plugin_use_marker());
    } else {
        lemma_has_sub_suffix(content, plugin_append_text(), plugin_use_marker());
    }
}

// A needle holding a parenthesis and no newline cannot appear in the
// prepended result unless it already appeared in the content.
proof fn lemma_header_blocks_needle(
    h: Seq<char>,
    c: Seq<char>,
    needle: Seq<char>,
    k: int,
)
    requires
        char_free(h, '('),
        h.len() == 0 || h[h.len() - 1] == '\n',
        char_free(needle, '\n'),
        0 <= k < needle.len(),
        needle[k] == '(',
        !has_sub(c, needle),
    ensures
        !has_sub(h + c, needle),
{
    if has_sub(h + c, needle) {
        lemma_no_straddle(h, c, needle);
        if has_sub(h, needle) {
            lemma_has_sub_not_char_free(h, needle, k);
        }
    }
}

/// Patching an entry file is idempotent: a second application returns
/// its input unchanged.
pub proof fn lemma_patch_entry_idempotent(
    content: Seq<char>,
    sass: bool,
    fonts: bool,
    pinia: bool,
    kind: TemplateKind,
)
    ensures
        spec_patch_entry(
            spec_patch_entry(content, sass, fonts, pinia, kind),
            sass,
            fonts,
            pinia,
            kind,
        ) == spec_patch_entry(content, sass, fonts, pinia, kind),
{
    let do_rw = pinia && kind == TemplateKind::V3;
    let c1 = if do_rw {
        spec_rewrite_init(content)
    } else {
        content
    };
    let h = header_for(c1, sass, fonts, pinia);
    let c2 = h + c1;
    assert(c2 == spec_patch_entry(content, sass, fonts, pinia, kind));
    // Step one: a second rewrite leaves c2 unchanged.
    let d1 = if do_rw {
        spec_rewrite_init(c2)
    } else {
        c2
    };
    if do_rw {
        if has_sub(content, plugin_use_marker()) || has_sub(content, pinia_init_call()) || (
        has_sub(content, create_call()) && has_sub(content, app_use_fragment())) {
            lemma_rewrite_provides_marker(content);
            lemma_has_sub_suffix(h, c1, plugin_use_marker());
            assert(d1 == c2);
        } else {
            // nothing was recognized, so c1 is content itself
            assert(c1 == content);
            if has_sub(c2, plugin_use_marker()) {
                assert(d1 == c2);
            } else {
                lemma_header_wf(c1, sass, fonts, pinia);
                lemma_shape_texts();
                lemma_header_blocks_needle(h, c1, pinia_init_call(), 7);
                if !has_sub(content, create_call()) {
                    lemma_header_blocks_needle(h, c1, create_call(), 11);
                    assert(d1 == c2);
                } else {
                    lemma_header_blocks_needle(h, c1, app_use_fragment(), 7);
                    assert(d1 == c2);
                }
            }
        }
    }
    // Step two: a second prepend adds nothing.
    lemma_prepend_provides(c1, sass, fonts, pinia);
    let h2 = header_for(c2, sass, fonts, pinia);
    assert(h2 =~= Seq::<char>::empty());
    assert(spec_patch_entry(c2, sass, fonts, pinia, kind) == h2 + d1);
    assert(h2 + d1 =~= c2);
}

/// Which entry file of the generated project to patch.
#[derive(Clone, Copy, PartialEq, Eq, Structural, Debug)]
pub enum EntryFile {
    MainTs,
    MainJs,
}

/// Picks the entry file: the language's own filename first, the
/// alternate language's as a fallback (generators sometimes ignore the
/// requested language), none when neither exists.
pub fn choose_entry(lang: Language, ts_exists: bool, js_exists: bool) -> (r: Option<EntryFile>)
    ensures
        lang == Language::Ts ==> r == (if ts_exists {
            Some(EntryFile::MainTs)
        } else if js_exists {
            Some(EntryFile::MainJs)
        } else {
            None::<EntryFile>
        }),
        lang == Language::Js ==> r == (if js_exists {
            Some(EntryFile::MainJs)
        } else if ts_exists {
            Some(EntryFile::MainTs)
        } else {
            None::<EntryFile>
        }),
{
    match lang {
        Language::Ts => {
            if ts_exists {
                Some(EntryFile::MainTs)
            } else if js_exists {
                Some(EntryFile::MainJs)
            } else {
                None
            }
        },
        Language::Js => {
            if js_exists {
                Some(EntryFile::MainJs)
            } else if ts_exists {
                Some(EntryFile::MainTs)
            } else {
                None
            }
        },
    }
}

/// The file name of an entry file.
pub fn entry_filename(e: EntryFile) -> (r: &'static str)
    ensures
        e == EntryFile::MainTs ==> r@ == "main.ts"@,
        e == EntryFile::MainJs ==> r@ == "main.js"@,
{
    match e {
        EntryFile::MainTs => "main.ts",
        EntryFile::MainJs => "main.js",
    }
}

/// The default stylesheet written for the stylesheet feature.
pub open spec fn scss_content() -> Seq<char> {
    "$primary-color: #2f54eb;\nbody { background: #fafafa; color: #1f1f1f; }\n.app-container { max-width: 1080px; margin: 0 auto; padding: 12px; }\n"@
}

/// The sample store module for typed projects.
pub open spec fn store_ts_content() -> Seq<char> {
    "import { defineStore } from 'pinia'\ninterface CounterState { count: number }\nexport const useCounterStore = defineStore('counter', {\n  state: (): CounterState => ({ count: 0 }),\n  actions: { increment() { this.count++ } },\n  persist: true,\n})\n"@
}

/// The sample store module for plain projects.
pub open spec fn store_js_content() -> Seq<char> {
    "import { defineStore } from 'pinia'\nexport const useCounterStore = defineStore('counter', {\n  state: () => ({ count: 0 }),\n  actions: { increment() { this.count++ } },\n  persist: true,\n})\n"@
}

/// One supplementary file to create under the project's source
/// directory -- only if it does not already exist; existing files are
/// never overwritten.
pub struct AssetFile {
    pub subdir: String,
    pub filename: String,
    pub contents: String,
}

/// Plans the supplementary asset files: a default stylesheet for the
/// stylesheet feature, and a sample store module for the store feature
/// under the newer template generation.
pub fn plan_assets(kind: TemplateKind, lang: Language, sass: bool, pinia: bool) -> (r: Vec<
    AssetFile,
>)
    ensures
        r@.len() == (if sass {
            1int
        } else {
            0
        }) + (if pinia && kind == TemplateKind::V3 {
            1int
        } else {
            0
        }),
        sass ==> r@[0].subdir@ == "styles"@ && r@[0].filename@ == "main.scss"@
            && r@[0].contents@ == scss_content(),
        pinia && kind == TemplateKind::V3 ==> {
            let i: int = if sass {
                1
            } else {
                0
            };
            &&& r@[i].subdir@ == "stores"@
            &&& r@[i].filename@ == (if lang == Language::Ts {
                "counter.ts"@
            } else {
                "counter.js"@
            })
            &&& r@[i].contents@ == (if lang == Language::Ts {
                store_ts_content()
            } else {
                store_js_content()
            })
        },
{
    let mut r: Vec<AssetFile> = Vec::new();
    if sass {
        r.push(
            AssetFile {
                subdir: String::from_str("styles"),
                filename: String::from_str("main.scss"),
                contents: String::from_str(
                    "$primary-color: #2f54eb;\nbody { background: #fafafa; color: #1f1f1f; }\n.app-container { max-width: 1080px; margin: 0 auto; padding: 12px; }\n",
                ),
            },
        );
    }
    if pinia && matches!(kind, TemplateKind::V3) {
        let filename = if matches!(lang, Language::Ts) {
            String::from_str("counter.ts")
        } else {
            String::from_str("counter.js")
        };
        let contents = if matches!(lang, Language::Ts) {
            String::from_str(
                "import { defineStore } from 'pinia'\ninterface CounterState { count: number }\nexport const useCounterStore = defineStore('counter', {\n  state: (): CounterState => ({ count: 0 }),\n  actions: { increment() { this.count++ } },\n  persist: true,\n})\n",
            )
        } else {
            String::from_str(
                "import { defineStore } from 'pinia'\nexport const useCounterStore = defineStore('counter', {\n  state: () => ({ count: 0 }),\n  actions: { increment() { this.count++ } },\n  persist: true,\n})\n",
            )
        };
        r.push(AssetFile { subdir: String::from_str("stores"), filename, contents });
    }
    r
}

/// A requested feature key is present in the job's feature list.
pub open spec fn feature_requested(feats: Seq<Seq<char>>, key: Seq<char>) -> bool {
    exists|i: int| 0 <= i < feats.len() && feats[i] == key
}

/// Scans the requested feature keys for one key.
pub fn has_feature(features: &Vec<String>, key: &str) -> (b: bool)
    ensures
        b == feature_requested(features.deep_view(), key@),
{
    let mut i: usize = 0;
    while i < features.len()
        invariant
            i <= features.len(),
            forall|k: int| 0 <= k < i ==> features.deep_view()[k] != key@,
        decreases features.len() - i,
    {
        if str_eq(features[i].as_str(), key) {
            proof {
                assert(features.deep_view()[i as int] == key@);
            }
            return true;
        }
        i += 1;
    }
    false
}

/// One full entry-file patch driven by the job's requested feature keys.
pub fn patch_entry_for_features(content: &str, kind: TemplateKind, features: &Vec<String>) -> (r:
    String)
    ensures
        r@ == spec_patch_entry(
            content@,
            feature_requested(features.deep_view(), "sass"@),
            feature_requested(features.deep_view(), "vfonts"@),
            feature_requested(features.deep_view(), "pinia"@),
            kind,
        ),
{
    let sass = has_feature(features, "sass");
    let fonts = has_feature(features, "vfonts");
    let pinia = has_feature(features, "pinia");
    patch_entry_content(content, kind, sass, fonts, pinia)
}

} // verus!
