//! Scaffold runner planning: the exact non-interactive argument list
//! handed to the upstream project generator, and the parsing of the
//! template-kind and language selectors.

use vstd::prelude::*;

use crate::job::Language;
use crate::job::TemplateKind;
use crate::text::str_eq;

verus! {

/// The failure kinds of the scaffold pipeline.
pub enum ScaffoldError {
    /// No usable package-manager binary was found.
    ToolNotFound,
    /// The requested template kind is not one the pipeline knows.
    UnsupportedTemplate,
    /// The target directory is unusable; carries the conflict message.
    DirectoryConflict(String),
    /// The upstream generator exited unsuccessfully; carries its output.
    GenerationFailed(String),
    /// The base dependency installation failed.
    InstallFailed,
    /// Adding one package failed; carries that package's install text.
    DependencyAddFailed(String),
    /// An external query did not answer within its time bound.
    Timeout,
    /// An input/output step failed; carries a description.
    IoFailure(String),
}

/// The inline preset forcing the older-generation minimal template.
pub open spec fn v2_inline_preset() -> Seq<char> {
    "{\"plugins\":{\"@vue/cli-plugin-babel\":{}},\"vueVersion\":\"2\"}"@
}

/// The generator argument list for a job. The newer generation runs the
/// dedicated creator with explicit feature flags; the older one runs
/// the classic CLI with an inline preset. Both are forced
/// non-interactive (flags here, plus an environment marker for the
/// newer generation, reported by `GeneratorPlan::non_interactive_env`).
pub open spec fn spec_generator_args(
    kind: TemplateKind,
    lang: Language,
    name: Seq<char>,
    router: bool,
    pinia: bool,
) -> Seq<Seq<char>> {
    if kind == TemplateKind::V3 {
        seq!["dlx"@, "create-vue@latest"@, name] + (if lang == Language::Ts {
            seq!["--ts"@]
        } else {
            Seq::<Seq<char>>::empty()
        }) + (if router {
            seq!["--router"@]
        } else {
            Seq::<Seq<char>>::empty()
        }) + (if pinia {
            seq!["--pinia"@]
        } else {
            Seq::<Seq<char>>::empty()
        }) + seq!["--packageManager"@, "pnpm"@]
    } else {
        seq![
            "dlx"@,
            "@vue/cli@5"@,
            "create"@,
            name,
            "--inlinePreset"@,
            v2_inline_preset(),
            "--packageManager"@,
            "pnpm"@,
            "--no-git"@,
            "--force"@,
        ]
    }
}

/// A planned generator invocation: the argument list for the package
/// manager, and whether the non-interactive environment marker must be
/// set for the child process.
pub struct GeneratorPlan {
    pub args: Vec<String>,
    pub non_interactive_env: bool,
}

/// Builds the generator invocation for a job.
pub fn build_generator_plan(
    kind: TemplateKind,
    lang: Language,
    name: &str,
    router: bool,
    pinia: bool,
) -> (r: GeneratorPlan)
    ensures
        r.args.deep_view() == spec_generator_args(kind, lang, name@, router, pinia),
        r.non_interactive_env == (kind == TemplateKind::V3),
{
    let mut args: Vec<String> = Vec::new();
    match kind {
        TemplateKind::V3 => {
            args.push(String::from_str("dlx"));
            args.push(String::from_str("create-vue@latest"));
            args.push(String::from_str(name));
            if matches!(lang, Language::Ts) {
                args.push(String::from_str("--ts"));
            }
            if router {
                args.push(String::from_str("--router"));
            }
            if pinia {
                args.push(String::from_str("--pinia"));
            }
            args.push(String::from_str("--packageManager"));
            args.push(String::from_str("pnpm"));
            proof {
                assert(args.deep_view() =~= spec_generator_args(kind, lang, name@, router, pinia));
            }
            GeneratorPlan { args, non_interactive_env: true }
        },
        TemplateKind::V2 => {
            args.push(String::from_str("dlx"));
            args.push(String::from_str("@vue/cli@5"));
            args.push(String::from_str("create"));
            args.push(String::from_str(name));
            args.push(String::from_str("--inlinePreset"));
            args.push(
                String::from_str("{\"plugins\":{\"@vue/cli-plugin-babel\":{}},\"vueVersion\":\"2\"}"),
            );
            args.push(String::from_str("--packageManager"));
            args.push(String::from_str("pnpm"));
            args.push(String::from_str("--no-git"));
            args.push(String::from_str("--force"));
            proof {
                assert(args.deep_view() =~= spec_generator_args(kind, lang, name@, router, pinia));
            }
            GeneratorPlan { args, non_interactive_env: false }
        },
    }
}

/// Parses the template-kind selector; any text but the two known
/// selectors is an unsupported template.
pub fn parse_template_kind(s: &str) -> (r: Result<TemplateKind, ScaffoldError>)
    ensures
        s@ == "vue3"@ ==> r == Result::<TemplateKind, ScaffoldError>::Ok(TemplateKind::V3),
        s@ == "vue2"@ ==> r == Result::<TemplateKind, ScaffoldError>::Ok(TemplateKind::V2),
        s@ != "vue3"@ && s@ != "vue2"@ ==> r matches Err(ScaffoldError::UnsupportedTemplate),
{
    proof {
        reveal_strlit("vue3");
        reveal_strlit("vue2");
        assert("vue3"@[3] == '3');
        assert("vue2"@[3] == '2');
    }
    if str_eq(s, "vue3") {
        Ok(TemplateKind::V3)
    } else if str_eq(s, "vue2") {
        Ok(TemplateKind::V2)
    } else {
        Err(ScaffoldError::UnsupportedTemplate)
    }
}

/// Parses the language selector: the typed-language selector chooses
/// typed output, anything else the plain one.
pub fn parse_language(s: &str) -> (r: Language)
    ensures
        r == (if s@ == "ts"@ {
            Language::Ts
        } else {
            Language::Js
        }),
{
    if str_eq(s, "ts") {
        Language::Ts
    } else {
        Language::Js
    }
}

} // verus!
