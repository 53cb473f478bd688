use vstd::prelude::*;

verus! {

/// Which major generation of the upstream framework to scaffold.
#[derive(Clone, Copy, PartialEq, Eq, Structural, Debug)]
pub enum TemplateKind {
    V2,
    V3,
}

/// Source language the generated project uses.
#[derive(Clone, Copy, PartialEq, Eq, Structural, Debug)]
pub enum Language {
    Ts,
    Js,
}

/// Immutable description of one scaffold job.
pub struct JobSpec {
    pub template_kind: TemplateKind,
    pub language: Language,
    pub project_name: String,
    pub target_directory: String,
    pub persist_as_default: bool,
    pub requested_features: Vec<String>,
}

/// A project name is acceptable when it is non-empty and free of path separators.
pub open spec fn valid_project_name(name: Seq<char>) -> bool {
    &&& name.len() > 0
    &&& forall|i: int| 0 <= i < name.len() ==> name[i] != '/' && name[i] != '\\'
}

impl JobSpec {
    pub open spec fn wf(&self) -> bool {
        valid_project_name(self.project_name@)
    }
}

} // verus!
