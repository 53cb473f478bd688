//! Directory guard: decides whether a target project directory may be
//! used. The probe of the file system happens at the caller's edge; the
//! decision and the conflict message are verified here.

use vstd::prelude::*;

use crate::text::has_sub;
use crate::text::lemma_has_sub_prefix;
use crate::text::lemma_has_sub_suffix;
use crate::text::occurs_at;

verus! {

/// What a probe of the target directory found.
#[derive(Clone, Copy, PartialEq, Eq, Structural, Debug)]
pub enum DirProbe {
    /// The directory does not exist.
    Absent,
    /// The directory exists and holds no entry.
    EmptyDir,
    /// The directory exists and holds at least one entry.
    NonEmpty,
    /// The directory exists but could not be enumerated; treated
    /// conservatively as not overwritable.
    Inaccessible,
}

/// The conflict message for a non-empty target directory.
pub open spec fn nonempty_conflict_message(name: Seq<char>, path: Seq<char>) -> Seq<char> {
    "target folder \""@ + name + "\" is not empty (path: "@ + path
        + "); choose another name or an empty directory."@
}

/// The conflict message for a target directory that cannot be read.
pub open spec fn inaccessible_conflict_message(name: Seq<char>, path: Seq<char>) -> Seq<char> {
    "target folder \""@ + name + "\" already exists (path: "@ + path
        + "); choose another name or an empty directory."@
}

/// Decides whether the target directory may be used. An absent or empty
/// directory is acceptable; a non-empty or unreadable one is a
/// conflict, never overwritten.
pub fn check_target(probe: DirProbe, name: &str, path: &str) -> (r: Result<(), String>)
    ensures
        r is Ok <==> (probe == DirProbe::Absent || probe == DirProbe::EmptyDir),
        probe == DirProbe::NonEmpty ==> r is Err && r.unwrap_err()@ == nonempty_conflict_message(
            name@,
            path@,
        ),
        probe == DirProbe::Inaccessible ==> r is Err && r.unwrap_err()@
            == inaccessible_conflict_message(name@, path@),
{
    match probe {
        DirProbe::Absent => Ok(()),
        DirProbe::EmptyDir => Ok(()),
        DirProbe::NonEmpty => {
            let mut m = String::from_str("target folder \"");
            m.append(name);
            m.append("\" is not empty (path: ");
            m.append(path);
            m.append("); choose another name or an empty directory.");
            Err(m)
        },
        DirProbe::Inaccessible => {
            let mut m = String::from_str("target folder \"");
            m.append(name);
            m.append("\" already exists (path: ");
            m.append(path);
            m.append("); choose another name or an empty directory.");
            Err(m)
        },
    }
}

/// Both conflict messages name the project and the offending path.
pub proof fn lemma_conflict_message_names_target(name: Seq<char>, path: Seq<char>)
    ensures
        has_sub(nonempty_conflict_message(name, path), name),
        has_sub(nonempty_conflict_message(name, path), path),
        has_sub(inaccessible_conflict_message(name, path), name),
        has_sub(inaccessible_conflict_message(name, path), path),
{
    assert(name.subrange(0, name.len() as int) =~= name);
    assert(path.subrange(0, path.len() as int) =~= path);
    assert(occurs_at(name, name, 0));
    assert(occurs_at(path, path, 0));
    let p1 = "target folder \""@;
    let q1 = "\" is not empty (path: "@;
    let q2 = "\" already exists (path: "@;
    let tail = "); choose another name or an empty directory."@;
    lemma_has_sub_suffix(p1, name, name);
    lemma_has_sub_prefix(p1 + name, q1, name);
    lemma_has_sub_prefix(p1 + name + q1, path, name);
    lemma_has_sub_prefix(p1 + name + q1 + path, tail, name);
    lemma_has_sub_suffix(p1 + name + q1, path, path);
    lemma_has_sub_prefix(p1 + name + q1 + path, tail, path);
    lemma_has_sub_prefix(p1 + name, q2, name);
    lemma_has_sub_prefix(p1 + name + q2, path, name);
    lemma_has_sub_prefix(p1 + name + q2 + path, tail, name);
    lemma_has_sub_suffix(p1 + name + q2, path, path);
    lemma_has_sub_prefix(p1 + name + q2 + path, tail, path);
}

} // verus!
