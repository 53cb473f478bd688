//! The package-version query: parsing the package manager's JSON
//! answer and ordering it most-recent-first, capped at 100 entries.
//! The query itself (a child process under a timeout) runs at the
//! caller's edge; this module handles every possible answer text.

use vstd::prelude::*;

verus! {

/// The seconds an external version query may take before it is
/// reported as timed out.
pub const VERSION_QUERY_TIMEOUT_SECS: u64 = 8;

/// What parsing a version-query answer as a JSON array of strings
/// yields; a function of the answer text alone.
pub uninterp spec fn json_string_array(s: Seq<char>) -> Option<Seq<Seq<char>>>;

/// Relies on serde_json::from_str::<Vec<String>>: parses a JSON array
/// of strings, failing on any other document; the result depends on
/// the input text alone.
#[verifier::external_body]
fn parse_string_array(s: &str) -> (r: Option<Vec<String>>)
    ensures
        r is Some <==> json_string_array(s@) is Some,
        r is Some ==> r.unwrap().deep_view() == json_string_array(s@).unwrap(),
{
    serde_json::from_str::<Vec<String>>(s).ok()
}

/// The reported version list: the raw (oldest-first) list reversed,
/// truncated to at most 100 entries.
pub open spec fn spec_most_recent_first(vs: Seq<Seq<char>>) -> Seq<Seq<char>> {
    let n: int = if vs.len() <= 100 {
        vs.len() as int
    } else {
        100
    };
    Seq::new(n as nat, |i: int| vs[vs.len() - 1 - i])
}

/// A version query's answer is never longer than 100 entries and is
/// ordered most-recent-first: entry `i` is the raw list's entry
/// `len - 1 - i`.
pub proof fn lemma_version_query_bounds(vs: Seq<Seq<char>>)
    ensures
        spec_most_recent_first(vs).len() <= 100,
        forall|i: int|
            0 <= i < spec_most_recent_first(vs).len() ==> spec_most_recent_first(vs)[i] == vs[vs.len() - 1 - i],
{
}

/// Reverses a raw oldest-first version list and truncates it to the
/// 100 most recent entries.
pub fn order_versions(raw: &Vec<String>) -> (r: Vec<String>)
    ensures
        r.deep_view() == spec_most_recent_first(raw.deep_view()),
{
    let n = raw.len();
    let limit: usize = if n <= 100 {
        n
    } else {
        100
    };
    let mut out: Vec<String> = Vec::new();
    let mut j: usize = 0;
    while j < limit
        invariant
            j <= limit,
            limit <= n,
            n == raw@.len(),
            out@.len() == j,
            forall|k: int| 0 <= k < j ==> out.deep_view()[k] == raw.deep_view()[n - 1 - k],
        decreases limit - j,
    {
        let ghost before = out.deep_view();
        out.push(raw[n - 1 - j].clone());
        proof {
            assert(out.deep_view() =~= before.push(raw.deep_view()[n - 1 - j]));
        }
        j += 1;
    }
    proof {
        assert(out.deep_view() =~= spec_most_recent_first(raw.deep_view()));
    }
    out
}

/// Parses a version-query answer and orders it for reporting; `None`
/// exactly when the answer is not a JSON array of strings.
pub fn parse_version_output(s: &str) -> (r: Option<Vec<String>>)
    ensures
        r is Some <==> json_string_array(s@) is Some,
        r is Some ==> r.unwrap().deep_view() == spec_most_recent_first(
            json_string_array(s@).unwrap(),
        ),
{
    match parse_string_array(s) {
        Some(v) => Some(order_versions(&v)),
        None => None,
    }
}

/// The distinct failure kinds of the version query path.
pub enum VersionQueryError {
    /// No usable package-manager binary was found.
    ToolNotFound,
    /// The query did not answer within the time bound.
    Timeout,
    /// The background worker running the query failed; carries detail.
    WorkerFailed(String),
    /// The query process exited unsuccessfully; carries its error text.
    QueryFailed(String),
    /// The query's answer was not a JSON array of strings.
    BadOutput,
}

impl VersionQueryError {
    /// A human-readable description of the failure.
    pub fn message(&self) -> (r: String)
        ensures
            self matches VersionQueryError::ToolNotFound ==> r@ == "pnpm not found"@,
            self matches VersionQueryError::Timeout ==> r@
                == "npm version query timed out (8s)"@,
            self matches VersionQueryError::WorkerFailed(d) ==> r@ == "failed to run pnpm: "@
                + d@,
            self matches VersionQueryError::QueryFailed(d) ==> r@ == "version query failed: "@
                + d@,
            self matches VersionQueryError::BadOutput ==> r@
                == "version query returned unreadable output"@,
    {
        match self {
            VersionQueryError::ToolNotFound => String::from_str("pnpm not found"),
            VersionQueryError::Timeout => String::from_str("npm version query timed out (8s)"),
            VersionQueryError::WorkerFailed(d) => {
                let mut m = String::from_str("failed to run pnpm: ");
                m.append(d.as_str());
                m
            },
            VersionQueryError::QueryFailed(d) => {
                let mut m = String::from_str("version query failed: ");
                m.append(d.as_str());
                m
            },
            VersionQueryError::BadOutput => String::from_str(
                "version query returned unreadable output",
            ),
        }
    }
}

} // verus!
