//! Event classification.
//!
//! A push payload is a JSON document whose `ref` member names the pushed
//! ref, a slash-delimited path such as `refs/heads/master`.  Classification
//! takes the final path segment as the branch name and maps it to the
//! deployment target bound to that branch; every other name is rejected, so
//! deployment never proceeds for an unmapped branch.

use vstd::prelude::*;

verus! {

use crate::text::str_eq;

/// A deployment target, each bound to one working directory.
#[derive(Clone, Copy, Debug, PartialEq, Eq, Structural)]
pub enum Branch {
    /// The primary target, fed by the `master` branch.
    Master,
    /// The secondary target, fed by the `dev` branch.
    Dev,
}

/// Error from classifying a push payload.
#[derive(Clone, Copy, Debug, PartialEq, Eq, Structural)]
pub enum ClassifyError {
    /// The body is not a JSON document.
    InvalidPayload,
    /// The document has no string member named `ref`.
    MissingRef,
    /// The ref string is empty.
    InvalidRef,
    /// The final path segment names no configured branch.
    UnknownBranch,
}

/// The top-level string member `ref` of the JSON document encoded by `b`:
/// `None` when `b` is no JSON document, `Some(None)` when the document has
/// no such string member, and `Some(Some(r))` when it has one with value
/// `r`.
pub uninterp spec fn json_ref_of(b: Seq<u8>) -> Option<Option<Seq<char>>>;

/// Relies on `serde_json::from_slice` and `serde_json::Value`: parses the
/// body as JSON and picks out the top-level string member `ref`, exactly as
/// `json_ref_of` names the outcome.
#[verifier::external_body]
fn parse_ref_member(body: &[u8]) -> (r: Option<Option<String>>)
    ensures
        match r {
            Some(Some(s)) => json_ref_of(body@) == Some(Some(s@)),
            Some(None) => json_ref_of(body@) == Some(None::<Seq<char>>),
            None => json_ref_of(body@) is None,
        },
{
    match serde_json::from_slice::<serde_json::Value>(body) {
        Err(_) => None,
        Ok(v) => match v.get("ref") {
            Some(serde_json::Value::String(s)) => Some(Some(s.clone())),
            _ => Some(None),
        },
    }
}

/// The index of the last `/` in `s`, if any.
pub open spec fn find_last_slash(s: Seq<char>) -> Option<int>
    decreases s.len(),
{
    if s.len() == 0 {
        None
    } else if s[s.len() - 1] == '/' {
        Some(s.len() - 1)
    } else {
        find_last_slash(s.drop_last())
    }
}

/// A scan from the end that saw no `/` after `i` pins `find_last_slash`
/// down: reaching the front means there is none, and hitting one just
/// before `i` makes it the last.
pub proof fn lemma_find_last_slash(s: Seq<char>, i: int)
    requires
        0 <= i <= s.len(),
        forall|j: int| i <= j < s.len() ==> s[j] != '/',
    ensures
        i == 0 ==> find_last_slash(s) is None,
        i > 0 && s[i - 1] == '/' ==> find_last_slash(s) == Some(i - 1),
    decreases s.len(),
{
    if s.len() == 0 {
    } else if s[s.len() - 1] == '/' {
    } else {
        if i < s.len() {
            lemma_find_last_slash(s.drop_last(), i);
        } else {
            lemma_find_last_slash(s.drop_last(), i - 1);
        }
    }
}

/// The final path segment of a ref: everything after the last `/`, or the
/// whole string when it holds none.
pub open spec fn last_segment(s: Seq<char>) -> Seq<char> {
    match find_last_slash(s) {
        None => s,
        Some(i) => s.subrange(i + 1, s.len() as int),
    }
}

/// The branch a ref names: its final path segment, mapped through the fixed
/// lookup.  An empty ref is invalid, and an unmapped segment is rejected.
pub open spec fn branch_of_ref(s: Seq<char>) -> Result<Branch, ClassifyError> {
    if s.len() == 0 {
        Err(ClassifyError::InvalidRef)
    } else if last_segment(s) == "master"@ {
        Ok(Branch::Master)
    } else if last_segment(s) == "dev"@ {
        Ok(Branch::Dev)
    } else {
        Err(ClassifyError::UnknownBranch)
    }
}

/// The target a push payload selects: the branch its `ref` member names,
/// or the error that says what was missing.
pub open spec fn classify_spec(b: Seq<u8>) -> Result<Branch, ClassifyError> {
    match json_ref_of(b) {
        None => Err(ClassifyError::InvalidPayload),
        Some(None) => Err(ClassifyError::MissingRef),
        Some(Some(r)) => branch_of_ref(r),
    }
}

/// Maps a ref string to the branch it names, as `branch_of_ref` lays out.
pub fn branch_for_ref(ref_name: &str) -> (r: Result<Branch, ClassifyError>)
    ensures
        r == branch_of_ref(ref_name@),
{
    let n = ref_name.unicode_len();
    if n == 0 {
        return Err(ClassifyError::InvalidRef);
    }
    let mut i: usize = n;
    while i > 0
        invariant
            n == ref_name@.len(),
            i <= n,
            forall|j: int| i <= j < n ==> ref_name@[j] != '/',
        ensures
            i <= n,
            forall|j: int| i <= j < n ==> ref_name@[j] != '/',
            i > 0 ==> ref_name@[i - 1] == '/',
        decreases i,
    {
        if ref_name.get_char(i - 1) == '/' {
            break ;
        }
        i = i - 1;
    }
    proof {
        lemma_find_last_slash(ref_name@, i as int);
    }
    let segment = ref_name.substring_char(i, n);
    proof {
        assert(segment@ =~= last_segment(ref_name@));
    }
    if str_eq(segment, "master") {
        Ok(Branch::Master)
    } else if str_eq(segment, "dev") {
        Ok(Branch::Dev)
    } else {
        Err(ClassifyError::UnknownBranch)
    }
}

/// Classifies a push payload body, as `classify_spec` lays out.
pub fn get_branch(bytes: &[u8]) -> (r: Result<Branch, ClassifyError>)
    ensures
        r == classify_spec(bytes@),
{
    match parse_ref_member(bytes) {
        None => Err(ClassifyError::InvalidPayload),
        Some(None) => Err(ClassifyError::MissingRef),
        Some(Some(ref_name)) => branch_for_ref(ref_name.as_str()),
    }
}

} // verus!
