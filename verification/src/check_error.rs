//! Diagnostics and the error kind for collaborator contract violations.

use vstd::prelude::*;

verus! {

/// Where a diagnostic came from: the minimal identifying fields of the
/// analysis context that produced it.
#[derive(Debug)]
pub enum Provenance {
    /// The diagnostic was found in a single source file.
    FilePath(String),
    /// The diagnostic was found in a commit of a repository's history.
    CommitId(String),
}

/// The mathematical model of a [`Provenance`].
pub ghost enum ProvenanceView {
    FilePath(Seq<char>),
    CommitId(Seq<char>),
}

impl View for Provenance {
    type V = ProvenanceView;

    open spec fn view(&self) -> ProvenanceView {
        match self {
            Provenance::FilePath(p) => ProvenanceView::FilePath(p@),
            Provenance::CommitId(id) => ProvenanceView::CommitId(id@),
        }
    }
}

/// One reported finding: a fully rendered message, together with an owned
/// copy of the fields that identify the context it came from.
#[derive(Debug)]
pub struct CheckError {
    pub message: String,
    pub provenance: Provenance,
}

/// The mathematical model of a [`CheckError`].
pub ghost struct CheckErrorView {
    pub message: Seq<char>,
    pub provenance: ProvenanceView,
}

impl View for CheckError {
    type V = CheckErrorView;

    open spec fn view(&self) -> CheckErrorView {
        CheckErrorView { message: self.message@, provenance: self.provenance@ }
    }
}

/// A collaborator broke its contract: a required syntax-tree field was
/// missing, a blob did not decode as text, a commit had no message, or a
/// recorded byte range did not fit its content.  Such a violation aborts the
/// whole check run; it is never silently converted into an empty result.
#[derive(Clone, Copy, Debug, PartialEq, Eq, Structural)]
pub enum CheckViolation {
    /// A node that must carry a named child (a declaration's name or type)
    /// lacked it.
    MissingTreeField,
    /// A commit in the history had no message.
    MissingCommitMessage,
    /// A change referred to a blob the repository does not hold.
    MissingBlob,
    /// A blob's bytes were not valid UTF-8 text.
    BlobNotText,
    /// A recorded content range did not fit inside its content, or did not
    /// lie on its character boundaries.
    RangeOutOfBounds,
}

/// The model of a list of diagnostics.
pub open spec fn errors_view(v: Vec<CheckError>) -> Seq<CheckErrorView> {
    v@.map_values(|e: CheckError| e@)
}

/// The model of a whole check run: either the diagnostics it found, or the
/// contract violation that aborted it.
pub open spec fn result_view(r: Result<Vec<CheckError>, CheckViolation>) -> Result<
    Seq<CheckErrorView>,
    CheckViolation,
> {
    match r {
        Ok(v) => Ok(errors_view(v)),
        Err(e) => Err(e),
    }
}

} // verus!
