//! Analysis contexts: the unit a check inspects.

use vstd::prelude::*;

verus! {

/// One source file's path and full contents, immutable for the call.
pub struct FileContext {
    pub file_path: String,
    pub file_contents: String,
}

/// A directory-scoped context.  Not exercised by the two checks here, but a
/// valid, distinct variant that directory-scoped checks would take.
pub struct DirectoryContext {
    pub path: String,
}

/// A half-open range of offsets into a piece of content.
#[derive(Clone, Copy, Debug, PartialEq, Eq, Structural)]
pub struct Span {
    pub start: usize,
    pub end: usize,
}

/// One recorded change inside a changed file: the changed text itself, the
/// range it occupies in the file's blob as it existed at that commit (the
/// range includes the trailing line terminator), and the identifier of that
/// blob.
pub struct Change {
    pub content: String,
    pub content_range: Span,
    pub blob_id: u64,
}

/// One file touched by a commit, with its recorded changes.
pub struct ChangedFile {
    pub file_path: String,
    pub changes: Vec<Change>,
}

/// One commit of the history: its identifier, its message (which the history
/// collaborator owes, but may fail to deliver), and the files it changed.
pub struct Commit {
    pub id: String,
    pub message: Option<String>,
    pub changed_files: Vec<ChangedFile>,
}

/// The raw byte content of a file as it existed at some commit, addressed by
/// an opaque identifier.
pub struct Blob {
    pub id: u64,
    pub bytes: Vec<u8>,
}

/// A repository handle as the history collaborator delivers it: the commits
/// of the current branch, in the collaborator's own order, and the blobs
/// their changes refer to.
pub struct Repository {
    pub commits: Vec<Commit>,
    pub blobs: Vec<Blob>,
}

/// The first blob carrying `id`, if the repository holds one.
pub open spec fn blob_lookup(blobs: Seq<Blob>, id: u64) -> Option<Seq<u8>>
    decreases blobs.len(),
{
    if blobs.len() == 0 {
        None
    } else if blobs[0].id == id {
        Some(blobs[0].bytes@)
    } else {
        blob_lookup(blobs.drop_first(), id)
    }
}

impl Repository {
    /// The commits of the current branch, in the order the collaborator
    /// recorded them.
    pub fn commits_of_current_branch(&self) -> (r: &Vec<Commit>)
        ensures
            r@ == self.commits@,
    {
        &self.commits
    }

    /// Resolve a blob identifier to the raw byte content it addresses.
    pub fn find_blob(&self, id: u64) -> (r: Option<&Vec<u8>>)
        ensures
            match r {
                Some(bytes) => blob_lookup(self.blobs@, id) == Some(bytes@),
                None => blob_lookup(self.blobs@, id) is None,
            },
    {
        proof {
            assert(self.blobs@.subrange(0, self.blobs@.len() as int) =~= self.blobs@);
        }
        let mut i: usize = 0;
        while i < self.blobs.len()
            invariant
                0 <= i <= self.blobs.len(),
                blob_lookup(self.blobs@, id) == blob_lookup(self.blobs@.subrange(
                    i as int,
                    self.blobs@.len() as int,
                ), id),
            decreases self.blobs.len() - i,
        {
            proof {
                assert(self.blobs@.subrange(i as int, self.blobs@.len() as int).drop_first()
                    =~= self.blobs@.subrange(i as int + 1, self.blobs@.len() as int));
            }
            if self.blobs[i].id == id {
                return Some(&self.blobs[i].bytes);
            }
            i = i + 1;
        }
        None
    }
}

/// The unit under inspection.  Exactly one variant is populated per
/// invocation; a check that does not understand the variant returns no
/// diagnostics.
pub enum CheckContext {
    File(FileContext),
    Directory(DirectoryContext),
    Git(GitContext),
}

/// A version-controlled repository under inspection.
pub struct GitContext {
    pub repository: Repository,
}

} // verus!
