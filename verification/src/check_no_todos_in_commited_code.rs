//! The content-pattern rule: committed changes must not introduce `// TODO`
//! or `// FIXME` marker comments.

use vstd::prelude::*;
use vstd::utf8::decode_utf8;
use vstd::utf8::decode_utf8_encode_utf8;
use vstd::utf8::is_char_boundary;
use vstd::utf8::valid_utf8;

use crate::check::Check;
use crate::check_error::errors_view;
use crate::check_error::result_view;
use crate::check_error::CheckError;
use crate::check_error::CheckErrorView;
use crate::check_error::CheckViolation;
use crate::check_error::Provenance;
use crate::check_error::ProvenanceView;
use crate::contexts::blob_lookup;
use crate::contexts::Blob;
use crate::contexts::Change;
use crate::contexts::ChangedFile;
use crate::contexts::CheckContext;
use crate::contexts::Commit;
use crate::contexts::Repository;
use crate::filters::regex_found_in;
use crate::filters::CheckFilter;
use crate::render::render_diagnostic;
use crate::render::rendered;
use crate::text::contains_spec;
use crate::text::lemma_skip_ws_bytes;
use crate::text::skip_ws_bytes;
use crate::text::skip_ws_bytes_exec;
use crate::text::str_concat5;
use crate::text::str_contains;

verus! {

/// The title of every diagnostic this rule emits.
pub open spec fn todo_title() -> Seq<char> {
    "expected no commited changes to contain TODO or FIXME"@
}

/// The help footer for a qualifying change: it names the commit and its
/// message and urges removal of the markers.
pub open spec fn todo_help_spec(id: Seq<char>, msg: Seq<char>) -> Seq<char> {
    "consider removing all TODOs and FIXMEs form commit "@ + id + " with message \""@ + msg + "\""@
}

/// Whether a recorded change introduces a marker comment.
pub open spec fn marker_change(c: Change) -> bool {
    contains_spec(c.content@, "// TODO"@) || contains_spec(c.content@, "// FIXME"@)
}

/// Whether a change's recorded byte range fits its blob: the range must
/// hold at least the trailing line terminator, must end within the blob's
/// bytes, and its ends must sit on character boundaries of the blob's UTF-8
/// encoding.
pub open spec fn change_range_valid(c: Change, bytes: Seq<u8>) -> bool {
    &&& 1 <= c.content_range.end
    &&& c.content_range.start <= c.content_range.end - 1
    &&& c.content_range.end - 1 <= bytes.len()
    &&& is_char_boundary(bytes, c.content_range.start as int)
    &&& is_char_boundary(bytes, c.content_range.end - 1)
}

/// The diagnostic for one qualifying change, or the contract violation that
/// aborts the run: a blob the repository does not hold, one that is not
/// text, or a range that does not fit.  The displayed range, in byte
/// offsets, drops the final line-terminator byte and then advances past
/// leading white space one character at a time.
pub open spec fn change_diag(
    c: Change,
    blobs: Seq<Blob>,
    path: Seq<char>,
    id: Seq<char>,
    msg: Seq<char>,
) -> Result<CheckErrorView, CheckViolation> {
    match blob_lookup(blobs, c.blob_id) {
        Option::None => Err(CheckViolation::MissingBlob),
        Option::Some(bytes) => if !valid_utf8(bytes) {
            Err(CheckViolation::BlobNotText)
        } else {
            let text = decode_utf8(bytes);
            if !change_range_valid(c, bytes) {
                Err(CheckViolation::RangeOutOfBounds)
            } else {
                let display_end = c.content_range.end - 1;
                let display_start = skip_ws_bytes(bytes, c.content_range.start as int, display_end);
                Ok(
                    CheckErrorView {
                        message: rendered(
                            todo_title(),
                            text,
                            path,
                            display_start,
                            display_end,
                            todo_help_spec(id, msg),
                        ),
                        provenance: ProvenanceView::CommitId(id),
                    },
                )
            }
        },
    }
}

/// The diagnostics of one changed file's recorded changes, in order: one per
/// change whose content holds a marker.
pub open spec fn changes_diags(
    changes: Seq<Change>,
    blobs: Seq<Blob>,
    path: Seq<char>,
    id: Seq<char>,
    msg: Seq<char>,
) -> Result<Seq<CheckErrorView>, CheckViolation>
    decreases changes.len(),
{
    if changes.len() == 0 {
        Ok(Seq::<CheckErrorView>::empty())
    } else {
        let rest = changes.drop_first();
        if marker_change(changes[0]) {
            match change_diag(changes[0], blobs, path, id, msg) {
                Err(e) => Err(e),
                Ok(d) => match changes_diags(rest, blobs, path, id, msg) {
                    Err(e) => Err(e),
                    Ok(ds) => Ok(seq![d] + ds),
                },
            }
        } else {
            changes_diags(rest, blobs, path, id, msg)
        }
    }
}

/// Whether some path filter matches the given changed file's path.  Scope
/// filters play no part in this rule.
pub open spec fn path_filter_match(filters: Seq<CheckFilter>, path: Seq<char>) -> bool
    decreases filters.len(),
{
    if filters.len() == 0 {
        false
    } else {
        match filters[0] {
            CheckFilter::IgnoreByFilePathRegex(r) => regex_found_in(r@, path) || path_filter_match(
                filters.drop_first(),
                path,
            ),
            _ => path_filter_match(filters.drop_first(), path),
        }
    }
}

/// The scan of one commit's changed files.  `Ok(None)` means a path filter
/// matched some file, which abandons the whole run; a commit that changes a
/// file but carries no message is a collaborator contract violation.
pub open spec fn files_scan(
    files: Seq<ChangedFile>,
    filters: Seq<CheckFilter>,
    blobs: Seq<Blob>,
    id: Seq<char>,
    message: Option<String>,
) -> Result<Option<Seq<CheckErrorView>>, CheckViolation>
    decreases files.len(),
{
    if files.len() == 0 {
        Ok(Option::Some(Seq::<CheckErrorView>::empty()))
    } else {
        let f = files[0];
        if path_filter_match(filters, f.file_path@) {
            Ok(Option::None)
        } else {
            match message {
                Option::None => Err(CheckViolation::MissingCommitMessage),
                Option::Some(m) => match changes_diags(f.changes@, blobs, f.file_path@, id, m@) {
                    Err(e) => Err(e),
                    Ok(ds) => match files_scan(files.drop_first(), filters, blobs, id, message) {
                        Err(e) => Err(e),
                        Ok(Option::None) => Ok(Option::None),
                        Ok(Option::Some(more)) => Ok(Option::Some(ds + more)),
                    },
                },
            }
        }
    }
}

/// The scan of the whole commit sequence, in the collaborator's order.
pub open spec fn commits_scan(
    commits: Seq<Commit>,
    filters: Seq<CheckFilter>,
    blobs: Seq<Blob>,
) -> Result<Option<Seq<CheckErrorView>>, CheckViolation>
    decreases commits.len(),
{
    if commits.len() == 0 {
        Ok(Option::Some(Seq::<CheckErrorView>::empty()))
    } else {
        match files_scan(
            commits[0].changed_files@,
            filters,
            blobs,
            commits[0].id@,
            commits[0].message,
        ) {
            Err(e) => Err(e),
            Ok(Option::None) => Ok(Option::None),
            Ok(Option::Some(ds)) => match commits_scan(commits.drop_first(), filters, blobs) {
                Err(e) => Err(e),
                Ok(Option::None) => Ok(Option::None),
                Ok(Option::Some(more)) => Ok(Option::Some(ds + more)),
            },
        }
    }
}

/// What this rule returns for a repository: one diagnostic per marker-
/// carrying change — unless a path filter matches any changed file anywhere
/// in the history, which discards the entire result set.
pub open spec fn check_git_spec(repo: Repository, filters: Seq<CheckFilter>) -> Result<
    Seq<CheckErrorView>,
    CheckViolation,
> {
    match commits_scan(repo.commits@, filters, repo.blobs@) {
        Err(e) => Err(e),
        Ok(Option::None) => Ok(Seq::<CheckErrorView>::empty()),
        Ok(Option::Some(ds)) => Ok(ds),
    }
}

/// A prefix of already-collected diagnostics joined with the outcome of the
/// remaining scan; suppression and violations swallow the prefix.
pub open spec fn with_prefix_scan(
    prefix: Seq<CheckErrorView>,
    r: Result<Option<Seq<CheckErrorView>>, CheckViolation>,
) -> Result<Option<Seq<CheckErrorView>>, CheckViolation> {
    match r {
        Ok(Option::Some(ds)) => Ok(Option::Some(prefix + ds)),
        other => other,
    }
}

/// A prefix of already-collected diagnostics joined with the outcome of the
/// remaining change scan.
pub open spec fn with_prefix_changes(
    prefix: Seq<CheckErrorView>,
    r: Result<Seq<CheckErrorView>, CheckViolation>,
) -> Result<Seq<CheckErrorView>, CheckViolation> {
    match r {
        Ok(ds) => Ok(prefix + ds),
        Err(e) => Err(e),
    }
}

/// The model of a scan that may be suppressed.
pub open spec fn scan_view(r: Result<Option<Vec<CheckError>>, CheckViolation>) -> Result<
    Option<Seq<CheckErrorView>>,
    CheckViolation,
> {
    match r {
        Ok(Option::None) => Ok(Option::None),
        Ok(Option::Some(v)) => Ok(Option::Some(errors_view(v))),
        Err(e) => Err(e),
    }
}

/// Relies on `String::from_utf8`: it succeeds exactly on the byte sequences
/// that are valid UTF-8, and decodes them to their character sequence.
#[verifier::external_body]
fn decode_text(bytes: &Vec<u8>) -> (r: Option<String>)
    ensures
        r is Some <==> valid_utf8(bytes@),
        r matches Some(s) ==> s@ == decode_utf8(bytes@),
{
    String::from_utf8(bytes.clone()).ok()
}

fn path_filter_check(filters: &Vec<CheckFilter>, path: &String) -> (r: bool)
    ensures
        r == path_filter_match(filters@, path@),
{
    proof {
        assert(filters@.subrange(0, filters@.len() as int) =~= filters@);
    }
    let mut i: usize = 0;
    while i < filters.len()
        invariant
            0 <= i <= filters@.len(),
            path_filter_match(filters@, path@) == path_filter_match(
                filters@.subrange(i as int, filters@.len() as int),
                path@,
            ),
        decreases filters@.len() - i,
    {
        proof {
            assert(filters@.subrange(i as int, filters@.len() as int).drop_first()
                =~= filters@.subrange(i as int + 1, filters@.len() as int));
        }
        match &filters[i] {
            CheckFilter::IgnoreByFilePathRegex(re) => {
                if re.is_found_in(path.as_str()) {
                    return true;
                }
            },
            CheckFilter::IgnoreByNameSpaceRegex(_) => {},
        }
        i = i + 1;
    }
    false
}

fn changes_scan(
    changes: &Vec<Change>,
    repo: &Repository,
    path: &String,
    id: &String,
    msg: &String,
) -> (r: Result<Vec<CheckError>, CheckViolation>)
    ensures
        result_view(r) == changes_diags(changes@, repo.blobs@, path@, id@, msg@),
{
    proof {
        assert(changes@.subrange(0, changes@.len() as int) =~= changes@);
    }
    let mut out: Vec<CheckError> = Vec::new();
    let mut j: usize = 0;
    proof {
        assert(errors_view(out) =~= Seq::<CheckErrorView>::empty());
        match changes_diags(changes@, repo.blobs@, path@, id@, msg@) {
            Ok(ds) => {
                assert(errors_view(out) + ds =~= ds);
            },
            Err(_) => {},
        }
    }
    while j < changes.len()
        invariant
            0 <= j <= changes@.len(),
            changes_diags(changes@, repo.blobs@, path@, id@, msg@) == with_prefix_changes(
                errors_view(out),
                changes_diags(
                    changes@.subrange(j as int, changes@.len() as int),
                    repo.blobs@,
                    path@,
                    id@,
                    msg@,
                ),
            ),
        decreases changes@.len() - j,
    {
        proof {
            assert(changes@.subrange(j as int, changes@.len() as int).drop_first()
                =~= changes@.subrange(j as int + 1, changes@.len() as int));
        }
        let ghost prev = errors_view(out);
        let c = &changes[j];
        if str_contains(c.content.as_str(), "// TODO") || str_contains(
            c.content.as_str(),
            "// FIXME",
        ) {
            match repo.find_blob(c.blob_id) {
                Option::None => {
                    return Err(CheckViolation::MissingBlob);
                },
                Option::Some(bytes) => {
                    match decode_text(bytes) {
                        Option::None => {
                            return Err(CheckViolation::BlobNotText);
                        },
                        Option::Some(text) => {
                            proof {
                                decode_utf8_encode_utf8(bytes@);
                            }
                            if !(c.content_range.end >= 1 && c.content_range.start
                                <= c.content_range.end - 1 && c.content_range.end - 1 <= bytes.len()
                                && text.as_str().is_char_boundary(c.content_range.start)
                                && text.as_str().is_char_boundary(c.content_range.end - 1)) {
                                return Err(CheckViolation::RangeOutOfBounds);
                            }
                            let display_end = c.content_range.end - 1;
                            let display_start = skip_ws_bytes_exec(
                                text.as_str(),
                                c.content_range.start,
                                display_end,
                            );
                            proof {
                                lemma_skip_ws_bytes(
                                    bytes@,
                                    c.content_range.start as int,
                                    display_end as int,
                                );
                            }
                            let help = str_concat5(
                                "consider removing all TODOs and FIXMEs form commit ",
                                id.as_str(),
                                " with message \"",
                                msg.as_str(),
                                "\"",
                            );
                            let message = render_diagnostic(
                                "expected no commited changes to contain TODO or FIXME",
                                text.as_str(),
                                path.as_str(),
                                display_start,
                                display_end,
                                help.as_str(),
                            );
                            let e = CheckError {
                                message,
                                provenance: Provenance::CommitId(id.clone()),
                            };
                            let ghost d = match change_diag(*c, repo.blobs@, path@, id@, msg@) {
                                Ok(d) => d,
                                Err(_) => e@,
                            };
                            proof {
                                assert(change_diag(*c, repo.blobs@, path@, id@, msg@) == Ok::<
                                    CheckErrorView,
                                    CheckViolation,
                                >(e@));
                            }
                            out.push(e);
                            proof {
                                assert(errors_view(out) =~= prev + seq![d]);
                                match changes_diags(
                                    changes@.subrange(j as int + 1, changes@.len() as int),
                                    repo.blobs@,
                                    path@,
                                    id@,
                                    msg@,
                                ) {
                                    Ok(ds) => {
                                        assert(prev + (seq![d] + ds) =~= (prev + seq![d]) + ds);
                                    },
                                    Err(_) => {},
                                }
                            }
                        },
                    }
                },
            }
        }
        j = j + 1;
    }
    proof {
        assert(changes@.subrange(changes@.len() as int, changes@.len() as int) =~= Seq::<
            Change,
        >::empty());
        assert(errors_view(out) + Seq::<CheckErrorView>::empty() =~= errors_view(out));
    }
    Ok(out)
}

fn files_scan_exec(
    files: &Vec<ChangedFile>,
    filters: &Vec<CheckFilter>,
    repo: &Repository,
    id: &String,
    message: &Option<String>,
) -> (r: Result<Option<Vec<CheckError>>, CheckViolation>)
    ensures
        scan_view(r) == files_scan(files@, filters@, repo.blobs@, id@, *message),
{
    proof {
        assert(files@.subrange(0, files@.len() as int) =~= files@);
    }
    let mut out: Vec<CheckError> = Vec::new();
    let mut k: usize = 0;
    proof {
        assert(errors_view(out) =~= Seq::<CheckErrorView>::empty());
        match files_scan(files@, filters@, repo.blobs@, id@, *message) {
            Ok(Option::Some(ds)) => {
                assert(errors_view(out) + ds =~= ds);
            },
            _ => {},
        }
    }
    while k < files.len()
        invariant
            0 <= k <= files@.len(),
            files_scan(files@, filters@, repo.blobs@, id@, *message) == with_prefix_scan(
                errors_view(out),
                files_scan(
                    files@.subrange(k as int, files@.len() as int),
                    filters@,
                    repo.blobs@,
                    id@,
                    *message,
                ),
            ),
        decreases files@.len() - k,
    {
        proof {
            assert(files@.subrange(k as int, files@.len() as int).drop_first() =~= files@.subrange(
                k as int + 1,
                files@.len() as int,
            ));
        }
        let ghost prev = errors_view(out);
        let f = &files[k];
        if path_filter_check(filters, &f.file_path) {
            return Ok(Option::None);
        }
        match message {
            Option::None => {
                return Err(CheckViolation::MissingCommitMessage);
            },
            Option::Some(m) => {
                match changes_scan(&f.changes, repo, &f.file_path, id, m) {
                    Err(e) => {
                        return Err(e);
                    },
                    Ok(mut ds) => {
                        let ghost ds_view = errors_view(ds);
                        out.append(&mut ds);
                        proof {
                            assert(errors_view(out) =~= prev + ds_view);
                            match files_scan(
                                files@.subrange(k as int + 1, files@.len() as int),
                                filters@,
                                repo.blobs@,
                                id@,
                                *message,
                            ) {
                                Ok(Option::Some(more)) => {
                                    assert(prev + (ds_view + more) =~= (prev + ds_view) + more);
                                },
                                _ => {},
                            }
                        }
                    },
                }
            },
        }
        k = k + 1;
    }
    proof {
        assert(files@.subrange(files@.len() as int, files@.len() as int) =~= Seq::<
            ChangedFile,
        >::empty());
        assert(errors_view(out) + Seq::<CheckErrorView>::empty() =~= errors_view(out));
    }
    Ok(Option::Some(out))
}

fn commits_scan_exec(commits: &Vec<Commit>, filters: &Vec<CheckFilter>, repo: &Repository) -> (r:
    Result<Option<Vec<CheckError>>, CheckViolation>)
    ensures
        scan_view(r) == commits_scan(commits@, filters@, repo.blobs@),
{
    proof {
        assert(commits@.subrange(0, commits@.len() as int) =~= commits@);
    }
    let mut out: Vec<CheckError> = Vec::new();
    let mut i: usize = 0;
    proof {
        assert(errors_view(out) =~= Seq::<CheckErrorView>::empty());
        match commits_scan(commits@, filters@, repo.blobs@) {
            Ok(Option::Some(ds)) => {
                assert(errors_view(out) + ds =~= ds);
            },
            _ => {},
        }
    }
    while i < commits.len()
        invariant
            0 <= i <= commits@.len(),
            commits_scan(commits@, filters@, repo.blobs@) == with_prefix_scan(
                errors_view(out),
                commits_scan(
                    commits@.subrange(i as int, commits@.len() as int),
                    filters@,
                    repo.blobs@,
                ),
            ),
        decreases commits@.len() - i,
    {
        proof {
            assert(commits@.subrange(i as int, commits@.len() as int).drop_first()
                =~= commits@.subrange(i as int + 1, commits@.len() as int));
        }
        let ghost prev = errors_view(out);
        let commit = &commits[i];
        match files_scan_exec(&commit.changed_files, filters, repo, &commit.id, &commit.message) {
            Err(e) => {
                return Err(e);
            },
            Ok(Option::None) => {
                return Ok(Option::None);
            },
            Ok(Option::Some(mut ds)) => {
                let ghost ds_view = errors_view(ds);
                out.append(&mut ds);
                proof {
                    assert(errors_view(out) =~= prev + ds_view);
                    match commits_scan(
                        commits@.subrange(i as int + 1, commits@.len() as int),
                        filters@,
                        repo.blobs@,
                    ) {
                        Ok(Option::Some(more)) => {
                            assert(prev + (ds_view + more) =~= (prev + ds_view) + more);
                        },
                        _ => {},
                    }
                }
            },
        }
        i = i + 1;
    }
    proof {
        assert(commits@.subrange(commits@.len() as int, commits@.len() as int) =~= Seq::<
            Commit,
        >::empty());
        assert(errors_view(out) + Seq::<CheckErrorView>::empty() =~= errors_view(out));
    }
    Ok(Option::Some(out))
}

/// The rule that committed changes must not introduce `// TODO` or
/// `// FIXME` marker comments.
pub struct CheckNoTodosInCommittedCode {}

impl Check for CheckNoTodosInCommittedCode {
    open spec fn check_spec(
        &self,
        context: &CheckContext,
        filters: &Vec<CheckFilter>,
        result: Result<Seq<CheckErrorView>, CheckViolation>,
    ) -> bool {
        match context {
            CheckContext::Git(gc) => result == check_git_spec(gc.repository, filters@),
            _ => result == Ok::<Seq<CheckErrorView>, CheckViolation>(
                Seq::<CheckErrorView>::empty(),
            ),
        }
    }

    fn execute_check(&self, context: &CheckContext, filters: &Vec<CheckFilter>) -> (result: Result<
        Vec<CheckError>,
        CheckViolation,
    >) {
        match context {
            CheckContext::Git(gc) => {
                let commits = gc.repository.commits_of_current_branch();
                proof {
                    assert(commits@ == gc.repository.commits@);
                }
                match commits_scan_exec(commits, filters, &gc.repository) {
                    Err(e) => Err(e),
                    Ok(Option::None) => {
                        let v: Vec<CheckError> = Vec::new();
                        proof {
                            assert(errors_view(v) =~= Seq::<CheckErrorView>::empty());
                        }
                        Ok(v)
                    },
                    Ok(Option::Some(ds)) => Ok(ds),
                }
            },
            _ => {
                let v: Vec<CheckError> = Vec::new();
                proof {
                    assert(errors_view(v) =~= Seq::<CheckErrorView>::empty());
                }
                Ok(v)
            },
        }
    }
}

} // verus!
