//! Engine-wide laws, stated and proved over the rules' specifications.
//!
//! Each law assumes only that the collaborators kept their contracts — parsed
//! declarations carry their required fields, blobs referred to by marker
//! changes exist, decode, and fit their recorded ranges — and states what the
//! rules then return.

use vstd::pervasive::arbitrary;
use vstd::prelude::*;
use vstd::utf8::decode_first_scalar;
use vstd::utf8::decode_utf8;
use vstd::utf8::encode_utf8;
use vstd::utf8::is_char_boundary;
use vstd::utf8::valid_utf8;

use crate::check_async_for_task::async_help_spec;
use crate::check_async_for_task::check_file_spec;
use crate::check_async_for_task::fallback_ns_name;
use crate::check_async_for_task::filters_verdict;
use crate::check_async_for_task::is_method_kind;
use crate::check_async_for_task::is_ns_decl;
use crate::check_async_for_task::is_ns_fallback;
use crate::check_async_for_task::method_diag;
use crate::check_async_for_task::method_diags;
use crate::check_async_for_task::node_violates;
use crate::check_async_for_task::scope_match;
use crate::check_async_for_task::scope_match_decls;
use crate::check_async_for_task::scope_match_fallback;
use crate::check_error::CheckErrorView;
use crate::check_error::CheckViolation;
use crate::check_no_todos_in_commited_code::change_diag;
use crate::check_no_todos_in_commited_code::change_range_valid;
use crate::check_no_todos_in_commited_code::changes_diags;
use crate::check_no_todos_in_commited_code::check_git_spec;
use crate::check_no_todos_in_commited_code::commits_scan;
use crate::check_no_todos_in_commited_code::files_scan;
use crate::check_no_todos_in_commited_code::marker_change;
use crate::check_no_todos_in_commited_code::path_filter_match;
use crate::check_no_todos_in_commited_code::todo_help_spec;
use crate::check_no_todos_in_commited_code::todo_title;
use crate::contexts::blob_lookup;
use crate::contexts::Blob;
use crate::contexts::Change;
use crate::contexts::ChangedFile;
use crate::contexts::Commit;
use crate::contexts::Repository;
use crate::filters::regex_found_in;
use crate::filters::CheckFilter;
use crate::parse_tree::NodeField;
use crate::parse_tree::SyntaxNode;
use crate::render::rendered;
use crate::text::contains_at;
use crate::text::contains_spec;
use crate::text::is_ws_code;
use crate::text::lemma_skip_ws_bytes;
use crate::text::skip_ws_bytes;

verus! {

/// A method or local-function node as the parser owes it: both required
/// fields present, and the name's byte range inside the source and on its
/// character boundaries.
pub open spec fn method_node_wf(n: SyntaxNode, source: Seq<char>) -> bool {
    is_method_kind(n.kind@) ==> match (n.type_field, n.name_field) {
        (Option::Some(_t), Option::Some(f)) => f.start <= f.end && f.end <= encode_utf8(
            source,
        ).len() && is_char_boundary(encode_utf8(source), f.start as int) && is_char_boundary(
            encode_utf8(source),
            f.end as int,
        ),
        _ => false,
    }
}

/// Every namespace declaration carries its name field, as the parser owes.
pub open spec fn ns_wf(nodes: Seq<SyntaxNode>) -> bool {
    forall|i: int|
        0 <= i < nodes.len() ==> (is_ns_decl(#[trigger] nodes[i]) ==> nodes[i].name_field is Some)
}

/// The name field of a node that has one.
pub open spec fn name_of(n: SyntaxNode) -> NodeField {
    match n.name_field {
        Option::Some(f) => f,
        Option::None => arbitrary(),
    }
}

/// The diagnostics the method scan owes: one per violating declaration, in
/// order.
pub open spec fn violation_diags(
    nodes: Seq<SyntaxNode>,
    source: Seq<char>,
    path: Seq<char>,
) -> Seq<CheckErrorView>
    decreases nodes.len(),
{
    if nodes.len() == 0 {
        Seq::<CheckErrorView>::empty()
    } else {
        let rest = violation_diags(nodes.drop_first(), source, path);
        if node_violates(nodes[0]) {
            seq![method_diag(source, path, name_of(nodes[0]))] + rest
        } else {
            rest
        }
    }
}

/// The number of violating declarations.
pub open spec fn violation_count(nodes: Seq<SyntaxNode>) -> int
    decreases nodes.len(),
{
    if nodes.len() == 0 {
        0
    } else {
        (if node_violates(nodes[0]) {
            1int
        } else {
            0int
        }) + violation_count(nodes.drop_first())
    }
}

/// The help footer of a violating declaration holds the declaration's name
/// immediately followed by `Async`.
pub proof fn law_help_suggests_corrected_name(name: Seq<char>)
    ensures
        contains_spec(async_help_spec(name), name + "Async"@),
{
    reveal_strlit("consider ");
    let help = async_help_spec(name);
    assert(help.subrange(9, 9 + (name + "Async"@).len() as int) =~= name + "Async"@);
    assert(contains_at(help, name + "Async"@, 9));
}

/// A declaration whose return type mentions `Task` yields exactly one
/// diagnostic when its name does not end in `Async`, built from its name
/// field, and none at all otherwise; the scan never fails on well-formed
/// nodes.  The diagnostics come in source order.
pub proof fn law_task_methods_diagnostics(nodes: Seq<SyntaxNode>, source: Seq<char>, path: Seq<char>)
    requires
        forall|i: int| 0 <= i < nodes.len() ==> method_node_wf(#[trigger] nodes[i], source),
    ensures
        method_diags(nodes, source, path) == Ok::<Seq<CheckErrorView>, CheckViolation>(
            violation_diags(nodes, source, path),
        ),
        violation_diags(nodes, source, path).len() == violation_count(nodes),
    decreases nodes.len(),
{
    if nodes.len() > 0 {
        let rest = nodes.drop_first();
        assert forall|i: int| 0 <= i < rest.len() implies method_node_wf(
            #[trigger] rest[i],
            source,
        ) by {
            assert(rest[i] == nodes[i + 1]);
        }
        law_task_methods_diagnostics(rest, source, path);
        assert(method_node_wf(nodes[0], source));
    }
}

/// One declaration alone: a violating one yields exactly its diagnostic, a
/// compliant one yields nothing.
pub proof fn law_single_declaration(n: SyntaxNode, source: Seq<char>, path: Seq<char>)
    requires
        method_node_wf(n, source),
    ensures
        node_violates(n) ==> method_diags(seq![n], source, path) == Ok::<
            Seq<CheckErrorView>,
            CheckViolation,
        >(seq![method_diag(source, path, name_of(n))]),
        !node_violates(n) ==> method_diags(seq![n], source, path) == Ok::<
            Seq<CheckErrorView>,
            CheckViolation,
        >(Seq::<CheckErrorView>::empty()),
{
    let nodes = seq![n];
    assert(nodes.drop_first() =~= Seq::<SyntaxNode>::empty());
    law_task_methods_diagnostics(nodes, source, path);
    assert(violation_diags(Seq::<SyntaxNode>::empty(), source, path)
        == Seq::<CheckErrorView>::empty());
    assert(violation_diags(nodes.drop_first(), source, path) == Seq::<CheckErrorView>::empty());
    if node_violates(n) {
        assert(seq![method_diag(source, path, name_of(n))] + Seq::<CheckErrorView>::empty()
            =~= seq![method_diag(source, path, name_of(n))]);
        assert(violation_diags(nodes, source, path) == seq![method_diag(source, path, name_of(n))]);
    }
}

/// Whether one filter suppresses this file on its own.
pub open spec fn filter_hits(f: CheckFilter, path: Seq<char>, nodes: Seq<SyntaxNode>) -> bool {
    match f {
        CheckFilter::IgnoreByFilePathRegex(r) => regex_found_in(r@, path),
        CheckFilter::IgnoreByNameSpaceRegex(r) => scope_match(nodes, r@) == Ok::<
            bool,
            CheckViolation,
        >(true),
    }
}

proof fn lemma_scope_decls_ok(nodes: Seq<SyntaxNode>, pat: Seq<char>)
    requires
        ns_wf(nodes),
    ensures
        scope_match_decls(nodes, pat) is Ok,
    decreases nodes.len(),
{
    if nodes.len() > 0 {
        let rest = nodes.drop_first();
        assert forall|i: int|
            0 <= i < rest.len() implies (is_ns_decl(#[trigger] rest[i]) ==> rest[i].name_field
            is Some) by {
            assert(rest[i] == nodes[i + 1]);
        }
        lemma_scope_decls_ok(rest, pat);
        assert(is_ns_decl(nodes[0]) ==> nodes[0].name_field is Some);
    }
}

proof fn lemma_scope_decls_hit(nodes: Seq<SyntaxNode>, pat: Seq<char>, j: int)
    requires
        ns_wf(nodes),
        0 <= j < nodes.len(),
        is_ns_decl(nodes[j]),
        nodes[j].name_field matches Option::Some(f) && regex_found_in(pat, f.text@),
    ensures
        scope_match_decls(nodes, pat) == Ok::<bool, CheckViolation>(true),
    decreases j,
{
    assert(is_ns_decl(nodes[0]) ==> nodes[0].name_field is Some);
    let rest = nodes.drop_first();
    assert forall|i: int|
        0 <= i < rest.len() implies (is_ns_decl(#[trigger] rest[i]) ==> rest[i].name_field
        is Some) by {
        assert(rest[i] == nodes[i + 1]);
    }
    if j == 0 {
    } else {
        if is_ns_decl(nodes[0]) {
            let f0 = nodes[0].name_field->Some_0;
            if regex_found_in(pat, f0.text@) {
            } else {
                assert(rest[j - 1] == nodes[j]);
                lemma_scope_decls_hit(rest, pat, j - 1);
            }
        } else {
            assert(rest[j - 1] == nodes[j]);
            lemma_scope_decls_hit(rest, pat, j - 1);
        }
    }
}

proof fn lemma_scope_fallback_hit(nodes: Seq<SyntaxNode>, pat: Seq<char>, j: int)
    requires
        0 <= j < nodes.len(),
        is_ns_fallback(nodes[j]),
        regex_found_in(pat, fallback_ns_name(nodes[j].text@)),
    ensures
        scope_match_fallback(nodes, pat) == true,
    decreases j,
{
    if j > 0 {
        let rest = nodes.drop_first();
        if is_ns_fallback(nodes[0]) && regex_found_in(pat, fallback_ns_name(nodes[0].text@)) {
        } else {
            assert(rest[j - 1] == nodes[j]);
            lemma_scope_fallback_hit(rest, pat, j - 1);
        }
    }
}

/// Whether some node at offset `j` gives the scope pattern a namespace to
/// match: a declared namespace's name, or the name recovered from a
/// file-scoped `namespace X;` declaration.
pub open spec fn scope_hit_at(nodes: Seq<SyntaxNode>, pat: Seq<char>, j: int) -> bool {
    &&& 0 <= j < nodes.len()
    &&& ((is_ns_decl(nodes[j]) && (nodes[j].name_field matches Option::Some(f) && regex_found_in(
        pat,
        f.text@,
    ))) || (is_ns_fallback(nodes[j]) && regex_found_in(pat, fallback_ns_name(nodes[j].text@))))
}

proof fn lemma_scope_hit(nodes: Seq<SyntaxNode>, pat: Seq<char>, j: int)
    requires
        ns_wf(nodes),
        scope_hit_at(nodes, pat, j),
    ensures
        scope_match(nodes, pat) == Ok::<bool, CheckViolation>(true),
{
    if is_ns_decl(nodes[j]) && (nodes[j].name_field matches Option::Some(f) && regex_found_in(
        pat,
        f.text@,
    )) {
        lemma_scope_decls_hit(nodes, pat, j);
    } else {
        lemma_scope_decls_ok(nodes, pat);
        lemma_scope_fallback_hit(nodes, pat, j);
    }
}

proof fn lemma_verdict_hit(
    filters: Seq<CheckFilter>,
    path: Seq<char>,
    nodes: Seq<SyntaxNode>,
    i: int,
)
    requires
        ns_wf(nodes),
        0 <= i < filters.len(),
        filter_hits(filters[i], path, nodes),
    ensures
        filters_verdict(filters, path, nodes) == Ok::<bool, CheckViolation>(true),
    decreases i,
{
    let rest = filters.drop_first();
    match filters[0] {
        CheckFilter::IgnoreByFilePathRegex(r) => {
            if regex_found_in(r@, path) {
            } else {
                assert(rest[i - 1] == filters[i]);
                lemma_verdict_hit(rest, path, nodes, i - 1);
            }
        },
        CheckFilter::IgnoreByNameSpaceRegex(r) => {
            lemma_scope_decls_ok(nodes, r@);
            if scope_match(nodes, r@) == Ok::<bool, CheckViolation>(true) {
            } else {
                assert(rest[i - 1] == filters[i]);
                lemma_verdict_hit(rest, path, nodes, i - 1);
            }
        },
    }
}

/// A path filter that matches the file's path empties the naming rule's
/// result, even when violating declarations exist.
pub proof fn law_ignore_by_path_on_file(
    path: Seq<char>,
    source: Seq<char>,
    nodes: Seq<SyntaxNode>,
    filters: Seq<CheckFilter>,
    i: int,
)
    requires
        ns_wf(nodes),
        0 <= i < filters.len(),
        filters[i] matches CheckFilter::IgnoreByFilePathRegex(r) && regex_found_in(r@, path),
    ensures
        check_file_spec(path, source, nodes, filters) == Ok::<Seq<CheckErrorView>, CheckViolation>(
            Seq::<CheckErrorView>::empty(),
        ),
{
    lemma_verdict_hit(filters, path, nodes, i);
}

/// A scope filter that matches a declared namespace, or a file-scoped
/// namespace written as `namespace X;`, empties the naming rule's result.
pub proof fn law_ignore_by_scope_on_file(
    path: Seq<char>,
    source: Seq<char>,
    nodes: Seq<SyntaxNode>,
    filters: Seq<CheckFilter>,
    i: int,
    j: int,
)
    requires
        ns_wf(nodes),
        0 <= i < filters.len(),
        filters[i] matches CheckFilter::IgnoreByNameSpaceRegex(r) && scope_hit_at(nodes, r@, j),
    ensures
        check_file_spec(path, source, nodes, filters) == Ok::<Seq<CheckErrorView>, CheckViolation>(
            Seq::<CheckErrorView>::empty(),
        ),
{
    match filters[i] {
        CheckFilter::IgnoreByNameSpaceRegex(r) => {
            lemma_scope_hit(nodes, r@, j);
        },
        _ => {},
    }
    lemma_verdict_hit(filters, path, nodes, i);
}

/// A marker-carrying change as the history collaborator owes it: its blob
/// exists, decodes as text, and its recorded byte range fits.
pub open spec fn change_wf(c: Change, blobs: Seq<Blob>) -> bool {
    marker_change(c) ==> match blob_lookup(blobs, c.blob_id) {
        Option::Some(bytes) => valid_utf8(bytes) && change_range_valid(c, bytes),
        Option::None => false,
    }
}

/// Every change of the file is well formed.
pub open spec fn changes_wf(changes: Seq<Change>, blobs: Seq<Blob>) -> bool {
    forall|i: int| 0 <= i < changes.len() ==> change_wf(#[trigger] changes[i], blobs)
}

/// A commit as the history collaborator owes it: a message whenever it
/// changes files, and well-formed changes.
pub open spec fn commit_wf(c: Commit, blobs: Seq<Blob>) -> bool {
    &&& (c.changed_files@.len() > 0 ==> c.message is Some)
    &&& forall|i: int|
        0 <= i < c.changed_files@.len() ==> changes_wf(#[trigger] c.changed_files@[i].changes@, blobs)
}

/// A repository whose whole history is well formed.
pub open spec fn repo_wf(repo: Repository) -> bool {
    forall|i: int| 0 <= i < repo.commits@.len() ==> commit_wf(#[trigger] repo.commits@[i], repo.blobs@)
}

/// The number of marker-carrying changes in one file.
pub open spec fn markers_in_changes(changes: Seq<Change>) -> int
    decreases changes.len(),
{
    if changes.len() == 0 {
        0
    } else {
        (if marker_change(changes[0]) {
            1int
        } else {
            0int
        }) + markers_in_changes(changes.drop_first())
    }
}

/// The number of marker-carrying changes in one commit.
pub open spec fn markers_in_files(files: Seq<ChangedFile>) -> int
    decreases files.len(),
{
    if files.len() == 0 {
        0
    } else {
        markers_in_changes(files[0].changes@) + markers_in_files(files.drop_first())
    }
}

/// The number of marker-carrying changes in the whole history.
pub open spec fn markers_in_commits(commits: Seq<Commit>) -> int
    decreases commits.len(),
{
    if commits.len() == 0 {
        0
    } else {
        markers_in_files(commits[0].changed_files@) + markers_in_commits(commits.drop_first())
    }
}

proof fn lemma_changes_count(
    changes: Seq<Change>,
    blobs: Seq<Blob>,
    path: Seq<char>,
    id: Seq<char>,
    msg: Seq<char>,
)
    requires
        changes_wf(changes, blobs),
    ensures
        changes_diags(changes, blobs, path, id, msg) matches Ok(ds) && ds.len()
            == markers_in_changes(changes),
    decreases changes.len(),
{
    if changes.len() > 0 {
        let rest = changes.drop_first();
        assert forall|i: int| 0 <= i < rest.len() implies change_wf(#[trigger] rest[i], blobs) by {
            assert(rest[i] == changes[i + 1]);
        }
        lemma_changes_count(rest, blobs, path, id, msg);
        assert(change_wf(changes[0], blobs));
    }
}

proof fn lemma_files_scan_ok(
    files: Seq<ChangedFile>,
    filters: Seq<CheckFilter>,
    blobs: Seq<Blob>,
    id: Seq<char>,
    message: Option<String>,
)
    requires
        files.len() > 0 ==> message is Some,
        forall|i: int| 0 <= i < files.len() ==> changes_wf(#[trigger] files[i].changes@, blobs),
    ensures
        files_scan(files, filters, blobs, id, message) is Ok,
    decreases files.len(),
{
    if files.len() > 0 {
        let rest = files.drop_first();
        assert forall|i: int|
            0 <= i < rest.len() implies changes_wf(#[trigger] rest[i].changes@, blobs) by {
            assert(rest[i] == files[i + 1]);
        }
        lemma_files_scan_ok(rest, filters, blobs, id, message);
        if !path_filter_match(filters, files[0].file_path@) {
            match message {
                Option::Some(m) => {
                    assert(changes_wf(files[0].changes@, blobs));
                    lemma_changes_count(files[0].changes@, blobs, files[0].file_path@, id, m@);
                },
                Option::None => {},
            }
        }
    }
}

proof fn lemma_files_count(
    files: Seq<ChangedFile>,
    filters: Seq<CheckFilter>,
    blobs: Seq<Blob>,
    id: Seq<char>,
    message: Option<String>,
)
    requires
        files.len() > 0 ==> message is Some,
        forall|i: int| 0 <= i < files.len() ==> changes_wf(#[trigger] files[i].changes@, blobs),
        forall|i: int|
            0 <= i < files.len() ==> !path_filter_match(filters, #[trigger] files[i].file_path@),
    ensures
        files_scan(files, filters, blobs, id, message) matches Ok(o) && (o matches Option::Some(ds)
            && ds.len() == markers_in_files(files)),
    decreases files.len(),
{
    if files.len() > 0 {
        let rest = files.drop_first();
        assert forall|i: int|
            0 <= i < rest.len() implies changes_wf(#[trigger] rest[i].changes@, blobs)
            && !path_filter_match(filters, rest[i].file_path@) by {
            assert(rest[i] == files[i + 1]);
        }
        lemma_files_count(rest, filters, blobs, id, message);
        assert(!path_filter_match(filters, files[0].file_path@));
        match message {
            Option::Some(m) => {
                assert(changes_wf(files[0].changes@, blobs));
                lemma_changes_count(files[0].changes@, blobs, files[0].file_path@, id, m@);
            },
            Option::None => {},
        }
    }
}

proof fn lemma_commits_count(commits: Seq<Commit>, filters: Seq<CheckFilter>, blobs: Seq<Blob>)
    requires
        forall|i: int| 0 <= i < commits.len() ==> commit_wf(#[trigger] commits[i], blobs),
        forall|k: int, j: int|
            0 <= k < commits.len() && 0 <= j < commits[k].changed_files@.len()
                ==> !path_filter_match(
                filters,
                #[trigger] commits[k].changed_files@[j].file_path@,
            ),
    ensures
        commits_scan(commits, filters, blobs) matches Ok(o) && (o matches Option::Some(ds)
            && ds.len() == markers_in_commits(commits)),
    decreases commits.len(),
{
    if commits.len() > 0 {
        let rest = commits.drop_first();
        assert forall|i: int| 0 <= i < rest.len() implies commit_wf(#[trigger] rest[i], blobs) by {
            assert(rest[i] == commits[i + 1]);
        }
        assert forall|k: int, j: int|
            0 <= k < rest.len() && 0 <= j < rest[k].changed_files@.len()
                implies !path_filter_match(
            filters,
            #[trigger] rest[k].changed_files@[j].file_path@,
        ) by {
            assert(rest[k] == commits[k + 1]);
        }
        lemma_commits_count(rest, filters, blobs);
        let c = commits[0];
        assert(commit_wf(c, blobs));
        assert forall|j: int|
            0 <= j < c.changed_files@.len() implies !path_filter_match(
            filters,
            #[trigger] c.changed_files@[j].file_path@,
        ) by {
            assert(commits[0].changed_files@[j].file_path@ == c.changed_files@[j].file_path@);
        }
        lemma_files_count(c.changed_files@, filters, blobs, c.id@, c.message);
    }
}

/// With no suppression anywhere and a well-formed history, the history rule
/// returns exactly one diagnostic per marker-carrying change.
pub proof fn law_markers_reported_per_change(repo: Repository, filters: Seq<CheckFilter>)
    requires
        repo_wf(repo),
        forall|k: int, j: int|
            0 <= k < repo.commits@.len() && 0 <= j < repo.commits@[k].changed_files@.len()
                ==> !path_filter_match(
                filters,
                #[trigger] repo.commits@[k].changed_files@[j].file_path@,
            ),
    ensures
        check_git_spec(repo, filters) matches Ok(ds) && ds.len() == markers_in_commits(
            repo.commits@,
        ),
{
    lemma_commits_count(repo.commits@, filters, repo.blobs@);
}

/// The raw bytes of the blob a change refers to.
pub open spec fn blob_bytes(blobs: Seq<Blob>, id: u64) -> Seq<u8> {
    match blob_lookup(blobs, id) {
        Option::Some(bytes) => bytes,
        Option::None => Seq::<u8>::empty(),
    }
}

/// The decoded text of the blob a change refers to.
pub open spec fn blob_text(blobs: Seq<Blob>, id: u64) -> Seq<char> {
    decode_utf8(blob_bytes(blobs, id))
}

/// The range a history diagnostic annotates — byte offsets into the
/// historical blob's content, not the current file's — drops the final
/// line-terminator byte of the recorded range and then starts past the
/// leading run of white space: it stays on a character boundary inside the
/// recorded range, every character beginning before the displayed start is
/// white space, and the character at the displayed start, when the range is
/// not empty, is not.
pub proof fn law_display_range_trimmed(
    c: Change,
    blobs: Seq<Blob>,
    path: Seq<char>,
    id: Seq<char>,
    msg: Seq<char>,
)
    requires
        blob_lookup(blobs, c.blob_id) is Some,
        valid_utf8(blob_bytes(blobs, c.blob_id)),
        change_range_valid(c, blob_bytes(blobs, c.blob_id)),
    ensures
        ({
            let bytes = blob_bytes(blobs, c.blob_id);
            let display_end = c.content_range.end - 1;
            let display_start = skip_ws_bytes(bytes, c.content_range.start as int, display_end);
            &&& change_diag(c, blobs, path, id, msg) == Ok::<CheckErrorView, CheckViolation>(
                (CheckErrorView {
                    message: rendered(
                        todo_title(),
                        blob_text(blobs, c.blob_id),
                        path,
                        display_start,
                        display_end,
                        todo_help_spec(id, msg),
                    ),
                    provenance: crate::check_error::ProvenanceView::CommitId(id),
                }),
            )
            &&& c.content_range.start <= display_start <= display_end
            &&& is_char_boundary(bytes, display_start)
            &&& forall|p: int|
                c.content_range.start <= p < display_start && is_char_boundary(bytes, p)
                    ==> is_ws_code(#[trigger] decode_first_scalar(bytes.skip(p)))
            &&& display_start < display_end ==> !is_ws_code(
                decode_first_scalar(bytes.skip(display_start)),
            )
        }),
{
    let bytes = blob_bytes(blobs, c.blob_id);
    lemma_skip_ws_bytes(bytes, c.content_range.start as int, c.content_range.end - 1);
}

proof fn lemma_files_suppressed(
    files: Seq<ChangedFile>,
    filters: Seq<CheckFilter>,
    blobs: Seq<Blob>,
    id: Seq<char>,
    message: Option<String>,
    j: int,
)
    requires
        files.len() > 0 ==> message is Some,
        forall|i: int| 0 <= i < files.len() ==> changes_wf(#[trigger] files[i].changes@, blobs),
        0 <= j < files.len(),
        path_filter_match(filters, files[j].file_path@),
    ensures
        files_scan(files, filters, blobs, id, message) == Ok::<
            Option<Seq<CheckErrorView>>,
            CheckViolation,
        >(Option::None),
    decreases j,
{
    if path_filter_match(filters, files[0].file_path@) {
    } else {
        let rest = files.drop_first();
        assert forall|i: int|
            0 <= i < rest.len() implies changes_wf(#[trigger] rest[i].changes@, blobs) by {
            assert(rest[i] == files[i + 1]);
        }
        assert(rest[j - 1] == files[j]);
        match message {
            Option::Some(m) => {
                assert(changes_wf(files[0].changes@, blobs));
                lemma_changes_count(files[0].changes@, blobs, files[0].file_path@, id, m@);
            },
            Option::None => {},
        }
        lemma_files_suppressed(rest, filters, blobs, id, message, j - 1);
    }
}

proof fn lemma_commits_suppressed(
    commits: Seq<Commit>,
    filters: Seq<CheckFilter>,
    blobs: Seq<Blob>,
    k: int,
    j: int,
)
    requires
        forall|i: int| 0 <= i < commits.len() ==> commit_wf(#[trigger] commits[i], blobs),
        0 <= k < commits.len(),
        0 <= j < commits[k].changed_files@.len(),
        path_filter_match(filters, commits[k].changed_files@[j].file_path@),
    ensures
        commits_scan(commits, filters, blobs) == Ok::<
            Option<Seq<CheckErrorView>>,
            CheckViolation,
        >(Option::None),
    decreases k,
{
    let c = commits[0];
    assert(commit_wf(c, blobs));
    if k == 0 {
        lemma_files_suppressed(c.changed_files@, filters, blobs, c.id@, c.message, j);
    } else {
        lemma_files_scan_ok(c.changed_files@, filters, blobs, c.id@, c.message);
        match files_scan(c.changed_files@, filters, blobs, c.id@, c.message) {
            Ok(Option::None) => {},
            Ok(Option::Some(_ds)) => {
                let rest = commits.drop_first();
                assert forall|i: int|
                    0 <= i < rest.len() implies commit_wf(#[trigger] rest[i], blobs) by {
                    assert(rest[i] == commits[i + 1]);
                }
                assert(rest[k - 1] == commits[k]);
                lemma_commits_suppressed(rest, filters, blobs, k - 1, j);
            },
            Err(_) => {
                assert(false);
            },
        }
    }
}

/// A path filter that matches any single changed file's path, anywhere in
/// the commit sequence, discards the history rule's entire result set — not
/// just that file's findings.
pub proof fn law_ignored_path_discards_history(
    repo: Repository,
    filters: Seq<CheckFilter>,
    k: int,
    j: int,
)
    requires
        repo_wf(repo),
        0 <= k < repo.commits@.len(),
        0 <= j < repo.commits@[k].changed_files@.len(),
        path_filter_match(filters, repo.commits@[k].changed_files@[j].file_path@),
    ensures
        check_git_spec(repo, filters) == Ok::<Seq<CheckErrorView>, CheckViolation>(
            Seq::<CheckErrorView>::empty(),
        ),
{
    lemma_commits_suppressed(repo.commits@, filters, repo.blobs@, k, j);
}

} // verus!
