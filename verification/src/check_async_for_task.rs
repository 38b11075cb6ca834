//! The naming-convention rule: any method or local function whose declared
//! return type mentions `Task` must carry a name ending in `Async`.

use vstd::prelude::*;
use vstd::string::StrSliceExecFns;
use vstd::string::StringSliceAdditionalSpecFns;
use vstd::utf8::encode_utf8;
use vstd::utf8::is_char_boundary;

use crate::check::Check;
use crate::check_error::errors_view;
use crate::check_error::result_view;
use crate::check_error::CheckError;
use crate::check_error::CheckErrorView;
use crate::check_error::CheckViolation;
use crate::check_error::Provenance;
use crate::check_error::ProvenanceView;
use crate::contexts::CheckContext;
use crate::filters::regex_found_in;
use crate::filters::CheckFilter;
use crate::filters::CompiledRegex;
use crate::parse_tree::parse_nodes;
use crate::parse_tree::parse_of;
use crate::parse_tree::SyntaxNode;
use crate::render::render_diagnostic;
use crate::render::rendered;
use crate::text::contains_spec;
use crate::text::ends_with_spec;
use crate::text::starts_with_spec;
use crate::text::str_concat3;
use crate::text::str_contains;
use crate::text::str_ends_with;
use crate::text::str_eq;
use crate::text::str_starts_with;
use crate::text::str_trim;
use crate::text::str_trim_end_matches;
use crate::text::str_trim_start_matches;
use crate::text::trim_end_matches_spec;
use crate::text::trim_spec;
use crate::text::trim_start_matches_spec;

verus! {

/// The title of every diagnostic this rule emits.
pub open spec fn async_title() -> Seq<char> {
    "expected postfix Async for method that returns Task"@
}

/// The help footer for a declaration named `name`: the corrected name.
pub open spec fn async_help_spec(name: Seq<char>) -> Seq<char> {
    "consider "@ + name + "Async"@
}

/// Whether a node kind is a method declaration or a local function.
pub open spec fn is_method_kind(k: Seq<char>) -> bool {
    k == "method_declaration"@ || k == "local_function_statement"@
}

/// Whether a node declares a namespace: a block-scoped declaration, or the
/// file-scoped form (`namespace X;`) where the grammar models it as a
/// first-class node.
pub open spec fn is_ns_decl(n: SyntaxNode) -> bool {
    n.kind@ == "namespace_declaration"@ || n.kind@ == "file_scoped_namespace_declaration"@
}

/// Whether a node is a parse-error region that looks like a file-scoped
/// namespace declaration (`namespace X;`), a form the parser does not model
/// as a first-class node.
pub open spec fn is_ns_fallback(n: SyntaxNode) -> bool {
    n.kind@ == "ERROR"@ && starts_with_spec(trim_spec(n.text@), "namespace"@)
}

/// The namespace name recovered from a file-scoped declaration's raw text:
/// the leading `namespace ` and the trailing `;` are stripped.
pub open spec fn fallback_ns_name(text: Seq<char>) -> Seq<char> {
    trim_end_matches_spec(trim_start_matches_spec(text, "namespace "@), ';')
}

/// Scan the declared namespaces in order for one whose name the scope
/// pattern matches.  A declaration without a name field is a collaborator
/// contract violation and aborts the scan.
pub open spec fn scope_match_decls(nodes: Seq<SyntaxNode>, pat: Seq<char>) -> Result<
    bool,
    CheckViolation,
>
    decreases nodes.len(),
{
    if nodes.len() == 0 {
        Ok(false)
    } else if is_ns_decl(nodes[0]) {
        match nodes[0].name_field {
            Option::None => Err(CheckViolation::MissingTreeField),
            Option::Some(f) => if regex_found_in(pat, f.text@) {
                Ok(true)
            } else {
                scope_match_decls(nodes.drop_first(), pat)
            },
        }
    } else {
        scope_match_decls(nodes.drop_first(), pat)
    }
}

/// Scan the parse-error fallback nodes in order for a recovered file-scoped
/// namespace name the scope pattern matches.
pub open spec fn scope_match_fallback(nodes: Seq<SyntaxNode>, pat: Seq<char>) -> bool
    decreases nodes.len(),
{
    if nodes.len() == 0 {
        false
    } else if is_ns_fallback(nodes[0]) && regex_found_in(pat, fallback_ns_name(nodes[0].text@)) {
        true
    } else {
        scope_match_fallback(nodes.drop_first(), pat)
    }
}

/// Whether a scope pattern matches any namespace of the file: first the
/// declared namespaces, then the file-scoped fallbacks.
pub open spec fn scope_match(nodes: Seq<SyntaxNode>, pat: Seq<char>) -> Result<
    bool,
    CheckViolation,
> {
    match scope_match_decls(nodes, pat) {
        Err(e) => Err(e),
        Ok(b) => if b {
            Ok(true)
        } else {
            Ok(scope_match_fallback(nodes, pat))
        },
    }
}

/// Whether some filter, taken in order, suppresses this file: a path filter
/// matching the file's path, or a scope filter matching a namespace.
pub open spec fn filters_verdict(
    filters: Seq<CheckFilter>,
    path: Seq<char>,
    nodes: Seq<SyntaxNode>,
) -> Result<bool, CheckViolation>
    decreases filters.len(),
{
    if filters.len() == 0 {
        Ok(false)
    } else {
        match filters[0] {
            CheckFilter::IgnoreByFilePathRegex(r) => if regex_found_in(r@, path) {
                Ok(true)
            } else {
                filters_verdict(filters.drop_first(), path, nodes)
            },
            CheckFilter::IgnoreByNameSpaceRegex(r) => match scope_match(nodes, r@) {
                Err(e) => Err(e),
                Ok(b) => if b {
                    Ok(true)
                } else {
                    filters_verdict(filters.drop_first(), path, nodes)
                },
            },
        }
    }
}

/// Whether a method or local-function node, with both required fields
/// present, violates the rule: its return type mentions `Task` and its name
/// does not end in `Async`.
pub open spec fn node_violates(n: SyntaxNode) -> bool {
    &&& is_method_kind(n.kind@)
    &&& n.type_field matches Option::Some(t) && contains_spec(t.text@, "Task"@)
    &&& n.name_field matches Option::Some(f) && !ends_with_spec(f.text@, "Async"@)
}

/// The diagnostic for a violating declaration whose name field is `f`: the
/// whole file is the snippet, the name's range is annotated, and the help
/// footer suggests the corrected name.
pub open spec fn method_diag(
    source: Seq<char>,
    path: Seq<char>,
    f: crate::parse_tree::NodeField,
) -> CheckErrorView {
    CheckErrorView {
        message: rendered(
            async_title(),
            source,
            path,
            f.start as int,
            f.end as int,
            async_help_spec(f.text@),
        ),
        provenance: ProvenanceView::FilePath(path),
    }
}

/// The diagnostics of the method scan, in tree order.  A method node missing
/// its type or name field, or a name range past the source's byte length or
/// off its character boundaries, is a collaborator contract violation and
/// aborts the scan.
pub open spec fn method_diags(nodes: Seq<SyntaxNode>, source: Seq<char>, path: Seq<char>) -> Result<
    Seq<CheckErrorView>,
    CheckViolation,
>
    decreases nodes.len(),
{
    if nodes.len() == 0 {
        Ok(Seq::<CheckErrorView>::empty())
    } else {
        let n = nodes[0];
        let rest = nodes.drop_first();
        if is_method_kind(n.kind@) {
            match (n.type_field, n.name_field) {
                (Option::Some(t), Option::Some(f)) => {
                    if contains_spec(t.text@, "Task"@) && !ends_with_spec(f.text@, "Async"@) {
                        if !(f.start <= f.end && f.end <= encode_utf8(source).len()
                            && is_char_boundary(encode_utf8(source), f.start as int)
                            && is_char_boundary(encode_utf8(source), f.end as int)) {
                            Err(CheckViolation::RangeOutOfBounds)
                        } else {
                            match method_diags(rest, source, path) {
                                Err(e) => Err(e),
                                Ok(ds) => Ok(seq![method_diag(source, path, f)] + ds),
                            }
                        }
                    } else {
                        method_diags(rest, source, path)
                    }
                },
                _ => Err(CheckViolation::MissingTreeField),
            }
        } else {
            method_diags(rest, source, path)
        }
    }
}

/// What this rule returns for a file: nothing when a filter suppresses it,
/// else one diagnostic per violating declaration, in source order.
pub open spec fn check_file_spec(
    path: Seq<char>,
    source: Seq<char>,
    nodes: Seq<SyntaxNode>,
    filters: Seq<CheckFilter>,
) -> Result<Seq<CheckErrorView>, CheckViolation> {
    match filters_verdict(filters, path, nodes) {
        Err(e) => Err(e),
        Ok(b) => if b {
            Ok(Seq::<CheckErrorView>::empty())
        } else {
            method_diags(nodes, source, path)
        },
    }
}

/// A prefix of already-emitted diagnostics joined with the outcome of the
/// remaining scan.
pub open spec fn with_prefix(
    prefix: Seq<CheckErrorView>,
    r: Result<Seq<CheckErrorView>, CheckViolation>,
) -> Result<Seq<CheckErrorView>, CheckViolation> {
    match r {
        Ok(ds) => Ok(prefix + ds),
        Err(e) => Err(e),
    }
}

fn scope_decls_match(nodes: &Vec<SyntaxNode>, pat: &CompiledRegex) -> (r: Result<
    bool,
    CheckViolation,
>)
    ensures
        r == scope_match_decls(nodes@, pat@),
{
    proof {
        assert(nodes@.subrange(0, nodes@.len() as int) =~= nodes@);
    }
    let mut i: usize = 0;
    while i < nodes.len()
        invariant
            0 <= i <= nodes@.len(),
            scope_match_decls(nodes@, pat@) == scope_match_decls(
                nodes@.subrange(i as int, nodes@.len() as int),
                pat@,
            ),
        decreases nodes@.len() - i,
    {
        proof {
            assert(nodes@.subrange(i as int, nodes@.len() as int).drop_first() =~= nodes@.subrange(
                i as int + 1,
                nodes@.len() as int,
            ));
        }
        let n = &nodes[i];
        if str_eq(n.kind.as_str(), "namespace_declaration") || str_eq(
            n.kind.as_str(),
            "file_scoped_namespace_declaration",
        ) {
            match &n.name_field {
                Option::None => {
                    return Err(CheckViolation::MissingTreeField);
                },
                Option::Some(f) => {
                    if pat.is_found_in(f.text.as_str()) {
                        return Ok(true);
                    }
                },
            }
        }
        i = i + 1;
    }
    Ok(false)
}

fn scope_fallback_match(nodes: &Vec<SyntaxNode>, pat: &CompiledRegex) -> (r: bool)
    ensures
        r == scope_match_fallback(nodes@, pat@),
{
    proof {
        assert(nodes@.subrange(0, nodes@.len() as int) =~= nodes@);
    }
    let mut i: usize = 0;
    while i < nodes.len()
        invariant
            0 <= i <= nodes@.len(),
            scope_match_fallback(nodes@, pat@) == scope_match_fallback(
                nodes@.subrange(i as int, nodes@.len() as int),
                pat@,
            ),
        decreases nodes@.len() - i,
    {
        proof {
            assert(nodes@.subrange(i as int, nodes@.len() as int).drop_first() =~= nodes@.subrange(
                i as int + 1,
                nodes@.len() as int,
            ));
        }
        let n = &nodes[i];
        if str_eq(n.kind.as_str(), "ERROR") && str_starts_with(
            str_trim(n.text.as_str()),
            "namespace",
        ) {
            let name = str_trim_end_matches(
                str_trim_start_matches(n.text.as_str(), "namespace "),
                ';',
            );
            if pat.is_found_in(name) {
                return true;
            }
        }
        i = i + 1;
    }
    false
}

fn filters_check(filters: &Vec<CheckFilter>, path: &String, nodes: &Vec<SyntaxNode>) -> (r: Result<
    bool,
    CheckViolation,
>)
    ensures
        r == filters_verdict(filters@, path@, nodes@),
{
    proof {
        assert(filters@.subrange(0, filters@.len() as int) =~= filters@);
    }
    let mut i: usize = 0;
    while i < filters.len()
        invariant
            0 <= i <= filters@.len(),
            filters_verdict(filters@, path@, nodes@) == filters_verdict(
                filters@.subrange(i as int, filters@.len() as int),
                path@,
                nodes@,
            ),
        decreases filters@.len() - i,
    {
        proof {
            assert(filters@.subrange(i as int, filters@.len() as int).drop_first()
                =~= filters@.subrange(i as int + 1, filters@.len() as int));
        }
        match &filters[i] {
            CheckFilter::IgnoreByFilePathRegex(re) => {
                if re.is_found_in(path.as_str()) {
                    return Ok(true);
                }
            },
            CheckFilter::IgnoreByNameSpaceRegex(re) => {
                match scope_decls_match(nodes, re) {
                    Err(e) => {
                        return Err(e);
                    },
                    Ok(b) => {
                        if b {
                            return Ok(true);
                        }
                        if scope_fallback_match(nodes, re) {
                            return Ok(true);
                        }
                    },
                }
            },
        }
        i = i + 1;
    }
    Ok(false)
}

fn methods_scan(nodes: &Vec<SyntaxNode>, source: &String, path: &String) -> (r: Result<
    Vec<CheckError>,
    CheckViolation,
>)
    ensures
        result_view(r) == method_diags(nodes@, source@, path@),
{
    proof {
        assert(nodes@.subrange(0, nodes@.len() as int) =~= nodes@);
    }
    let src_len = source.as_str().as_bytes_vec().len();
    let mut out: Vec<CheckError> = Vec::new();
    let mut i: usize = 0;
    proof {
        assert(errors_view(out) =~= Seq::<CheckErrorView>::empty());
        match method_diags(nodes@, source@, path@) {
            Ok(ds) => {
                assert(errors_view(out) + ds =~= ds);
            },
            Err(_) => {},
        }
    }
    while i < nodes.len()
        invariant
            0 <= i <= nodes@.len(),
            src_len as int == encode_utf8(source@).len(),
            method_diags(nodes@, source@, path@) == with_prefix(
                errors_view(out),
                method_diags(nodes@.subrange(i as int, nodes@.len() as int), source@, path@),
            ),
        decreases nodes@.len() - i,
    {
        proof {
            assert(nodes@.subrange(i as int, nodes@.len() as int).drop_first() =~= nodes@.subrange(
                i as int + 1,
                nodes@.len() as int,
            ));
        }
        let ghost prev = errors_view(out);
        let n = &nodes[i];
        if str_eq(n.kind.as_str(), "method_declaration") || str_eq(
            n.kind.as_str(),
            "local_function_statement",
        ) {
            match (&n.type_field, &n.name_field) {
                (Option::Some(t), Option::Some(f)) => {
                    if str_contains(t.text.as_str(), "Task") && !str_ends_with(
                        f.text.as_str(),
                        "Async",
                    ) {
                        if !(f.start <= f.end && f.end <= src_len && source.as_str()
                            .is_char_boundary(f.start) && source.as_str().is_char_boundary(
                            f.end,
                        )) {
                            return Err(CheckViolation::RangeOutOfBounds);
                        }
                        let help = str_concat3("consider ", f.text.as_str(), "Async");
                        let message = render_diagnostic(
                            "expected postfix Async for method that returns Task",
                            source.as_str(),
                            path.as_str(),
                            f.start,
                            f.end,
                            help.as_str(),
                        );
                        let e = CheckError {
                            message,
                            provenance: Provenance::FilePath(path.clone()),
                        };
                        proof {
                            assert(e@ == method_diag(source@, path@, *f));
                        }
                        out.push(e);
                        proof {
                            assert(errors_view(out) =~= prev + seq![
                                method_diag(source@, path@, *f),
                            ]);
                            match method_diags(
                                nodes@.subrange(i as int + 1, nodes@.len() as int),
                                source@,
                                path@,
                            ) {
                                Ok(ds) => {
                                    assert(prev + (seq![method_diag(source@, path@, *f)] + ds)
                                        =~= (prev + seq![method_diag(source@, path@, *f)]) + ds);
                                },
                                Err(_) => {},
                            }
                        }
                    }
                },
                _ => {
                    return Err(CheckViolation::MissingTreeField);
                },
            }
        }
        i = i + 1;
    }
    proof {
        assert(nodes@.subrange(nodes@.len() as int, nodes@.len() as int) =~= Seq::<
            SyntaxNode,
        >::empty());
        assert(errors_view(out) + Seq::<CheckErrorView>::empty() =~= errors_view(out));
    }
    Ok(out)
}

/// The rule that any method or local function whose declared return type
/// mentions `Task` must carry a name ending in `Async`.
pub struct CheckAsyncForTask {}

impl CheckAsyncForTask {
    /// Run the rule on an already-parsed file: `nodes` is the node list the
    /// parser yields for `contents`.  Returns one diagnostic per method or
    /// local function whose declared type mentions `Task` and whose name
    /// does not end in `Async`, in source order — or nothing at all when a
    /// filter matches the file's path or one of its namespaces.
    pub fn check_parsed(
        path: &String,
        contents: &String,
        nodes: &Vec<SyntaxNode>,
        filters: &Vec<CheckFilter>,
    ) -> (r: Result<Vec<CheckError>, CheckViolation>)
        ensures
            result_view(r) == check_file_spec(path@, contents@, nodes@, filters@),
    {
        match filters_check(filters, path, nodes) {
            Err(e) => Err(e),
            Ok(b) => {
                if b {
                    let v: Vec<CheckError> = Vec::new();
                    proof {
                        assert(errors_view(v) =~= Seq::<CheckErrorView>::empty());
                    }
                    Ok(v)
                } else {
                    methods_scan(nodes, contents, path)
                }
            },
        }
    }
}

impl Check for CheckAsyncForTask {
    open spec fn check_spec(
        &self,
        context: &CheckContext,
        filters: &Vec<CheckFilter>,
        result: Result<Seq<CheckErrorView>, CheckViolation>,
    ) -> bool {
        match context {
            CheckContext::File(fc) => result == check_file_spec(
                fc.file_path@,
                fc.file_contents@,
                parse_of(fc.file_contents@),
                filters@,
            ),
            _ => result == Ok::<Seq<CheckErrorView>, CheckViolation>(
                Seq::<CheckErrorView>::empty(),
            ),
        }
    }

    fn execute_check(&self, context: &CheckContext, filters: &Vec<CheckFilter>) -> (result: Result<
        Vec<CheckError>,
        CheckViolation,
    >) {
        match context {
            CheckContext::File(fc) => {
                let nodes = parse_nodes(&fc.file_contents).unwrap();
                CheckAsyncForTask::check_parsed(&fc.file_path, &fc.file_contents, &nodes, filters)
            },
            _ => {
                let v: Vec<CheckError> = Vec::new();
                proof {
                    assert(errors_view(v) =~= Seq::<CheckErrorView>::empty());
                }
                Ok(v)
            },
        }
    }
}

} // verus!
