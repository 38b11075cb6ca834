//! The source-parser collaborator: a C# file's text is turned into a flat,
//! pre-order list of syntax nodes, each carrying its kind, its own source
//! text, and the source text and byte range of its `name` and `type` fields
//! when the grammar gives it those children.

use vstd::prelude::*;

verus! {

/// A named child of a syntax node: the byte range it occupies in the file's
/// text, and the text itself.
pub struct NodeField {
    pub start: usize,
    pub end: usize,
    pub text: String,
}

/// One node of the parsed tree, in pre-order position.  Parse errors surface
/// as nodes whose kind is `ERROR`, carrying their raw source slice as text.
pub struct SyntaxNode {
    pub kind: String,
    pub text: String,
    pub name_field: Option<NodeField>,
    pub type_field: Option<NodeField>,
}

#[verifier::external_type_specification]
#[verifier::external_body]
pub struct ExTsNode<'a>(tree_sitter::Node<'a>);

/// The node list that parsing `source` yields.  The parser is deterministic:
/// the same text parses to the same tree on every call.
pub uninterp spec fn parse_of(source: Seq<char>) -> Seq<SyntaxNode>;

/// The conversion half of [`parse_nodes`]: relies on the tree-sitter node
/// accessors to read one node's kind, its source slice, and its `name` and
/// `type` children off the parse tree.
#[verifier::external_body]
fn convert_node(contents: &String, n: tree_sitter::Node) -> SyntaxNode {
    let f = |c: tree_sitter::Node| NodeField {
        start: c.start_byte(), end: c.end_byte(), text: contents[c.byte_range()].to_string(),
    };
    SyntaxNode {
        kind: n.kind().to_string(), text: contents[n.byte_range()].to_string(),
        name_field: n.child_by_field_name("name").map(f),
        type_field: n.child_by_field_name("type").map(f),
    }
}

/// Relies on `tree_sitter::Parser::parse` with the grammar of
/// `tree_sitter_c_sharp`: parsing is a pure function of the source text, and
/// a tree always comes, since `parse` returns `None` only when no language
/// is assigned, no timeout is set and no cancellation flag exists — and the
/// body assigns the language and sets neither.
#[verifier::external_body]
pub fn parse_nodes(contents: &String) -> (r: Option<Vec<SyntaxNode>>)
    ensures
        r is Some,
        r matches Some(nodes) ==> nodes@ == parse_of(contents@),
{
    let mut parser = tree_sitter::Parser::new();
    parser.set_language(&tree_sitter_c_sharp::LANGUAGE.into()).ok()?;
    let tree = parser.parse(contents.as_str(), None)?;
    let (mut stack, mut out) = (vec![tree.root_node()], Vec::new());
    while let Some(n) = stack.pop() {
        out.push(convert_node(contents, n));
        for i in (0..n.child_count()).rev() { stack.push(n.child(i).unwrap()); }
    }
    Some(out)
}

} // verus!
