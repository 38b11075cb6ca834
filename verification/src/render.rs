//! The diagnostic-rendering collaborator: a structured diagnostic — a title,
//! one annotated source snippet, and a help footer — becomes a final display
//! string.

use vstd::prelude::*;
use vstd::utf8::encode_utf8;

verus! {

/// The display string that rendering yields for an error-level diagnostic
/// with title `title`, one snippet of `source` labelled `origin` whose range
/// `[start, end)` is annotated at error level with the title as its label,
/// and a help footer `help`.  Rendering is a pure function of these inputs.
pub uninterp spec fn rendered(
    title: Seq<char>,
    source: Seq<char>,
    origin: Seq<char>,
    start: int,
    end: int,
    help: Seq<char>,
) -> Seq<char>;

/// Relies on `annotate_snippets::Renderer::render`: `Renderer::styled()` is a
/// constant, so the rendered text is a function of the title, source, origin,
/// annotated range and help alone.  It panics on a range past the end of the
/// source, and it slices the source at the range's ends, so both must be
/// character boundaries of the source's UTF-8 encoding.
#[verifier::external_body]
pub fn render_diagnostic(
    title: &str,
    source: &str,
    origin: &str,
    start: usize,
    end: usize,
    help: &str,
) -> (r: String)
    requires
        start <= end,
        end <= encode_utf8(source@).len(),
        vstd::utf8::is_char_boundary(encode_utf8(source@), start as int),
        vstd::utf8::is_char_boundary(encode_utf8(source@), end as int),
    ensures
        r@ == rendered(title@, source@, origin@, start as int, end as int, help@),
{
    let renderer = annotate_snippets::Renderer::styled();
    let snippet = annotate_snippets::Snippet::source(source).origin(origin).fold(true).annotation(
        annotate_snippets::Level::Error.span(start..end).label(title),
    );
    let message = annotate_snippets::Level::Error.title(title).snippet(snippet).footer(
        annotate_snippets::Level::Help.title(help),
    );
    let text = renderer.render(message).to_string();
    text
}

} // verus!
