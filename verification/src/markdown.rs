//! Markdown rendering, consumed as a capability from the `pulldown-cmark`
//! crate.
use vstd::prelude::*;

verus! {

/// The HTML fragment that the markdown renderer produces for `input`, with
/// strikethrough, tables, task lists and footnotes enabled. The result is a
/// function of the input text alone.
pub uninterp spec fn markdown_html(input: Seq<char>) -> Seq<char>;

/// Relies on `pulldown_cmark::Parser::new_ext` and
/// `pulldown_cmark::html::push_html`: renders the markdown text to an HTML
/// fragment, with a fixed set of extensions enabled (strikethrough, tables,
/// task lists, footnotes). Parsing and rendering are deterministic in the
/// input text.
#[verifier::external_body]
pub(crate) fn render_markdown(input: &str) -> (r: String)
    ensures
        r@ == markdown_html(input@),
{
    let mut options = pulldown_cmark::Options::empty();
    options.insert(pulldown_cmark::Options::ENABLE_STRIKETHROUGH);
    options.insert(pulldown_cmark::Options::ENABLE_TABLES);
    options.insert(pulldown_cmark::Options::ENABLE_TASKLISTS);
    options.insert(pulldown_cmark::Options::ENABLE_FOOTNOTES);
    let parser = pulldown_cmark::Parser::new_ext(input, options);
    let mut out = String::new();
    pulldown_cmark::html::push_html(&mut out, parser);
    out
}

} // verus!
