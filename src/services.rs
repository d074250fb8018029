//! Pure computations of outside crates that the pipeline relies on: the
//! markdown renderer and the base64 decoder. Their results are named, since
//! they depend on their input alone but take far more than a few lines to
//! state.

use vstd::prelude::*;
use base64::Engine;

verus! {

/// The syntax-highlighted HTML that comrak renders for a markdown text.
pub uninterp spec fn markdown_html(md: Seq<char>) -> Seq<char>;

/// The bytes that a standard-alphabet, padded base64 text decodes to, if it
/// is valid.
pub uninterp spec fn base64_decoded(text: Seq<char>) -> Option<Seq<u8>>;

/// Relies on comrak::markdown_to_html_with_plugins, with default options and
/// syntect highlighting of code fences in the "Solarized (dark)" theme: the
/// HTML depends on the markdown text alone.
#[verifier::external_body]
pub(crate) fn md2html(md: &str) -> (r: String)
    ensures
        r@ == markdown_html(md@),
{
    let adapter = comrak::plugins::syntect::SyntectAdapter::new(Some("Solarized (dark)"));
    let options = comrak::Options::default();
    let mut plugins = comrak::Plugins::default();
    plugins.render.codefence_syntax_highlighter = Some(&adapter);
    comrak::markdown_to_html_with_plugins(md, &options, &plugins)
}

/// Relies on base64's `STANDARD` engine `decode`: it succeeds exactly on
/// valid standard base64, and the bytes depend on the text alone.
#[verifier::external_body]
pub(crate) fn decode_base64(text: &str) -> (r: Option<Vec<u8>>)
    ensures
        match r {
            Some(bytes) => base64_decoded(text@) == Some(bytes@),
            None => base64_decoded(text@) is None,
        },
{
    base64::engine::general_purpose::STANDARD.decode(text).ok()
}

} // verus!
