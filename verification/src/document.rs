//! The document synthesiser: markdown in, one self-contained page out, with
//! the math left for the typesetting engine inside the page.

use crate::text::{decimal, push_decimal};
use pulldown_cmark::{CowStr, Event, Options, Parser};
use vstd::prelude::*;

verus! {

/// `pulldown_cmark::Event`, one step of a parsed document. Its inside is not
/// looked at here: such a value is only carried from the parser to the
/// renderer.
#[verifier::external_type_specification]
#[verifier::external_body]
pub struct ExEvent<'a>(pulldown_cmark::Event<'a>);

/// The markdown extensions that the parser is asked for.
#[derive(Clone, Copy, Debug, PartialEq, Eq, Structural)]
pub struct Extensions {
    pub tables: bool,
    pub strikethrough: bool,
    pub math: bool,
}

/// One step of a parsed document, with what the synthesiser reads laid open:
/// text nodes and math spans carry their content, everything else passes
/// through as the parser made it.
#[derive(Debug, PartialEq)]
pub enum Piece {
    /// A text node.
    Text(String),
    /// An inline math span, without its delimiters.
    InlineMath(String),
    /// A display math span, without its delimiters.
    DisplayMath(String),
    /// Any other step, kept as the parser's own value.
    Markup(pulldown_cmark::Event<'static>),
}

/// What a `Piece` stands for in contracts.
pub enum PieceModel {
    Text(Seq<char>),
    InlineMath(Seq<char>),
    DisplayMath(Seq<char>),
    Markup(pulldown_cmark::Event<'static>),
}

impl View for Piece {
    type V = PieceModel;

    open spec fn view(&self) -> PieceModel {
        match *self {
            Piece::Text(t) => PieceModel::Text(t@),
            Piece::InlineMath(t) => PieceModel::InlineMath(t@),
            Piece::DisplayMath(t) => PieceModel::DisplayMath(t@),
            Piece::Markup(e) => PieceModel::Markup(e),
        }
    }
}

/// The models of a list of pieces.
pub open spec fn models(pieces: Seq<Piece>) -> Seq<PieceModel> {
    pieces.map_values(|p: Piece| p@)
}

/// The steps that `pulldown_cmark::Parser` yields for `source` with the given
/// extensions switched on and no other.
pub uninterp spec fn parsed_pieces(
    source: Seq<char>,
    tables: bool,
    strikethrough: bool,
    math: bool,
) -> Seq<PieceModel>;

/// The markup that `pulldown_cmark::html::push_html` writes for a run of steps.
pub uninterp spec fn rendered_html(pieces: Seq<PieceModel>) -> Seq<char>;

/// Calls `pulldown_cmark::Parser::new_ext` on `source`, with exactly the
/// extensions of `ext` enabled, and collects every step it yields. The result
/// is taken to depend on the text and the three switches alone.
#[verifier::external_body]
fn parse_pieces(source: &str, ext: &Extensions) -> (pieces: Vec<Piece>)
    ensures
        models(pieces@) == parsed_pieces(source@, ext.tables, ext.strikethrough, ext.math),
{
    let mut options = Options::empty();
    options.set(Options::ENABLE_TABLES, ext.tables);
    options.set(Options::ENABLE_STRIKETHROUGH, ext.strikethrough);
    options.set(Options::ENABLE_MATH, ext.math);
    Parser::new_ext(source, options).map(|event| match event {
        Event::Text(t) => Piece::Text(t.into_string()),
        Event::InlineMath(t) => Piece::InlineMath(t.into_string()),
        Event::DisplayMath(t) => Piece::DisplayMath(t.into_string()),
        other => Piece::Markup(other.into_static()),
    }).collect()
}

/// Calls `pulldown_cmark::html::push_html` on the steps that `pieces` stand
/// for, into an empty string. The result is taken to depend on the steps alone.
#[verifier::external_body]
fn render_pieces(pieces: Vec<Piece>) -> (html: String)
    ensures
        html@ == rendered_html(models(pieces@)),
{
    let events = pieces.into_iter().map(|piece| match piece {
        Piece::Text(t) => Event::Text(CowStr::from(t)),
        Piece::InlineMath(t) => Event::InlineMath(CowStr::from(t)),
        Piece::DisplayMath(t) => Event::DisplayMath(CowStr::from(t)),
        Piece::Markup(event) => event,
    });
    let mut html = String::new();
    pulldown_cmark::html::push_html(&mut html, events);
    html
}

/// A math span written back as the text it was parsed from: its content
/// between the delimiters that the typesetting engine looks for. Every other
/// step is left as it is.
pub open spec fn restore_math(piece: PieceModel) -> PieceModel {
    match piece {
        PieceModel::InlineMath(t) => PieceModel::Text("$"@ + t + "$"@),
        PieceModel::DisplayMath(t) => PieceModel::Text("$$"@ + t + "$$"@),
        other => other,
    }
}

/// `restore_math` on each step of a document.
pub open spec fn restore_all(pieces: Seq<PieceModel>) -> Seq<PieceModel> {
    pieces.map_values(|p: PieceModel| restore_math(p))
}

/// No math is left for the renderer: after the rewriting a document has as
/// many steps as before and none of them is a math span, so that rewriting
/// it once more changes nothing.
pub proof fn lemma_restored_has_no_math(pieces: Seq<PieceModel>)
    ensures
        restore_all(pieces).len() == pieces.len(),
        forall|i: int|
            0 <= i < pieces.len() ==> !(#[trigger] restore_all(pieces)[i] is InlineMath)
                && !(restore_all(pieces)[i] is DisplayMath),
        restore_all(restore_all(pieces)) == restore_all(pieces),
{
    assert(restore_all(restore_all(pieces)) =~= restore_all(pieces));
}

fn delimited(delimiter: &str, content: &String) -> (text: String)
    ensures
        text@ == delimiter@ + content@ + delimiter@,
{
    let mut text = String::from_str(delimiter);
    text.append(content.as_str());
    text.append(delimiter);
    text
}

/// Rewrites every math span of a document as literal text in its delimiters,
/// so that the renderer escapes it like any text and the typesetting engine
/// finds it in the page.
pub fn normalize_math(pieces: Vec<Piece>) -> (out: Vec<Piece>)
    ensures
        models(out@) == restore_all(models(pieces@)),
{
    let mut out = pieces;
    let mut i: usize = 0;
    while i < out.len()
        invariant
            i <= out.len(),
            out.len() == pieces.len(),
            forall|j: int| 0 <= j < i ==> out@[j]@ == restore_math(#[trigger] pieces@[j]@),
            forall|j: int| i <= j < out.len() ==> out@[j] == #[trigger] pieces@[j],
        decreases out.len() - i,
    {
        let restored = match &out[i] {
            Piece::InlineMath(t) => Some(delimited("$", t)),
            Piece::DisplayMath(t) => Some(delimited("$$", t)),
            _ => None,
        };
        match restored {
            Some(text) => {
                out.set(i, Piece::Text(text));
            },
            None => {},
        }
        i += 1;
    }
    assert(models(out@) =~= restore_all(models(pieces@)));
    out
}

/// The style sheet of every page: a narrow reading column, headings without a
/// rule of their own, monospace code, centred pictures no wider than the
/// column, tables that scroll sideways, and no scroll bar.
pub const STYLESHEET: &'static str = r#"
body {
    font-family: -apple-system, BlinkMacSystemFont, "Segoe UI", Roboto, Helvetica, Arial, sans-serif;
    line-height: 1.6; color: #24292e; background: #fff;
    margin: 0; padding: 16px; 
    text-align: justify; overflow-wrap: break-word;
    -webkit-font-smoothing: antialiased;
}
h1, h2, h3, h4 { 
    border-bottom: 1px solid #eaecef; padding-bottom: .3em; margin-top: 1.2em; font-weight: 600; 
}
pre, code { background-color: #f6f8fa; font-family: "SFMono-Regular", Consolas, monospace; }
pre { padding: 12px; overflow-x: auto; border-radius: 6px; font-size: 0.9em; }
code { padding: .2em .4em; border-radius: 3px; font-size: .9em; }
img { display: block; max-width: 100%; margin: 12px auto; border-radius: 4px; }
blockquote { border-left: 4px solid #dfe2e5; color: #6a737d; padding: 0 1em; margin: 0; }
table { display: block; overflow-x: auto; border-collapse: collapse; margin-bottom: 16px; font-size: 0.9em; }
th, td { border: 1px solid #dfe2e5; padding: 6px 10px; }
mjx-container[display="true"] { overflow-x: visible!important; margin: 1em 0!important; }
::-webkit-scrollbar { display: none; }
"#;

/// The page from its first character to the start of the style sheet.
pub const PAGE_HEAD: &'static str = r#"<!DOCTYPE html><html><head><meta charset="utf-8">
        <meta name="viewport" content="width=device-width, initial-scale=1">
        <style>"#;

/// From the end of the style sheet to the delay of the fallback timer: the
/// function that sets the completion signal, and the start of the timer call.
pub const SIGNAL_SCRIPT: &'static str = r#"</style>
        <script>
            function setDone() { document.body.setAttribute('data-ready', '1'); }
            setTimeout(setDone, "#;

/// From the delay of the fallback timer to the source of the typesetting
/// engine: its configuration, with the delimiters of inline and display math
/// and the hook that sets the completion signal once typesetting has ended,
/// well or badly.
pub const ENGINE_CONFIG: &'static str = r#");
            MathJax = {
                tex: { inlineMath: [['$', '$'], ['\\(', '\\)']], displayMath: [['$$', '$$']] },
                startup: { pageReady: () => MathJax.startup.defaultPageReady().then(setDone).catch(setDone) }
            };
        </script>
        <script>"#;

/// From the source of the typesetting engine to the body.
pub const BODY_OPEN: &'static str = r#"</script></head><body>"#;

/// The end of the page.
pub const PAGE_TAIL: &'static str = r#"</body></html>"#;

/// The delay after which a page sets its completion signal by itself, in
/// milliseconds, unless another is asked for.
pub const FALLBACK_MS: u32 = 4000;

impl Extensions {
    /// The extensions of every conversion: tables, strikethrough and math.
    pub fn standard() -> (ext: Extensions)
        ensures
            ext.tables && ext.strikethrough && ext.math,
    {
        Extensions { tables: true, strikethrough: true, math: true }
    }
}

/// The whole page around a rendered body: style sheet, completion signal with
/// its fallback delay, configuration and source of the typesetting engine,
/// then the body. The fixed parts name no address to fetch anything from.
pub open spec fn document_text(engine: Seq<char>, fallback_ms: nat, body: Seq<char>) -> Seq<char> {
    PAGE_HEAD@ + STYLESHEET@ + SIGNAL_SCRIPT@ + decimal(fallback_ms) + ENGINE_CONFIG@ + engine
        + BODY_OPEN@ + body + PAGE_TAIL@
}

/// The body of the page for `source`: the parsed document with its math
/// written back as text, rendered as markup.
pub open spec fn body_of(source: Seq<char>) -> Seq<char> {
    rendered_html(restore_all(parsed_pieces(source, true, true, true)))
}

/// Puts a rendered body into a complete page.
pub fn assemble_document(body: &str, engine: &str, fallback_ms: u32) -> (page: String)
    ensures
        page@ == document_text(engine@, fallback_ms as nat, body@),
{
    let mut page = String::from_str(PAGE_HEAD);
    page.append(STYLESHEET);
    page.append(SIGNAL_SCRIPT);
    push_decimal(&mut page, fallback_ms as u128);
    page.append(ENGINE_CONFIG);
    page.append(engine);
    page.append(BODY_OPEN);
    page.append(body);
    page.append(PAGE_TAIL);
    page
}

/// Renders the body of the page for `source` with the given extensions.
pub fn render_body(source: &str, ext: &Extensions) -> (body: String)
    ensures
        body@ == rendered_html(
            restore_all(parsed_pieces(source@, ext.tables, ext.strikethrough, ext.math)),
        ),
{
    let pieces = parse_pieces(source, ext);
    let restored = normalize_math(pieces);
    render_pieces(restored)
}

/// Synthesises the page for `source`: markdown with tables, strikethrough and
/// math, the math handed on to the typesetting engine whose source is
/// `engine`, and a completion signal that the page sets at the latest
/// `fallback_ms` milliseconds after it was loaded.
pub fn generate_html(source: &str, engine: &str, fallback_ms: u32) -> (page: String)
    ensures
        page@ == document_text(engine@, fallback_ms as nat, body_of(source@)),
{
    let ext = Extensions::standard();
    let body = render_body(source, &ext);
    assemble_document(body.as_str(), engine, fallback_ms)
}

} // verus!
