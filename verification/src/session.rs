//! What passes between the coordinator and the engine session: the calls the
//! coordinator asks for, and what comes back from them.

use crate::viewport::ViewportSpec;
use vstd::prelude::*;

verus! {

/// The expression that reads the completion signal of the loaded page.
pub const SIGNAL_EXPRESSION: &'static str = "document.body.getAttribute('data-ready')";

/// The expression that measures the page: the largest of the heights that
/// the body and the document report.
pub const HEIGHT_EXPRESSION: &'static str =
    "Math.max(document.body.scrollHeight, document.body.offsetHeight, document.documentElement.scrollHeight)";

/// The expression whose promise resolves once the fonts are loaded and one
/// animation frame has passed after that.
pub const PAINT_EXPRESSION: &'static str =
    "document.fonts.ready.then(() => new Promise(r => requestAnimationFrame(r)));";

/// The engine runs without a window.
pub const HEADLESS: bool = true;

/// Switches off the engine's sandbox.
pub const NO_SANDBOX: &'static str = "--no-sandbox";

/// Switches off GPU acceleration.
pub const DISABLE_GPU: &'static str = "--disable-gpu";

/// Hides the scroll bars.
pub const HIDE_SCROLLBARS: &'static str = "--hide-scrollbars";

/// The scheme in front of a local document's path.
pub const FILE_SCHEME: &'static str = "file://";

/// The texts of a list of literals.
pub open spec fn texts(list: Seq<&'static str>) -> Seq<Seq<char>> {
    list.map_values(|s: &'static str| s@)
}

/// The command line switches of every engine launch: no sandbox, no GPU, no
/// scroll bars.
pub open spec fn launch_flags() -> Seq<Seq<char>> {
    seq![NO_SANDBOX@, DISABLE_GPU@, HIDE_SCROLLBARS@]
}

/// Makes `launch_flags`.
pub fn launch_arguments() -> (arguments: Vec<&'static str>)
    ensures
        texts(arguments@) == launch_flags(),
{
    let mut arguments: Vec<&'static str> = Vec::new();
    arguments.push(NO_SANDBOX);
    arguments.push(DISABLE_GPU);
    arguments.push(HIDE_SCROLLBARS);
    assert(texts(arguments@) =~= launch_flags());
    arguments
}

/// The address under which the engine loads the document stored at `path`.
pub fn document_location(path: &str) -> (location: String)
    ensures
        location@ == FILE_SCHEME@ + path@,
{
    let mut location = String::from_str(FILE_SCHEME);
    location.append(path);
    location
}

/// How the picture is taken.
#[derive(Clone, Copy, Debug, PartialEq, Eq, Structural)]
pub struct CaptureSpec {
    /// Encoded without loss.
    pub lossless: bool,
    /// Quality asked of the encoder, out of 100.
    pub quality: u32,
    /// The whole page, not a clip of it.
    pub full_page: bool,
    /// Taken from the rendering surface rather than the view.
    pub from_surface: bool,
}

impl CaptureSpec {
    /// The capture of every conversion: the whole page, lossless, at the
    /// highest quality.
    pub open spec fn standard_spec() -> CaptureSpec {
        CaptureSpec { lossless: true, quality: 100, full_page: true, from_surface: true }
    }

    /// Makes `standard_spec`.
    pub fn standard() -> (spec: CaptureSpec)
        ensures
            spec == Self::standard_spec(),
    {
        CaptureSpec { lossless: true, quality: 100, full_page: true, from_surface: true }
    }
}

/// What came back from the call that the coordinator asked for last.
#[derive(Debug, PartialEq, Eq)]
pub enum Reply {
    /// The document was stored; its path.
    Stored(String),
    /// An engine was found; its path.
    EngineLocated(String),
    /// No engine was found.
    EngineMissing,
    /// The call returned, and there is nothing to report.
    Completed,
    /// The call failed; the text of its error.
    Failed(String),
    /// The completion signal was read as this text.
    Signal(String),
    /// The page reported this height.
    Height(u32),
    /// The picture, encoded.
    Image(Vec<u8>),
}

/// What a `Reply` stands for in contracts.
pub enum ReplyModel {
    Stored(Seq<char>),
    EngineLocated(Seq<char>),
    EngineMissing,
    Completed,
    Failed(Seq<char>),
    Signal(Seq<char>),
    Height(u32),
    Image(Seq<u8>),
}

impl View for Reply {
    type V = ReplyModel;

    open spec fn view(&self) -> ReplyModel {
        match *self {
            Reply::Stored(path) => ReplyModel::Stored(path@),
            Reply::EngineLocated(path) => ReplyModel::EngineLocated(path@),
            Reply::EngineMissing => ReplyModel::EngineMissing,
            Reply::Completed => ReplyModel::Completed,
            Reply::Failed(text) => ReplyModel::Failed(text@),
            Reply::Signal(text) => ReplyModel::Signal(text@),
            Reply::Height(h) => ReplyModel::Height(h),
            Reply::Image(bytes) => ReplyModel::Image(bytes@),
        }
    }
}

/// The call that the coordinator asks for next.
#[derive(Debug, PartialEq, Eq)]
pub enum Action {
    /// Store this document in a temporary file; answer with `Stored`.
    StoreDocument(String),
    /// Look for an engine; answer with `EngineLocated` or `EngineMissing`.
    LocateEngine,
    /// Start the engine at this path, with or without a window of its own,
    /// with these command line switches and a window of this size, and open
    /// a page in it.
    Launch {
        engine_path: String,
        headless: bool,
        window: ViewportSpec,
        arguments: Vec<&'static str>,
    },
    /// Override the page's viewport.
    SetViewport(ViewportSpec),
    /// Load this address and wait until the page is loaded.
    Navigate(String),
    /// Evaluate this expression in the page; answer with `Signal` where it
    /// gave text.
    ReadSignal(&'static str),
    /// Sleep for so many milliseconds.
    Sleep(u64),
    /// Evaluate this expression in the page; answer with `Height` where it
    /// gave a number.
    MeasureHeight(&'static str),
    /// Evaluate this expression in the page and wait for its promise.
    AwaitPaint(&'static str),
    /// Take the picture; answer with `Image`.
    Capture(CaptureSpec),
    /// The conversion is over: end the engine and remove the stored
    /// document. Nothing is asked after this.
    Teardown,
    /// The conversion is over and nothing is held.
    Stop,
}

/// What an `Action` stands for in contracts.
pub enum ActionModel {
    StoreDocument(Seq<char>),
    LocateEngine,
    Launch {
        engine_path: Seq<char>,
        headless: bool,
        window: ViewportSpec,
        arguments: Seq<Seq<char>>,
    },
    SetViewport(ViewportSpec),
    Navigate(Seq<char>),
    ReadSignal(Seq<char>),
    Sleep(u64),
    MeasureHeight(Seq<char>),
    AwaitPaint(Seq<char>),
    Capture(CaptureSpec),
    Teardown,
    Stop,
}

impl View for Action {
    type V = ActionModel;

    open spec fn view(&self) -> ActionModel {
        match *self {
            Action::StoreDocument(page) => ActionModel::StoreDocument(page@),
            Action::LocateEngine => ActionModel::LocateEngine,
            Action::Launch { engine_path, headless, window, arguments } => ActionModel::Launch {
                engine_path: engine_path@,
                headless,
                window,
                arguments: texts(arguments@),
            },
            Action::SetViewport(v) => ActionModel::SetViewport(v),
            Action::Navigate(location) => ActionModel::Navigate(location@),
            Action::ReadSignal(expression) => ActionModel::ReadSignal(expression@),
            Action::Sleep(ms) => ActionModel::Sleep(ms),
            Action::MeasureHeight(expression) => ActionModel::MeasureHeight(expression@),
            Action::AwaitPaint(expression) => ActionModel::AwaitPaint(expression@),
            Action::Capture(spec) => ActionModel::Capture(spec),
            Action::Teardown => ActionModel::Teardown,
            Action::Stop => ActionModel::Stop,
        }
    }
}

} // verus!
