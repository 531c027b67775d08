//! How a conversion fails: six kinds, each shown to the user as one message.

use vstd::prelude::*;

verus! {

/// The title of the dialog that shows a failure.
pub const DIALOG_TITLE: &'static str = "Md2Png 错误";

/// The kinds of failure. Each ends the conversion; none is tried again.
#[derive(Clone, Copy, Debug, PartialEq, Eq, Structural)]
pub enum ErrorKind {
    /// No source text: the clipboard is empty or cannot be read, the file
    /// cannot be read, or the text is blank.
    InputUnavailable,
    /// No rendering engine is installed where the locator looks.
    EngineNotFound,
    /// The engine did not start, or did not take its first viewport.
    EngineLaunchFailure,
    /// The engine did not load the document.
    NavigationFailure,
    /// The engine did not take the final viewport, did not settle its fonts,
    /// or did not hand over the picture.
    CaptureFailure,
    /// A file could not be written.
    OutputWriteFailure,
}

/// A failure with the message that is shown for it.
#[derive(Debug, PartialEq, Eq)]
pub struct ConversionError {
    pub kind: ErrorKind,
    pub message: String,
}

/// What a `ConversionError` stands for in contracts.
pub struct ErrorModel {
    pub kind: ErrorKind,
    pub message: Seq<char>,
}

impl View for ConversionError {
    type V = ErrorModel;

    open spec fn view(&self) -> ErrorModel {
        ErrorModel { kind: self.kind, message: self.message@ }
    }
}

/// The message of a failure that comes with no text of its own.
pub open spec fn default_message(kind: ErrorKind) -> Seq<char> {
    match kind {
        ErrorKind::InputUnavailable => "剪贴板为空或无法读取"@,
        ErrorKind::EngineNotFound => "未找到 Chrome 或 Edge 浏览器"@,
        ErrorKind::EngineLaunchFailure => "无法启动浏览器"@,
        ErrorKind::NavigationFailure => "无法加载文档"@,
        ErrorKind::CaptureFailure => "截图失败"@,
        ErrorKind::OutputWriteFailure => "无法写入文件"@,
    }
}

/// The message of `kind` where the failure brings none.
pub fn default_text(kind: ErrorKind) -> (text: &'static str)
    ensures
        text@ == default_message(kind),
{
    match kind {
        ErrorKind::InputUnavailable => "剪贴板为空或无法读取",
        ErrorKind::EngineNotFound => "未找到 Chrome 或 Edge 浏览器",
        ErrorKind::EngineLaunchFailure => "无法启动浏览器",
        ErrorKind::NavigationFailure => "无法加载文档",
        ErrorKind::CaptureFailure => "截图失败",
        ErrorKind::OutputWriteFailure => "无法写入文件",
    }
}

impl ConversionError {
    /// A failure of `kind` with the text that its cause gave.
    pub fn new(kind: ErrorKind, message: String) -> (error: ConversionError)
        ensures
            error@ == (ErrorModel { kind, message: message@ }),
    {
        ConversionError { kind, message }
    }

    /// A failure of `kind` with its standing message.
    pub fn of_kind(kind: ErrorKind) -> (error: ConversionError)
        ensures
            error@ == (ErrorModel { kind, message: default_message(kind) }),
    {
        ConversionError { kind, message: String::from_str(default_text(kind)) }
    }

    /// The one message that is shown to the user for this failure.
    pub fn message(&self) -> (text: String)
        ensures
            text@ == self@.message,
    {
        self.message.clone()
    }
}

} // verus!
