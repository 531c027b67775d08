//! Where the source text comes from, and when it is good enough to convert.

use crate::error::{default_message, ConversionError, ErrorKind, ErrorModel};
use vstd::prelude::*;

verus! {

/// How often the clipboard is read before giving up.
pub const CLIPBOARD_ATTEMPTS: u32 = 3;

/// Time between two readings of the clipboard, in milliseconds.
pub const CLIPBOARD_RETRY_MS: u64 = 100;

/// Whether `c` is white space: a character with the Unicode property
/// `White_Space`.
pub open spec fn is_whitespace(c: char) -> bool {
    let n = c as u32;
    ||| 0x09 <= n <= 0x0d
    ||| n == 0x20
    ||| n == 0x85
    ||| n == 0xa0
    ||| n == 0x1680
    ||| 0x2000 <= n <= 0x200a
    ||| n == 0x2028
    ||| n == 0x2029
    ||| n == 0x202f
    ||| n == 0x205f
    ||| n == 0x3000
}

/// Whether a text holds nothing but white space. The empty text is blank.
pub open spec fn blank(text: Seq<char>) -> bool {
    forall|i: int| 0 <= i < text.len() ==> is_whitespace(#[trigger] text[i])
}

/// Computes `is_whitespace`.
pub fn char_is_whitespace(c: char) -> (white: bool)
    ensures
        white == is_whitespace(c),
{
    let n: u32 = c as u32;
    (0x09 <= n && n <= 0x0d) || n == 0x20 || n == 0x85 || n == 0xa0 || n == 0x1680 || (0x2000 <= n
        && n <= 0x200a) || n == 0x2028 || n == 0x2029 || n == 0x202f || n == 0x205f || n == 0x3000
}

/// Whether `text` is blank.
pub fn is_blank(text: &str) -> (b: bool)
    ensures
        b == blank(text@),
{
    for c in it: text.chars()
        invariant
            it.seq() == text@,
            forall|i: int| 0 <= i < it.index() ==> is_whitespace(#[trigger] text@[i]),
    {
        if !char_is_whitespace(c) {
            assert(!is_whitespace(text@[it.index() as int]));
            return false;
        }
    }
    true
}

/// The guard before any work is done: a source text is taken as it is unless
/// it is blank, and a blank one is refused as unavailable input.
pub fn accept_source(text: String) -> (r: Result<String, ConversionError>)
    ensures
        match r {
            Ok(t) => !blank(text@) && t@ == text@,
            Err(e) => blank(text@) && e@ == (ErrorModel {
                kind: ErrorKind::InputUnavailable,
                message: default_message(ErrorKind::InputUnavailable),
            }),
        },
{
    if is_blank(text.as_str()) {
        Err(ConversionError::of_kind(ErrorKind::InputUnavailable))
    } else {
        Ok(text)
    }
}

/// What to do after one reading of the clipboard.
#[derive(Debug, PartialEq, Eq)]
pub enum ClipboardStep {
    /// The text is the source.
    Accept(String),
    /// Read again after so many milliseconds.
    Retry(u64),
    /// There is no source.
    Fail(ConversionError),
}

/// Decides after the `attempt`-th reading of the clipboard, counted from 1.
/// A reading that gave text is final, good or blank; one that gave none is
/// repeated after a pause until the attempts are used up.
pub fn clipboard_step(attempt: u32, reading: Option<String>) -> (step: ClipboardStep)
    ensures
        match step {
            ClipboardStep::Accept(t) => reading is Some && t@ == reading->0@ && !blank(t@),
            ClipboardStep::Retry(ms) => reading is None && attempt < CLIPBOARD_ATTEMPTS && ms
                == CLIPBOARD_RETRY_MS,
            ClipboardStep::Fail(e) => {
                &&& e@ == (ErrorModel {
                    kind: ErrorKind::InputUnavailable,
                    message: default_message(ErrorKind::InputUnavailable),
                })
                &&& match reading {
                    Some(t) => blank(t@),
                    None => attempt >= CLIPBOARD_ATTEMPTS,
                }
            },
        },
{
    match reading {
        Some(text) => match accept_source(text) {
            Ok(t) => ClipboardStep::Accept(t),
            Err(e) => ClipboardStep::Fail(e),
        },
        None => {
            if attempt < CLIPBOARD_ATTEMPTS {
                ClipboardStep::Retry(CLIPBOARD_RETRY_MS)
            } else {
                ClipboardStep::Fail(ConversionError::of_kind(ErrorKind::InputUnavailable))
            }
        },
    }
}

/// Where the source text is taken from.
#[derive(Clone, Copy, Debug, PartialEq, Eq, Structural)]
pub enum Origin {
    /// The file named on the command line.
    File,
    /// The text on the clipboard.
    Clipboard,
}

/// The origin of the source: the file where one is named and exists, the
/// clipboard in every other case.
pub fn choose_origin(file_named: bool, file_exists: bool) -> (origin: Origin)
    ensures
        origin == if file_named && file_exists {
            Origin::File
        } else {
            Origin::Clipboard
        },
{
    if file_named && file_exists {
        Origin::File
    } else {
        Origin::Clipboard
    }
}

/// The stem of the picture's name.
pub open spec fn stem_of(origin: Origin, file_stem: Option<Seq<char>>) -> Seq<char> {
    match origin {
        Origin::File => match file_stem {
            Some(stem) => stem,
            None => "output"@,
        },
        Origin::Clipboard => "Markdown_Clipboard"@,
    }
}

/// The stem under which the picture is stored: that of the source file, or
/// a standing one for a file without a stem and for the clipboard.
pub fn destination_stem(origin: Origin, file_stem: Option<&str>) -> (stem: String)
    ensures
        stem@ == stem_of(
            origin,
            match file_stem {
                Some(s) => Some(s@),
                None => None,
            },
        ),
{
    match origin {
        Origin::File => match file_stem {
            Some(stem) => String::from_str(stem),
            None => String::from_str("output"),
        },
        Origin::Clipboard => String::from_str("Markdown_Clipboard"),
    }
}

} // verus!
