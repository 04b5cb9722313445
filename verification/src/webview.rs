//! Calls on one view: what each hands to the engine.

use vstd::prelude::*;
use vstd::string::StringSliceAdditionalSpecFns;
use vstd::utf8::valid_utf8;
use crate::string::{is_c_text, nul_free, text_from_buffer, AweString};
use crate::webcore::{flag_byte, text_ok, to_flag_byte};

verus! {

/// One rendering surface of the engine, named by the address the engine
/// gave it. The view itself stays with the engine.
#[derive(Clone, Copy, Debug, PartialEq, Eq, Structural)]
pub struct AweWebView {
    web_view: usize,
}

/// A call on a view, with its arguments in the form the engine takes.
pub enum ViewCall {
    SetTransparent { view: usize, transparent: u8 },
    LoadFile { view: usize, path: AweString, frame_name: AweString },
    ExecuteJavascript { view: usize, javascript: AweString, frame_name: AweString },
}

impl ViewCall {
    /// Whether every engine string of the call is free of NUL.
    pub open spec fn wf(&self) -> bool {
        match self {
            ViewCall::SetTransparent { .. } => true,
            ViewCall::LoadFile { path, frame_name, .. } => path.wf() && frame_name.wf(),
            ViewCall::ExecuteJavascript { javascript, frame_name, .. } => javascript.wf()
                && frame_name.wf(),
        }
    }
}

impl AweWebView {
    /// The address the engine knows the view by.
    pub closed spec fn spec_address(&self) -> usize {
        self.web_view
    }

    /// Names the view that the engine keeps at `address`.
    pub fn from_address(address: usize) -> (r: AweWebView)
        ensures
            r.spec_address() == address,
    {
        AweWebView { web_view: address }
    }

    /// The address the engine knows the view by.
    pub fn address(&self) -> (r: usize)
        ensures
            r == self.spec_address(),
    {
        self.web_view
    }

    /// The call that makes the view's background transparent or opaque.
    pub fn set_transparent(&self, transparent: bool) -> (r: ViewCall)
        ensures
            r matches ViewCall::SetTransparent { view, transparent: byte }
                && view == self.spec_address() && byte == flag_byte(transparent),
    {
        ViewCall::SetTransparent { view: self.web_view, transparent: to_flag_byte(transparent) }
    }

    /// The call that loads the file at `path` into the view's main frame.
    /// The frame's name is not passed on: the engine gets its empty string.
    pub fn load_file(&self, path: &str, _frame_name: &str) -> (r: ViewCall)
        requires
            nul_free(path.spec_bytes()),
        ensures
            r matches ViewCall::LoadFile { view, path: p, frame_name: f } && view
                == self.spec_address() && p@ == Some(path.spec_bytes()) && f@ is None,
            r.wf(),
    {
        ViewCall::LoadFile {
            view: self.web_view,
            path: AweString::from_str(path),
            frame_name: crate::string::awe_string_empty(),
        }
    }

    /// What the engine's answer to "is a page loading" means: any byte but
    /// zero says yes.
    pub fn is_loading_page(&self, answer: u8) -> (r: bool)
        ensures
            r == (answer != 0),
    {
        answer != 0
    }

    /// The call that runs `javascript` in the named frame, or in the main
    /// frame where no name is given.
    pub fn execute_javascript(&self, javascript: &str, frame_name: Option<&str>) -> (r: ViewCall)
        requires
            nul_free(javascript.spec_bytes()),
            text_ok(frame_name),
        ensures
            r matches ViewCall::ExecuteJavascript { view, javascript: j, frame_name: f } && view
                == self.spec_address() && j@ == Some(javascript.spec_bytes()) && f@
                == AweString::spec_from(frame_name),
            r.wf(),
    {
        ViewCall::ExecuteJavascript {
            view: self.web_view,
            javascript: AweString::from_str(javascript),
            frame_name: AweString::from(frame_name),
        }
    }
}

/// The size in bytes of the buffer that each text of a console message is
/// received in.
pub const CONSOLE_TEXT_CAPACITY: usize = 200;

/// What a view reports when a script writes to the console.
pub struct ConsoleMessage<'a> {
    pub view: AweWebView,
    pub message: &'a str,
    pub line_number: i32,
    pub source: &'a str,
}

/// Whether `buffer` starts with a C string that is valid UTF-8.
pub open spec fn holds_text(buffer: Seq<u8>) -> bool {
    exists|text: Seq<u8>| is_c_text(buffer, text) && valid_utf8(text)
}

/// Puts together the console message that the view at `caller` reports,
/// from the buffers its two texts were received in. There is a message
/// exactly when both buffers hold text.
pub fn console_message<'a>(
    caller: usize,
    message: &'a [u8],
    line_number: i32,
    source: &'a [u8],
) -> (r: Option<ConsoleMessage<'a>>)
    ensures
        r is Some <==> holds_text(message@) && holds_text(source@),
        r matches Some(m) ==> m.view.spec_address() == caller && is_c_text(
            message@,
            m.message.spec_bytes(),
        ) && m.line_number == line_number && is_c_text(source@, m.source.spec_bytes()),
{
    match text_from_buffer(message) {
        None => None,
        Some(message_text) => match text_from_buffer(source) {
            None => None,
            Some(source_text) => Some(
                ConsoleMessage {
                    view: AweWebView::from_address(caller),
                    message: message_text,
                    line_number,
                    source: source_text,
                },
            ),
        },
    }
}

} // verus!
