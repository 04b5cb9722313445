//! Marshalling layer for an embedded web-rendering engine.
//!
//! Every value that crosses into the engine is first reduced to the plain
//! form the engine's C interface takes: flags become bytes, sizes become
//! 32-bit integers, text becomes a NUL-free byte string. What comes back,
//! C strings in fixed buffers and pixel bytes, is read into Rust values.
//! The functions here compute those forms and state exactly what they are;
//! making the calls is left to the caller.

pub mod renderbuffer;
pub mod string;
pub mod webcore;
pub mod webview;

pub use renderbuffer::{
    awe_renderbuffer_get_buffer, awe_renderbuffer_get_buffer_slice, awe_renderbuffer_get_height,
    awe_renderbuffer_get_width, pixel_count, AweRenderBuffer, Pixel,
};
pub use string::{
    awe_string_create_from_ascii, awe_string_empty, c_text, has_nul, text_from_buffer, AweString,
};
pub use webcore::{
    awe_webcore_create_webview, awe_webcore_initialize, awe_webcore_initialize_default,
    awe_webcore_set_base_directory, check_text, to_flag_byte, CreateWebviewArguments,
    InitializeArguments, InitializeParams, LogLevel,
};
pub use webview::{console_message, AweWebView, ConsoleMessage, ViewCall, CONSOLE_TEXT_CAPACITY};
