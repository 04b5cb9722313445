//! Text on its way to the engine.

use vstd::prelude::*;
use vstd::slice::slice_subrange;
use vstd::string::StringSliceAdditionalSpecFns;
use vstd::utf8::valid_utf8;

verus! {

/// The text of one engine string, ready to be handed over.
///
/// `None` stands for the engine's shared empty string; `Some(bytes)` for a
/// string the engine builds from `bytes`, which hold no NUL.
pub struct AweString {
    text: Option<Vec<u8>>,
}

/// Whether `bytes` can be passed as a C string: no byte of it is NUL.
pub open spec fn nul_free(bytes: Seq<u8>) -> bool {
    forall|i: int| 0 <= i < bytes.len() ==> bytes[i] != 0u8
}

impl View for AweString {
    type V = Option<Seq<u8>>;

    closed spec fn view(&self) -> Option<Seq<u8>> {
        match self.text {
            None => None,
            Some(bytes) => Some(bytes@),
        }
    }
}

impl AweString {
    /// Holds of every value this module builds: the bytes carry no NUL.
    pub open spec fn wf(&self) -> bool {
        self@ matches Some(bytes) ==> nul_free(bytes)
    }

    /// What converting `string` gives: the shared empty string where there
    /// is no text, else the string built from the text's bytes.
    pub open spec fn spec_from(string: Option<&str>) -> Option<Seq<u8>> {
        match string {
            None => None,
            Some(text) => Some(text.spec_bytes()),
        }
    }

    /// Converts optional text: absent text becomes the shared empty string,
    /// present text the string built from its bytes.
    pub fn from(string: Option<&str>) -> (r: AweString)
        requires
            string matches Some(text) ==> nul_free(text.spec_bytes()),
        ensures
            r@ == Self::spec_from(string),
            r.wf(),
    {
        match string {
            None => awe_string_empty(),
            Some(text) => awe_string_create_from_ascii(text),
        }
    }

    /// Converts text to the string built from its bytes.
    pub fn from_str(string: &str) -> (r: AweString)
        requires
            nul_free(string.spec_bytes()),
        ensures
            r@ == Some(string.spec_bytes()),
            r.wf(),
    {
        awe_string_create_from_ascii(string)
    }

    /// The bytes to build the engine string from, or `None` for the shared
    /// empty string.
    pub fn bytes(&self) -> (r: Option<&Vec<u8>>)
        ensures
            r is Some == self@ is Some,
            r matches Some(b) ==> self@ == Some(b@),
    {
        self.text.as_ref()
    }
}

/// Reports whether `text` holds a NUL byte, which no C string can carry.
pub fn has_nul(text: &str) -> (r: bool)
    ensures
        r == !nul_free(text.spec_bytes()),
{
    let bytes = text.as_bytes();
    let mut i: usize = 0;
    while i < bytes.len()
        invariant
            i <= bytes.len(),
            bytes@ == text.spec_bytes(),
            forall|j: int| 0 <= j < i ==> bytes@[j] != 0u8,
        decreases bytes.len() - i,
    {
        if bytes[i] == 0 {
            return true;
        }
        i += 1;
    }
    false
}

/// The engine's shared empty string.
pub fn awe_string_empty() -> (r: AweString)
    ensures
        r@ is None,
        r.wf(),
{
    AweString { text: None }
}

/// The engine string built from the bytes of `string`.
pub fn awe_string_create_from_ascii(string: &str) -> (r: AweString)
    requires
        nul_free(string.spec_bytes()),
    ensures
        r@ == Some(string.spec_bytes()),
        r.wf(),
{
    AweString { text: Some(string.as_bytes_vec()) }
}

/// Whether `text` is the C string that `buffer` starts with: the bytes of
/// `buffer` up to its first NUL, or all of them where it holds none.
pub open spec fn is_c_text(buffer: Seq<u8>, text: Seq<u8>) -> bool {
    &&& text.len() <= buffer.len()
    &&& text == buffer.take(text.len() as int)
    &&& nul_free(text)
    &&& text.len() < buffer.len() ==> buffer[text.len() as int] == 0u8
}

/// The C string that `buffer` starts with.
pub fn c_text(buffer: &[u8]) -> (r: &[u8])
    ensures
        is_c_text(buffer@, r@),
{
    let mut end: usize = 0;
    while end < buffer.len() && buffer[end] != 0
        invariant
            end <= buffer.len(),
            forall|j: int| 0 <= j < end ==> buffer@[j] != 0u8,
        decreases buffer.len() - end,
    {
        end += 1;
    }
    slice_subrange(buffer, 0, end)
}

/// Reads `bytes` as UTF-8 text with `core::str::from_utf8`, which gives
/// the text with exactly these bytes where they are valid UTF-8 and
/// nothing otherwise.
#[verifier::external_body]
fn utf8_text(bytes: &[u8]) -> (r: Option<&str>)
    ensures
        r is Some <==> valid_utf8(bytes@),
        r matches Some(text) ==> text.spec_bytes() == bytes@,
{
    core::str::from_utf8(bytes).ok()
}

/// The text that the engine wrote into `buffer` as a C string, if it is
/// valid UTF-8.
pub fn text_from_buffer(buffer: &[u8]) -> (r: Option<&str>)
    ensures
        r is Some <==> exists|text: Seq<u8>| is_c_text(buffer@, text) && valid_utf8(text),
        r matches Some(t) ==> is_c_text(buffer@, t.spec_bytes()),
{
    let bytes = c_text(buffer);
    proof {
        assert forall|text: Seq<u8>| is_c_text(buffer@, text) implies text == bytes@ by {
            lemma_c_text_unique(buffer@, text, bytes@);
        }
    }
    utf8_text(bytes)
}

/// A buffer starts with one C string only.
pub proof fn lemma_c_text_unique(buffer: Seq<u8>, a: Seq<u8>, b: Seq<u8>)
    requires
        is_c_text(buffer, a),
        is_c_text(buffer, b),
    ensures
        a == b,
{
    if a.len() < b.len() {
        assert(b[a.len() as int] == buffer[a.len() as int]);
    } else if b.len() < a.len() {
        assert(a[b.len() as int] == buffer[b.len() as int]);
    }
    assert(a =~= b);
}

} // verus!
