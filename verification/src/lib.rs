//! A symbol-demangling gateway.
//!
//! The library receives the bytes of a null-terminated symbol name, decodes
//! them as UTF-8 text, hands the text to the `rustc_demangle` crate, and
//! returns the rendered form as a freshly owned byte buffer, ready to be
//! re-encoded as a C string by a foreign-function layer. Every failure —
//! an absent input handle, bytes that are not valid UTF-8, or a rendering
//! that holds an interior zero byte and so cannot become a C string — maps
//! to `None`; the gateway never panics and never truncates.

use vstd::prelude::*;
use vstd::string::StrSliceExecFns;
use vstd::utf8::decode_utf8;
use vstd::utf8::encode_utf8;
use vstd::utf8::encode_utf8_decode_utf8;
use vstd::utf8::valid_utf8;

verus! {

/// The canonical textual rendering of a mangled symbol name, as the external
/// demangler defines it. The rendering is a function of the input text alone;
/// its exact shape is governed by the demangler's own grammar and is not
/// restated here.
pub uninterp spec fn rendering_of(mangled: Seq<char>) -> Seq<char>;

/// Relies on `rustc_demangle::demangle` and the `Display` impl of the
/// `Demangle` value it returns: rendering a symbol reads nothing but the
/// input text, so the result is `rendering_of` the input.
#[verifier::external_body]
fn render_demangled(mangled: &str) -> (rendered: String)
    ensures
        rendered@ == rendering_of(mangled@),
{
    rustc_demangle::demangle(mangled).to_string()
}

/// Relies on `str::from_utf8`: it returns `Ok` exactly when the bytes are
/// valid UTF-8, and the resulting `&str` is a view of those same bytes.
#[verifier::external_body]
fn decode_input(bytes: &[u8]) -> (text: Option<&str>)
    ensures
        text is Some <==> valid_utf8(bytes@),
        text matches Some(s) ==> encode_utf8(s@) == bytes@,
{
    core::str::from_utf8(bytes).ok()
}

/// True when the byte sequence holds a zero byte, which a null-terminated
/// C string cannot carry in its interior.
pub open spec fn has_nul_byte(bytes: Seq<u8>) -> bool {
    exists|i: int| 0 <= i < bytes.len() && bytes[i] == 0u8
}

/// Scans a buffer for a zero byte.
fn contains_nul_byte(bytes: &Vec<u8>) -> (found: bool)
    ensures
        found == has_nul_byte(bytes@),
{
    let mut i: usize = 0;
    while i < bytes.len()
        invariant
            i <= bytes@.len(),
            forall|j: int| 0 <= j < i ==> bytes@[j] != 0u8,
        decreases bytes@.len() - i,
    {
        if bytes[i] == 0u8 {
            assert(bytes@[i as int] == 0u8);
            return true;
        }
        i = i + 1;
    }
    false
}

/// What the gateway yields for the bytes of a present input handle: `None`
/// when the bytes are not valid UTF-8, `None` when the demangler's rendering
/// holds an interior zero byte (such text cannot become a null-terminated
/// buffer), and otherwise the UTF-8 bytes of the rendering.
pub open spec fn demangled_bytes(input: Seq<u8>) -> Option<Seq<u8>> {
    if !valid_utf8(input) {
        None
    } else {
        let rendered = encode_utf8(rendering_of(decode_utf8(input)));
        if has_nul_byte(rendered) {
            None
        } else {
            Some(rendered)
        }
    }
}

/// The gateway's result over both operands as mathematical values: an absent
/// input handle maps to an absent output handle, a present one to
/// `demangled_bytes` of its contents.
pub open spec fn gateway_spec(input: Option<Seq<u8>>) -> Option<Seq<u8>> {
    match input {
        None => None,
        Some(bytes) => demangled_bytes(bytes),
    }
}

/// The bytes a present input handle refers to, as a mathematical value.
pub open spec fn input_view(input: Option<&[u8]>) -> Option<Seq<u8>> {
    match input {
        None => None,
        Some(bytes) => Some(bytes@),
    }
}

/// The contents of an owned output handle, as a mathematical value.
pub open spec fn output_view(output: Option<Vec<u8>>) -> Option<Seq<u8>> {
    match output {
        None => None,
        Some(buffer) => Some(buffer@),
    }
}

/// The demangle gateway. `None` stands for the absent (null) handle on either
/// side. On success the returned buffer holds the UTF-8 bytes of the
/// demangler's rendering of the input text, without a terminator, and is
/// exclusively owned by the caller; every failure returns `None`.
pub fn demangle(input: Option<&[u8]>) -> (output: Option<Vec<u8>>)
    ensures
        output_view(output) == gateway_spec(input_view(input)),
        input is None ==> output is None,
        input matches Some(bytes) && !valid_utf8(bytes@) ==> output is None,
{
    match input {
        None => None,
        Some(bytes) => {
            match decode_input(bytes) {
                None => None,
                Some(text) => {
                    proof {
                        encode_utf8_decode_utf8(text@);
                    }
                    let rendered = render_demangled(text);
                    let buffer = rendered.as_str().as_bytes_vec();
                    if contains_nul_byte(&buffer) {
                        None
                    } else {
                        Some(buffer)
                    }
                }
            }
        }
    }
}

/// The release operation paired with [`demangle`]: it consumes the owned
/// output handle, so the buffer's storage is reclaimed exactly once, when
/// this call returns. For the absent (null) handle it is a complete no-op.
/// It has no precondition, so no handle — present or absent — can make it
/// fault.
pub fn release(handle: Option<Vec<u8>>) {
    let _ = handle;
}

/// Two gateway calls that receive equal input bytes yield equal output
/// contents: the result is a function of the input alone, so the buffers of
/// two calls on the same symbol are independently owned yet hold the same
/// rendering.
pub proof fn lemma_demangle_deterministic(
    input: Option<Seq<u8>>,
    first: Option<Seq<u8>>,
    second: Option<Seq<u8>>,
)
    requires
        first == gateway_spec(input),
        second == gateway_spec(input),
    ensures
        first == second,
{
}

} // verus!
