use vstd::prelude::*;
use vstd::utf8::{decode_utf8, valid_utf8};
use base64::Engine;

verus! {

/// The standard base64 text (with padding) of a byte sequence.
pub uninterp spec fn base64_of(b: Seq<u8>) -> Seq<char>;

/// Relies on std::str::from_utf8: succeeds exactly on valid UTF-8, and the
/// text then holds the decoded characters.
#[verifier::external_body]
fn utf8_text(b: &[u8]) -> (r: Option<String>)
    ensures
        r is Some <==> valid_utf8(b@),
        r matches Some(s) ==> s@ == decode_utf8(b@),
{
    std::str::from_utf8(b).ok().map(|s| s.to_string())
}

/// Relies on base64's standard engine `encode`: the padded standard alphabet.
#[verifier::external_body]
fn base64_standard(b: &[u8]) -> (r: String)
    ensures
        r@ == base64_of(b@),
{
    base64::engine::general_purpose::STANDARD.encode(b)
}

/// How a captured byte stream is carried as text.
#[derive(Clone, Copy, Debug, PartialEq, Eq, Structural)]
pub enum Encoding {
    Utf8,
    Base64,
}

impl Encoding {
    /// The tag written for this encoding.
    pub fn name(&self) -> (r: &'static str)
        ensures
            *self == Encoding::Utf8 ==> r@ == "utf8"@,
            *self == Encoding::Base64 ==> r@ == "base64"@,
    {
        match self {
            Encoding::Utf8 => "utf8",
            Encoding::Base64 => "base64",
        }
    }
}

/// A captured byte stream as tagged text.
#[derive(Clone, Debug)]
pub struct Payload {
    pub encoding: Encoding,
    pub data: String,
}

/// `p` carries `bytes`: as the decoded text when they are valid UTF-8, and
/// as their base64 text otherwise.
pub open spec fn carries(p: Payload, bytes: Seq<u8>) -> bool {
    if valid_utf8(bytes) {
        p.encoding == Encoding::Utf8 && p.data@ == decode_utf8(bytes)
    } else {
        p.encoding == Encoding::Base64 && p.data@ == base64_of(bytes)
    }
}

/// Encodes captured output, falling back to base64 when it is not text.
pub fn encode_output(bytes: &[u8]) -> (r: Payload)
    ensures
        carries(r, bytes@),
{
    match utf8_text(bytes) {
        Some(s) => Payload { encoding: Encoding::Utf8, data: s },
        None => Payload { encoding: Encoding::Base64, data: base64_standard(bytes) },
    }
}

/// The record written once per iteration, after all of its snapshots.
#[derive(Clone, Debug)]
pub struct Summary {
    pub stdout: Payload,
    pub stderr: Payload,
    /// Wall-clock time of the iteration.
    pub elapsed_nanos: u128,
}

impl Summary {
    pub fn new(stdout: &[u8], stderr: &[u8], elapsed_nanos: u128) -> (r: Summary)
        ensures
            carries(r.stdout, stdout@),
            carries(r.stderr, stderr@),
            r.elapsed_nanos == elapsed_nanos,
    {
        Summary { stdout: encode_output(stdout), stderr: encode_output(stderr), elapsed_nanos }
    }
}

} // verus!
