use vstd::prelude::*;

use crate::error::{ErrorModel, PipelineError};

verus! {

/// The four bytes that open every module in the binary encoding: a NUL byte
/// followed by the ASCII letters `asm`.
pub open spec fn magic() -> Seq<u8> {
    seq![0u8, 0x61u8, 0x73u8, 0x6du8]
}

/// Whether `bytes` begins with the binary magic.
pub open spec fn is_binary(bytes: Seq<u8>) -> bool {
    bytes.len() >= 4 && bytes.subrange(0, 4) == magic()
}

/// Tests the fixed-length prefix of `bytes` against the binary magic.
pub fn is_wasm_binary(bytes: &[u8]) -> (binary: bool)
    ensures
        binary == is_binary(bytes@),
{
    if bytes.len() < 4 {
        return false;
    }
    let binary = bytes[0] == 0u8 && bytes[1] == 0x61u8 && bytes[2] == 0x73u8 && bytes[3] == 0x6du8;
    proof {
        let prefix = bytes@.subrange(0, 4);
        if binary {
            assert(prefix =~= magic());
        } else {
            assert(prefix[0] == bytes@[0] && prefix[1] == bytes@[1] && prefix[2] == bytes@[2]
                && prefix[3] == bytes@[3]);
            assert(magic()[0] == 0u8 && magic()[1] == 0x61u8 && magic()[2] == 0x73u8 && magic()[3]
                == 0x6du8);
        }
    }
    binary
}

/// What the inspection of a raw buffer found.
#[derive(Clone, Debug, PartialEq, Eq)]
pub enum Inspection {
    /// The buffer opens with the magic: it is a binary module as it stands.
    Binary(Vec<u8>),
    /// The buffer is taken for the textual form and has to be translated.
    Text(Vec<u8>),
}

/// What the translator made of a textual buffer: the binary module, or the
/// text of its complaint.
pub type Translation = Result<Seq<u8>, Seq<char>>;

/// The binary module that comes of the raw buffer `raw`, where `translation`
/// is what the translator makes of `raw`. A buffer that is binary already
/// is kept as it is and the translator is not consulted.
pub open spec fn normalized(raw: Seq<u8>, translation: Translation) -> Result<Seq<u8>, ErrorModel> {
    if is_binary(raw) {
        Ok(raw)
    } else {
        translated(translation)
    }
}

/// The normalizer's result for a buffer that went to the translator.
pub open spec fn translated(translation: Translation) -> Result<Seq<u8>, ErrorModel> {
    match translation {
        Ok(binary) => Ok(binary),
        Err(cause) => Err(ErrorModel::FormatConversion(cause)),
    }
}

/// Inspects the prefix of `raw` once and says whether the translator is
/// needed. The buffer is handed back whole and unchanged either way.
pub fn inspect(raw: Vec<u8>) -> (found: Inspection)
    ensures
        is_binary(raw@) ==> found == Inspection::Binary(raw),
        !is_binary(raw@) ==> found == Inspection::Text(raw),
{
    if is_wasm_binary(raw.as_slice()) {
        Inspection::Binary(raw)
    } else {
        Inspection::Text(raw)
    }
}

/// Takes what the translator returned: its output as the binary module, or
/// its complaint as a format conversion error.
pub fn accept_translation(outcome: Result<Vec<u8>, String>) -> (module: Result<
    Vec<u8>,
    PipelineError,
>)
    ensures
        outcome matches Ok(binary) ==> module == Ok::<Vec<u8>, PipelineError>(binary),
        outcome matches Err(cause) ==> module matches Err(error) && error@
            == ErrorModel::FormatConversion(cause@),
{
    match outcome {
        Ok(binary) => Ok(binary),
        Err(cause) => Err(PipelineError::FormatConversion(cause)),
    }
}

/// A buffer that is binary already is its own normal form.
pub proof fn binary_is_kept(raw: Seq<u8>, translation: Translation)
    requires
        is_binary(raw),
    ensures
        normalized(raw, translation) == Ok::<Seq<u8>, ErrorModel>(raw),
{
}

/// Where the translator returns a binary module for a textual buffer, the
/// normal form is that module, and so passes the magic check as well.
pub proof fn translated_text_is_binary(raw: Seq<u8>, binary: Seq<u8>)
    requires
        !is_binary(raw),
        is_binary(binary),
    ensures
        normalized(raw, Ok(binary)) == Ok::<Seq<u8>, ErrorModel>(binary),
        normalized(raw, Ok(binary)) matches Ok(module) && is_binary(module),
{
}

/// Where the translator fails on a textual buffer, normalizing fails with a
/// format conversion error that carries the translator's complaint.
pub proof fn failed_translation_is_an_error(raw: Seq<u8>, cause: Seq<char>)
    requires
        !is_binary(raw),
    ensures
        normalized(raw, Err(cause)) == Err::<Seq<u8>, ErrorModel>(
            ErrorModel::FormatConversion(cause),
        ),
{
}

} // verus!
