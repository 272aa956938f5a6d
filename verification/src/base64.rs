//! Padded base64, as `data_encoding` reads and writes it.
use vstd::prelude::*;
use vstd::utf8::encode_utf8;

verus! {

/// The greatest number of bytes that `data_encoding` takes for decoding.
pub open spec fn decodable(input: Seq<u8>) -> bool {
    input.len() <= usize::MAX / 8
}

/// The greatest number of bytes that `data_encoding` takes for encoding.
pub open spec fn encodable(input: Seq<u8>) -> bool {
    input.len() <= usize::MAX / 512
}

/// What `BASE64.decode` makes of the characters: the bytes that they stand for, or the
/// text of its complaint.
pub uninterp spec fn base64_decoded(input: Seq<u8>) -> Result<Seq<u8>, Seq<char>>;

/// What `BASE64.encode` makes of the bytes.
pub uninterp spec fn base64_encoded(input: Seq<u8>) -> Seq<char>;

/// The base64 characters of the text stand for the bytes.
pub open spec fn decodes_to(text: Seq<char>, bytes: Seq<u8>) -> bool {
    base64_decoded(encode_utf8(text)) == Ok::<Seq<u8>, Seq<char>>(bytes)
}

/// The answer is the one that gives back what was encoded, where the characters are what
/// `BASE64.encode` made of some bytes.
pub open spec fn reads_back(input: Seq<u8>, answer: Result<Seq<u8>, Seq<char>>) -> bool {
    forall|bytes: Seq<u8>|
        encodable(bytes) && input == encode_utf8(#[trigger] base64_encoded(bytes)) ==> answer
            == Ok::<Seq<u8>, Seq<char>>(bytes)
}

/// How many characters the padded base64 of so many bytes has.
pub open spec fn encoded_len(len: nat) -> nat {
    4 * ((len + 2) / 3)
}

/// The view of a decoder's answer.
pub open spec fn decoder_view(answer: Result<Vec<u8>, String>) -> Result<Seq<u8>, Seq<char>> {
    match answer {
        Ok(bytes) => Ok(bytes@),
        Err(complaint) => Err(complaint@),
    }
}

/// The bytes that padded base64 stands for.
///
/// Calls `data_encoding::BASE64.decode`, whose answer depends on its input alone, and
/// which gives back the bytes where the input is what `BASE64.encode` made of them; an
/// error comes back as its text. It takes no more than `usize::MAX / 8` characters.
#[verifier::external_body]
pub(crate) fn base64_decode(input: &[u8]) -> (answer: Result<Vec<u8>, String>)
    requires
        decodable(input@),
    ensures
        decoder_view(answer) == base64_decoded(input@),
        reads_back(input@, decoder_view(answer)),
{
    data_encoding::BASE64.decode(input).map_err(|complaint| complaint.to_string())
}

/// The padded base64 of the bytes.
///
/// Calls `data_encoding::BASE64.encode`, whose answer depends on its input alone, and
/// from which `BASE64.decode` gives the bytes back. It is made of four characters of
/// ASCII for each three bytes that are begun. It takes no more than `usize::MAX / 512`
/// bytes.
#[verifier::external_body]
pub(crate) fn base64_encode(input: &[u8]) -> (text: String)
    requires
        encodable(input@),
    ensures
        text@ == base64_encoded(input@),
        decodes_to(text@, input@),
        text@.len() == encoded_len(input@.len()),
        encode_utf8(text@).len() == text@.len(),
{
    data_encoding::BASE64.encode(input)
}

} // verus!
