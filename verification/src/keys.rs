use vstd::prelude::*;

verus! {

/// The error returned when a textual key does not decode to exactly 32
/// raw bytes.
#[derive(Clone, Copy, Debug, PartialEq, Eq)]
pub enum KeyError {
    WrongKey,
}

/// What base64's standard-alphabet, padded decoding yields for a piece
/// of text: `None` when the text is not well-formed base64, otherwise
/// the decoded bytes.
pub uninterp spec fn base64_decoding(s: Seq<char>) -> Option<Seq<u8>>;

/// Relies on base64's `Engine::decode` with the `general_purpose::STANDARD`
/// engine: decoding depends on the characters of the input alone, fails
/// exactly on text that is not well-formed standard base64, and yields
/// the decoded bytes otherwise.
#[verifier::external_body]
fn decode_standard(s: &str) -> (r: Option<Vec<u8>>)
    ensures
        (r is Some) == (base64_decoding(s@) is Some),
        r matches Some(v) ==> base64_decoding(s@) == Some(v@),
{
    base64::Engine::decode(&base64::engine::general_purpose::STANDARD, s).ok()
}

/// Decode a base64-encoded key.  The text must decode to exactly 32 raw
/// bytes; anything else — ill-formed base64, or a shorter or longer
/// value — is rejected, so no partial or truncated key is ever accepted.
pub fn string_to_key(data: String) -> (r: Result<Vec<u8>, KeyError>)
    ensures
        (r is Ok) == (base64_decoding(data@) matches Some(b) && b.len() == 32),
        r matches Ok(k) ==> (Some(k@) == base64_decoding(data@) && k@.len() == 32),
        r matches Err(e) ==> e == KeyError::WrongKey,
{
    match decode_standard(data.as_str()) {
        Some(bytes) => {
            if bytes.len() == 32 {
                Ok(bytes)
            } else {
                Err(KeyError::WrongKey)
            }
        }
        None => Err(KeyError::WrongKey),
    }
}

} // verus!
