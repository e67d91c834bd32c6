use vstd::prelude::*;
use vstd::string::*;

use base64::Engine;

verus! {

/// The bytes that `text` encodes in standard base64, or `None` where it is
/// not valid standard base64.
pub uninterp spec fn standard_base64_decoded(text: Seq<char>) -> Option<Seq<u8>>;

/// Relies on base64's `Engine::decode` on the `STANDARD` engine: the bytes
/// that the text encodes, or the decoder's reason for refusing it.
#[verifier::external_body]
fn decode_standard_base64(text: &str) -> (r: Result<Vec<u8>, String>)
    ensures
        match r {
            Ok(bytes) => standard_base64_decoded(text@) == Some(bytes@),
            Err(_) => standard_base64_decoded(text@) is None,
        },
{
    match base64::engine::general_purpose::STANDARD.decode(text) {
        Ok(bytes) => Ok(bytes),
        Err(e) => Err(e.to_string()),
    }
}

/// The prefix of the message for a payload that is not valid base64.
pub const DECODE_ERROR_PREFIX: &'static str = "Error decodificando base64: ";

/// The file contents for a decoded export payload: the bytes as they are,
/// or the decoder's reason turned into a message.
pub fn export_contents(decoded: Result<Vec<u8>, String>) -> (r: Result<Vec<u8>, String>)
    ensures
        match decoded {
            Ok(bytes) => r == Ok::<Vec<u8>, String>(bytes),
            Err(reason) => r is Err && r->Err_0@ == DECODE_ERROR_PREFIX@ + reason@,
        },
{
    match decoded {
        Ok(bytes) => Ok(bytes),
        Err(reason) => {
            let mut message = String::from_str(DECODE_ERROR_PREFIX);
            message.append(reason.as_str());
            Err(message)
        },
    }
}

/// Decodes a spreadsheet export sent as standard base64 text into the bytes
/// to write.
pub fn decode_excel_data(data: &str) -> (r: Result<Vec<u8>, String>)
    ensures
        match standard_base64_decoded(data@) {
            Some(bytes) => r is Ok && r->Ok_0@ == bytes,
            None => r is Err,
        },
{
    export_contents(decode_standard_base64(data))
}

} // verus!
