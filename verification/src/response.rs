//! HTTP responses: the plain data the server sends, and the response chosen
//! for each outcome of reading a file.

use vstd::prelude::*;
use vstd::string::StrSliceExecFns;
use vstd::string::StringExecFns;
use vstd::utf8::decode_utf8;
use vstd::utf8::encode_utf8_decode_utf8;
use vstd::utf8::encode_utf8_valid_utf8;
use vstd::utf8::valid_utf8;

verus! {

/// A response: status code, optional content type, and body text.
pub struct Response {
    pub status: u16,
    pub content_type: Option<String>,
    pub body: String,
}

/// What reading the requested path as a file came to: the file would not
/// open, it opened but reading failed, or its bytes were read whole.
pub enum FileReadOutcome {
    OpenFailed,
    ReadFailed,
    Content(Vec<u8>),
}

/// Relies on String::from_utf8: it returns the decoded string exactly when
/// the bytes are valid UTF-8, and fails otherwise.
#[verifier::external_body]
fn utf8_to_string(bytes: Vec<u8>) -> (r: Option<String>)
    ensures
        valid_utf8(bytes@) ==> r is Some && r->0@ == decode_utf8(bytes@),
        !valid_utf8(bytes@) ==> r is None,
{
    String::from_utf8(bytes).ok()
}

/// The response for a path that was not a directory: the file's text when it
/// opened, read, and decoded as UTF-8; otherwise the matching error.
pub fn file_response(outcome: FileReadOutcome) -> (r: Response)
    ensures
        outcome is OpenFailed ==> r.status == 404 && r.content_type is None && r.body@
            == "File not found"@,
        outcome is ReadFailed ==> r.status == 500 && r.content_type is None && r.body@
            == "Could not read file"@,
        outcome matches FileReadOutcome::Content(bytes) ==> (if valid_utf8(bytes@) {
            r.status == 200 && r.content_type is Some && r.content_type->0@
                == "text/plain; charset=utf-8"@ && r.body@ == decode_utf8(bytes@)
        } else {
            r.status == 500 && r.content_type is None && r.body@
                == "File content is not valid UTF-8"@
        }),
{
    match outcome {
        FileReadOutcome::OpenFailed => Response {
            status: 404,
            content_type: None,
            body: String::from_str("File not found"),
        },
        FileReadOutcome::ReadFailed => Response {
            status: 500,
            content_type: None,
            body: String::from_str("Could not read file"),
        },
        FileReadOutcome::Content(bytes) => match utf8_to_string(bytes) {
            Some(text) => Response {
                status: 200,
                content_type: Some(String::from_str("text/plain; charset=utf-8")),
                body: text,
            },
            None => Response {
                status: 500,
                content_type: None,
                body: String::from_str("File content is not valid UTF-8"),
            },
        },
    }
}

/// Serving the UTF-8 bytes of a text gives back exactly that text: the
/// round trip through encoding and the file-read path changes nothing.
pub fn response_for_text(text: &str) -> (r: Response)
    ensures
        r.status == 200,
        r.content_type is Some && r.content_type->0@ == "text/plain; charset=utf-8"@,
        r.body@ == text@,
{
    let bytes: Vec<u8> = text.as_bytes_vec();
    proof {
        encode_utf8_valid_utf8(text@);
        encode_utf8_decode_utf8(text@);
    }
    file_response(FileReadOutcome::Content(bytes))
}

} // verus!
