//! Errors that ArcGIS services report inside a successful HTTP response.
//!
//! ArcGIS REST services often answer HTTP 200 with a JSON payload such as
//! `{"error": {"code": 400, "message": "..."}}`. A response whose text holds
//! the token `"error"` is an error; the code and message come from the first
//! of two payload shapes that the text parses as.

use vstd::prelude::*;
use crate::error::Error;
use vstd::string::StringSliceAdditionalSpecFns;

verus! {

/// The payload `{"error": {"code": <i32>, "message": <string>}}`.
#[derive(Debug, Clone)]
pub struct EsriErrorDetail {
    pub code: i32,
    pub message: String,
}

/// The payload `{"success": <bool>, "error": {"message": <string>, "code": <i32>?}}`.
#[derive(Debug, Clone)]
pub struct EsriErrorStatus {
    pub success: bool,
    pub message: String,
    pub code: Option<i32>,
}

/// The UTF-8 bytes of `"error"`, quotes included.
pub open spec fn error_marker() -> Seq<u8> {
    seq![34u8, 101u8, 114u8, 114u8, 111u8, 114u8, 34u8]
}

/// The bytes hold `"error"` somewhere, which is what `str::contains` tests.
pub open spec fn mentions_error(b: Seq<u8>) -> bool {
    exists|i: int| 0 <= i && i + 7 <= b.len() && #[trigger] b.subrange(i, i + 7) == error_marker()
}

/// Code and message of the error a response reports: the detailed payload if
/// the text parsed as one; else the status payload if it parsed and says
/// `success: false` (code 0 when absent); else code -1 with the message
/// `<operation> returned unexpected error: <text>`.
pub open spec fn esri_error_parts(
    text: Seq<char>,
    operation: Seq<char>,
    detail: Option<EsriErrorDetail>,
    status: Option<EsriErrorStatus>,
) -> (i32, Seq<char>) {
    match detail {
        Some(d) => (d.code, d.message@),
        None => match status {
            Some(s) if !s.success => (
                match s.code {
                    Some(c) => c,
                    None => 0i32,
                },
                s.message@,
            ),
            _ => (-1i32, operation + " returned unexpected error: "@ + text),
        },
    }
}

fn has_error_marker(b: &[u8]) -> (r: bool)
    ensures
        r == mentions_error(b@),
{
    let n = b.len();
    if n < 7 {
        assert(!mentions_error(b@));
        return false;
    }
    let mut i: usize = 0;
    while i <= n - 7
        invariant
            n == b@.len(),
            n >= 7,
            i <= n - 6,
            forall|j: int| 0 <= j < i ==> #[trigger] b@.subrange(j, j + 7) != error_marker(),
        decreases n - i,
    {
        if b[i] == 34u8 && b[i + 1] == 101u8 && b[i + 2] == 114u8 && b[i + 3] == 114u8 && b[i + 4]
            == 111u8 && b[i + 5] == 114u8 && b[i + 6] == 34u8 {
            assert(b@.subrange(i as int, i + 7) =~= error_marker());
            return true;
        }
        proof {
            let s = b@.subrange(i as int, i + 7);
            if s == error_marker() {
                assert(s[0] == b@[i as int]);
                assert(s[1] == b@[i + 1]);
                assert(s[2] == b@[i + 2]);
                assert(s[3] == b@[i + 3]);
                assert(s[4] == b@[i + 4]);
                assert(s[5] == b@[i + 5]);
                assert(s[6] == b@[i + 6]);
            }
        }
        i = i + 1;
    }
    false
}

/// Decides whether a response text reports an error and which, given the
/// outcome of parsing the text as each of the two payload shapes.
pub fn check_esri_error_parsed(
    response_text: &str,
    operation: &str,
    detail: Option<EsriErrorDetail>,
    status: Option<EsriErrorStatus>,
) -> (r: Result<(), Error>)
    ensures
        !mentions_error(response_text.spec_bytes()) ==> r is Ok,
        mentions_error(response_text.spec_bytes()) ==> (r matches Err(e) && e.api_parts() == Some(
            esri_error_parts(response_text@, operation@, detail, status),
        )),
{
    if !has_error_marker(response_text.as_bytes()) {
        return Ok(());
    }
    match detail {
        Some(d) => {
            return Err(Error::Api { code: d.code, message: d.message });
        },
        None => {},
    }
    match status {
        Some(s) => {
            if !s.success {
                let code = match s.code {
                    Some(c) => c,
                    None => 0,
                };
                return Err(Error::Api { code, message: s.message });
            }
        },
        None => {},
    }
    let mut message = String::from_str(operation);
    message.append(" returned unexpected error: ");
    message.append(response_text);
    Err(Error::Api { code: -1, message })
}

} // verus!
