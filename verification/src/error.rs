//! The error taxonomy of the client, with a verified textual description
//! for each variant.

use vstd::prelude::*;
use crate::date::digit_char;
use crate::date::digit_str;

verus! {

/// Why an API call failed.
#[derive(Debug, Clone, PartialEq, Eq)]
pub enum ClientError {
    /// Transport-level failure; carries the underlying error's description.
    RequestFailed(String),
    NotFound,
    Unauthorized,
    ServerError,
    /// A status code outside the mapped set, kept for diagnostics.
    Unknown(u16),
    /// The body of a successful response did not match the expected shape.
    MalformedPayload,
}

/// Decimal rendering of a natural number, most significant digit first.
pub open spec fn dec_rendering(n: nat) -> Seq<char>
    decreases n,
{
    if n < 10 {
        seq![digit_char(n as int)]
    } else {
        dec_rendering(n / 10) + seq![digit_char((n % 10) as int)]
    }
}

/// Renders a number as decimal text.
pub fn u16_text(n: u16) -> (r: String)
    ensures
        r@ == dec_rendering(n as nat),
    decreases n,
{
    if n < 10 {
        let mut out = String::new();
        out.append(digit_str(n as u32));
        proof {
            assert(out@ =~= dec_rendering(n as nat));
        }
        out
    } else {
        let mut out = u16_text(n / 10);
        out.append(digit_str((n % 10) as u32));
        proof {
            assert(out@ =~= dec_rendering(n as nat));
        }
        out
    }
}

impl ClientError {
    /// The one-line description of this error.
    pub open spec fn render(self) -> Seq<char> {
        match self {
            ClientError::RequestFailed(m) => "HTTP request failed: "@ + m@,
            ClientError::NotFound => "Resource not found"@,
            ClientError::Unauthorized => "Unauthorized"@,
            ClientError::ServerError => "Server error"@,
            ClientError::Unknown(c) => "Unknown error: unexpected status code "@ + dec_rendering(
                c as nat,
            ),
            ClientError::MalformedPayload => "Malformed response payload"@,
        }
    }

    /// Describes the error as human-readable text.
    pub fn describe(&self) -> (r: String)
        ensures
            r@ == self.render(),
    {
        match self {
            ClientError::RequestFailed(m) => {
                let mut out = String::from_str("HTTP request failed: ");
                out.append(m.as_str());
                out
            },
            ClientError::NotFound => String::from_str("Resource not found"),
            ClientError::Unauthorized => String::from_str("Unauthorized"),
            ClientError::ServerError => String::from_str("Server error"),
            ClientError::Unknown(c) => {
                let mut out = String::from_str("Unknown error: unexpected status code ");
                let t = u16_text(*c);
                out.append(t.as_str());
                out
            },
            ClientError::MalformedPayload => String::from_str("Malformed response payload"),
        }
    }
}

} // verus!
