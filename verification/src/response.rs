//! The response a handler produces: a status and an optional body,
//! serialized as a bare status line followed by the body.

use crate::status_code::StatusCode;
use vstd::prelude::*;
use vstd::string::StringExecFns;

verus! {

/// A response: a status code and an optional body. Any combination is
/// accepted; serialization is pure formatting.
pub struct Response {
    status_code: StatusCode,
    body: Option<String>,
}

impl Response {
    /// The status code of this response.
    pub closed spec fn status_code_spec(self) -> StatusCode {
        self.status_code
    }

    /// The body of this response, when present.
    pub closed spec fn body_spec(self) -> Option<Seq<char>> {
        match self.body {
            Some(b) => Some(b@),
            None => None,
        }
    }

    /// The exact wire text of this response: the status line, a blank
    /// line, and the body (empty when absent), with no headers.
    pub open spec fn wire_spec(self) -> Seq<char> {
        "HTTP/1.1 "@ + self.status_code_spec().code_text_spec() + " "@
            + self.status_code_spec().reason_spec() + "\r\n\r\n"@ + (match self.body_spec() {
            Some(b) => b,
            None => Seq::<char>::empty(),
        })
    }

    /// Builds a response. Total: any status and body are accepted.
    pub fn new(status_code: StatusCode, body: Option<String>) -> (r: Response)
        ensures
            r.status_code_spec() == status_code,
            r.body_spec() == (match body {
                Some(b) => Some(b@),
                None => None::<Seq<char>>,
            }),
    {
        Response { status_code, body }
    }

    /// Appends this response's exact wire text to `stream`.
    pub fn send(&self, stream: &mut String)
        ensures
            final(stream)@ == old(stream)@ + self.wire_spec(),
    {
        stream.append("HTTP/1.1 ");
        stream.append(self.status_code.code_text());
        stream.append(" ");
        stream.append(self.status_code.reason_phrase());
        stream.append("\r\n\r\n");
        match &self.body {
            Some(b) => stream.append(b.as_str()),
            None => (),
        }
        proof {
            assert(stream@ =~= old(stream)@ + self.wire_spec());
        }
    }
}

} // verus!
