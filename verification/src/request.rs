//! The request-line decoder: turns a raw byte buffer into a structured
//! request or a typed parse failure.

use crate::method::Method;
use crate::query_string::QueryString;
use crate::text::find_first;
use crate::text::first_hit;
use crate::text::str_eq;
use vstd::prelude::*;
use vstd::string::StrSliceExecFns;
use vstd::string::StringSliceAdditionalSpecFns;
use vstd::utf8::decode_utf8;
use vstd::utf8::valid_utf8;

verus! {

/// A decoded request line: the path, the query fragment when the raw
/// path contained a `?`, and the method.
#[derive(Debug, PartialEq)]
pub struct Request {
    path: String,
    query_string: Option<QueryString>,
    method: Method,
}

/// The mathematical content of a request: its path and raw query
/// fragment as character sequences, and its method.
pub struct RequestModel {
    pub path: Seq<char>,
    pub query: Option<Seq<char>>,
    pub method: Method,
}

impl View for Request {
    type V = RequestModel;

    closed spec fn view(&self) -> RequestModel {
        RequestModel {
            path: self.path@,
            query: match self.query_string {
                Some(q) => Some(q@),
                None => None,
            },
            method: self.method,
        }
    }
}

impl Request {
    /// The effective path: everything before the first `?` of the raw
    /// path token.
    pub fn path(&self) -> (r: &str)
        ensures
            r@ == self@.path,
    {
        self.path.as_str()
    }

    /// The request's method.
    pub fn method(&self) -> (r: &Method)
        ensures
            *r == self@.method,
    {
        &self.method
    }

    /// The decoded query string, present exactly when the raw path
    /// contained a `?`.
    pub fn query_string(&self) -> (r: Option<&QueryString>)
        ensures
            match r {
                Some(q) => self@.query == Some(q@),
                None => self@.query is None,
            },
    {
        self.query_string.as_ref()
    }
}

/// A decode failure. Each kind maps to a fixed message.
#[derive(Clone, Copy, Debug, PartialEq, Eq, Structural)]
pub enum ParseError {
    InvalidRequest,
    InvalidEncoding,
    InvalidProtocol,
    InvalidMethod,
}

impl ParseError {
    /// The fixed human-readable message of this error.
    pub open spec fn message_spec(self) -> Seq<char> {
        match self {
            ParseError::InvalidRequest => "Invalid Request"@,
            ParseError::InvalidEncoding => "Invalid Encoding"@,
            ParseError::InvalidProtocol => "Invalid Protocol"@,
            ParseError::InvalidMethod => "Invalid Method"@,
        }
    }

    /// The fixed human-readable message of this error.
    pub fn message(&self) -> (r: &'static str)
        ensures
            r@ == self.message_spec(),
    {
        match self {
            ParseError::InvalidRequest => "Invalid Request",
            ParseError::InvalidEncoding => "Invalid Encoding",
            ParseError::InvalidProtocol => "Invalid Protocol",
            ParseError::InvalidMethod => "Invalid Method",
        }
    }
}

/// Whether `t` holds a word: a space or carriage return before its end.
pub open spec fn word_found(t: Seq<char>) -> bool {
    0 <= first_hit(t, ' ', '\r') < t.len()
}

/// The characters of `t` before its first space or carriage return.
pub open spec fn word_of(t: Seq<char>) -> Seq<char> {
    t.subrange(0, first_hit(t, ' ', '\r'))
}

/// The characters of `t` after its first space or carriage return.
pub open spec fn rest_of(t: Seq<char>) -> Seq<char> {
    t.subrange(first_hit(t, ' ', '\r') + 1, t.len() as int)
}

/// What decoding the request-line text `t` yields: three words split
/// at spaces or carriage returns (else `InvalidRequest`), a protocol
/// word equal to `HTTP/1.1` (else `InvalidProtocol`), a method word
/// among the nine verbs (else `InvalidMethod`), and a path split at
/// its first `?` into path and query fragment.
pub open spec fn decode_spec(t: Seq<char>) -> Result<RequestModel, ParseError> {
    if !word_found(t) {
        Err(ParseError::InvalidRequest)
    } else {
        let m_tok = word_of(t);
        let r1 = rest_of(t);
        if !word_found(r1) {
            Err(ParseError::InvalidRequest)
        } else {
            let p_tok = word_of(r1);
            let r2 = rest_of(r1);
            if !word_found(r2) {
                Err(ParseError::InvalidRequest)
            } else if word_of(r2) != "HTTP/1.1"@ {
                Err(ParseError::InvalidProtocol)
            } else {
                match Method::parse_spec(m_tok) {
                    Err(_) => Err(ParseError::InvalidMethod),
                    Ok(m) => {
                        let q = first_hit(p_tok, '?', '?');
                        if 0 <= q && q < p_tok.len() {
                            Ok(
                                RequestModel {
                                    path: p_tok.subrange(0, q),
                                    query: Some(p_tok.subrange(q + 1, p_tok.len() as int)),
                                    method: m,
                                },
                            )
                        } else {
                            Ok(RequestModel { path: p_tok, query: None, method: m })
                        }
                    },
                }
            }
        }
    }
}

/// Relies on core::str::from_utf8: it succeeds exactly when `bytes`
/// is valid UTF-8 (by vstd's model of UTF-8), and then returns the
/// text backed by those very bytes, as vstd states of
/// `str::from_utf8_unchecked`.
#[verifier::external_body]
fn bytes_as_text(bytes: &[u8]) -> (r: Option<&str>)
    ensures
        match r {
            Some(s) => valid_utf8(bytes@) && s.spec_bytes() == bytes@,
            None => !valid_utf8(bytes@),
        },
{
    core::str::from_utf8(bytes).ok()
}

/// Splits `s` at its first space or carriage return into the word
/// before it and the remainder after it, or yields nothing when no
/// such delimiter occurs.
pub fn get_next_word<'a>(s: &'a str) -> (r: Option<(&'a str, &'a str)>)
    ensures
        match r {
            Some(p) => word_found(s@) && p.0@ == word_of(s@) && p.1@ == rest_of(s@),
            None => !word_found(s@),
        },
{
    let n = s.unicode_len();
    let i = find_first(s, ' ', '\r');
    if i < n {
        Some((s.substring_char(0, i), s.substring_char(i + 1, n)))
    } else {
        None
    }
}

/// Decodes a raw buffer into a request: the bytes must be valid UTF-8
/// (else `InvalidEncoding`), and their text must decode as
/// `decode_spec` says.
pub fn decode(bytes: &[u8]) -> (r: Result<Request, ParseError>)
    ensures
        !valid_utf8(bytes@) ==> (r matches Err(e) && e == ParseError::InvalidEncoding),
        valid_utf8(bytes@) ==> ({
            let d = decode_spec(decode_utf8(bytes@));
            match r {
                Ok(req) => d matches Ok(m) && req@ == m,
                Err(e) => d == Err::<RequestModel, ParseError>(e),
            }
        }),
{
    let s = match bytes_as_text(bytes) {
        Some(s) => s,
        None => {
            return Err(ParseError::InvalidEncoding);
        },
    };
    proof {
        vstd::utf8::encode_utf8_decode_utf8(s@);
        assert(s@ == decode_utf8(bytes@));
    }
    let (method_tok, r1) = match get_next_word(s) {
        Some(p) => p,
        None => {
            return Err(ParseError::InvalidRequest);
        },
    };
    let (path_tok, r2) = match get_next_word(r1) {
        Some(p) => p,
        None => {
            return Err(ParseError::InvalidRequest);
        },
    };
    let (protocol, _rest) = match get_next_word(r2) {
        Some(p) => p,
        None => {
            return Err(ParseError::InvalidRequest);
        },
    };
    if !str_eq(protocol, "HTTP/1.1") {
        return Err(ParseError::InvalidProtocol);
    }
    let method = match Method::parse(method_tok) {
        Ok(m) => m,
        Err(_) => {
            return Err(ParseError::InvalidMethod);
        },
    };
    let n = path_tok.unicode_len();
    let q = find_first(path_tok, '?', '?');
    if q < n {
        let path = path_tok.substring_char(0, q);
        let query = QueryString::decode(path_tok.substring_char(q + 1, n));
        Ok(Request { path: path.to_owned(), query_string: Some(query), method })
    } else {
        Ok(Request { path: path_tok.to_owned(), query_string: None, method })
    }
}

/// A buffer lacking a full method/path/protocol triple fails with
/// `InvalidRequest`: whenever one of the three splits finds no
/// delimiter, decoding yields that error and never a request.
pub proof fn lemma_decode_needs_full_line(t: Seq<char>)
    requires
        !word_found(t) || !word_found(rest_of(t)) || !word_found(rest_of(rest_of(t))),
    ensures
        decode_spec(t) == Err::<RequestModel, ParseError>(ParseError::InvalidRequest),
{
}

} // verus!
