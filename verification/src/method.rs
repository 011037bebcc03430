//! The closed set of HTTP verbs, with text conversion in both
//! directions.

use crate::text::str_eq;
use vstd::prelude::*;

verus! {

/// An HTTP method. Parsing is case-sensitive and accepts exactly the
/// nine verb names.
#[derive(Clone, Copy, Debug, PartialEq, Eq, Structural)]
pub enum Method {
    GET,
    DELETE,
    POST,
    PUT,
    HEAD,
    CONNECT,
    OPTIONS,
    TRACE,
    PATCH,
}

/// The error returned when a method token matches none of the nine
/// verb names. It carries no detail.
#[derive(Clone, Copy, Debug, PartialEq, Eq, Structural)]
pub struct MethodError;

impl Method {
    /// The verb name of this method.
    pub open spec fn text_spec(self) -> Seq<char> {
        match self {
            Method::GET => "GET"@,
            Method::DELETE => "DELETE"@,
            Method::POST => "POST"@,
            Method::PUT => "PUT"@,
            Method::HEAD => "HEAD"@,
            Method::CONNECT => "CONNECT"@,
            Method::OPTIONS => "OPTIONS"@,
            Method::TRACE => "TRACE"@,
            Method::PATCH => "PATCH"@,
        }
    }

    /// The method whose verb name is `t`, or an error when `t` is none
    /// of the nine names.
    pub open spec fn parse_spec(t: Seq<char>) -> Result<Method, MethodError> {
        if t == Method::GET.text_spec() {
            Ok(Method::GET)
        } else if t == Method::DELETE.text_spec() {
            Ok(Method::DELETE)
        } else if t == Method::POST.text_spec() {
            Ok(Method::POST)
        } else if t == Method::PUT.text_spec() {
            Ok(Method::PUT)
        } else if t == Method::HEAD.text_spec() {
            Ok(Method::HEAD)
        } else if t == Method::CONNECT.text_spec() {
            Ok(Method::CONNECT)
        } else if t == Method::OPTIONS.text_spec() {
            Ok(Method::OPTIONS)
        } else if t == Method::TRACE.text_spec() {
            Ok(Method::TRACE)
        } else if t == Method::PATCH.text_spec() {
            Ok(Method::PATCH)
        } else {
            Err(MethodError)
        }
    }

    /// Parses a method token: succeeds exactly on the nine verb names.
    pub fn parse(s: &str) -> (r: Result<Method, MethodError>)
        ensures
            r == Method::parse_spec(s@),
    {
        if str_eq(s, "GET") {
            Ok(Method::GET)
        } else if str_eq(s, "DELETE") {
            Ok(Method::DELETE)
        } else if str_eq(s, "POST") {
            Ok(Method::POST)
        } else if str_eq(s, "PUT") {
            Ok(Method::PUT)
        } else if str_eq(s, "HEAD") {
            Ok(Method::HEAD)
        } else if str_eq(s, "CONNECT") {
            Ok(Method::CONNECT)
        } else if str_eq(s, "OPTIONS") {
            Ok(Method::OPTIONS)
        } else if str_eq(s, "TRACE") {
            Ok(Method::TRACE)
        } else if str_eq(s, "PATCH") {
            Ok(Method::PATCH)
        } else {
            Err(MethodError)
        }
    }

    /// The verb name of this method, for display and logging.
    pub fn to_text(&self) -> (r: &'static str)
        ensures
            r@ == self.text_spec(),
    {
        match self {
            Method::GET => "GET",
            Method::DELETE => "DELETE",
            Method::POST => "POST",
            Method::PUT => "PUT",
            Method::HEAD => "HEAD",
            Method::CONNECT => "CONNECT",
            Method::OPTIONS => "OPTIONS",
            Method::TRACE => "TRACE",
            Method::PATCH => "PATCH",
        }
    }
}

/// The nine verb names are pairwise distinct.
proof fn lemma_texts_distinct()
    ensures
        forall|m1: Method, m2: Method| m1 != m2 ==> m1.text_spec() != m2.text_spec(),
{
    reveal_strlit("GET");
    reveal_strlit("DELETE");
    reveal_strlit("POST");
    reveal_strlit("PUT");
    reveal_strlit("HEAD");
    reveal_strlit("CONNECT");
    reveal_strlit("OPTIONS");
    reveal_strlit("TRACE");
    reveal_strlit("PATCH");
    assert("GET"@.len() == 3 && "DELETE"@.len() == 6 && "POST"@.len() == 4 && "PUT"@.len() == 3
        && "HEAD"@.len() == 4 && "CONNECT"@.len() == 7 && "OPTIONS"@.len() == 7 && "TRACE"@.len()
        == 5 && "PATCH"@.len() == 5);
    assert("GET"@[0] == 'G' && "PUT"@[0] == 'P');
    assert("POST"@[0] == 'P' && "HEAD"@[0] == 'H');
    assert("CONNECT"@[0] == 'C' && "OPTIONS"@[0] == 'O');
    assert("TRACE"@[0] == 'T' && "PATCH"@[0] == 'P');
}

/// Parsing a method's own verb name gives back that method: `parse`
/// round-trips with `to_text` on every method.
pub proof fn lemma_method_round_trip(m: Method)
    ensures
        Method::parse_spec(m.text_spec()) == Ok::<Method, MethodError>(m),
{
    lemma_texts_distinct();
}

/// On text that is none of the nine verb names, parsing fails and
/// never yields a method.
pub proof fn lemma_method_parse_rejects(t: Seq<char>)
    requires
        forall|m: Method| t != m.text_spec(),
    ensures
        Method::parse_spec(t) == Err::<Method, MethodError>(MethodError),
{
    assert(t != Method::GET.text_spec());
    assert(t != Method::DELETE.text_spec());
    assert(t != Method::POST.text_spec());
    assert(t != Method::PUT.text_spec());
    assert(t != Method::HEAD.text_spec());
    assert(t != Method::CONNECT.text_spec());
    assert(t != Method::OPTIONS.text_spec());
    assert(t != Method::TRACE.text_spec());
    assert(t != Method::PATCH.text_spec());
}

} // verus!
