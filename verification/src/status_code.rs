//! The status codes this server emits, each with its numeric code and
//! reason phrase.

use vstd::prelude::*;

verus! {

/// A response status: the numeric code and reason phrase written on
/// the status line.
#[derive(Clone, Copy, Debug, PartialEq, Eq, Structural)]
pub enum StatusCode {
    OK,
    BadRequest,
    NotFound,
}

impl StatusCode {
    /// The numeric code of this status.
    pub open spec fn code_spec(self) -> u16 {
        match self {
            StatusCode::OK => 200,
            StatusCode::BadRequest => 400,
            StatusCode::NotFound => 404,
        }
    }

    /// The decimal text of this status's numeric code.
    pub open spec fn code_text_spec(self) -> Seq<char> {
        match self {
            StatusCode::OK => "200"@,
            StatusCode::BadRequest => "400"@,
            StatusCode::NotFound => "404"@,
        }
    }

    /// The reason phrase of this status.
    pub open spec fn reason_spec(self) -> Seq<char> {
        match self {
            StatusCode::OK => "OK"@,
            StatusCode::BadRequest => "Bad Request"@,
            StatusCode::NotFound => "Not Found"@,
        }
    }

    /// The numeric code of this status.
    pub fn code(&self) -> (r: u16)
        ensures
            r == self.code_spec(),
    {
        match self {
            StatusCode::OK => 200,
            StatusCode::BadRequest => 400,
            StatusCode::NotFound => 404,
        }
    }

    /// The decimal text of this status's numeric code.
    pub fn code_text(&self) -> (r: &'static str)
        ensures
            r@ == self.code_text_spec(),
    {
        match self {
            StatusCode::OK => "200",
            StatusCode::BadRequest => "400",
            StatusCode::NotFound => "404",
        }
    }

    /// The reason phrase of this status.
    pub fn reason_phrase(&self) -> (r: &'static str)
        ensures
            r@ == self.reason_spec(),
    {
        match self {
            StatusCode::OK => "OK",
            StatusCode::BadRequest => "Bad Request",
            StatusCode::NotFound => "Not Found",
        }
    }
}

} // verus!
