//! The server: its bind address, the handler interface through which
//! all application logic is injected, and the compute step of one
//! connection. The blocking accept/read/write loop itself is I/O and
//! lives with the embedder; it calls `handle_connection` for each
//! buffer it reads.

use crate::request::ParseError;
use crate::request::Request;
use crate::request::decode;
use crate::request::decode_spec;
use crate::response::Response;
use crate::status_code::StatusCode;
use vstd::prelude::*;
use vstd::utf8::decode_utf8;
use vstd::utf8::valid_utf8;

verus! {

/// A server: the address it is to listen on.
pub struct Server {
    addr: String,
}

impl View for Server {
    type V = Seq<char>;

    closed spec fn view(&self) -> Seq<char> {
        self.addr@
    }
}

impl Server {
    /// Builds a server for the given bind address.
    pub fn new(addr: &str) -> (r: Server)
        ensures
            r@ == addr@,
    {
        Server { addr: addr.to_owned() }
    }

    /// The address this server is to listen on.
    pub fn addr(&self) -> (r: &str)
        ensures
            r@ == self@,
    {
        self.addr.as_str()
    }
}

/// The capability through which application logic runs: a required
/// response to a decoded request, and a response to a decode failure
/// that defaults to a body-less bad-request reply. Implementors may
/// override the bad-request path; the stated result binds only the
/// default.
pub trait Handler {
    fn handle_request(&mut self, request: &Request) -> Response;

    fn handle_bad_request(&mut self, e: &ParseError) -> (r: Response)
        default_ensures
            r.status_code_spec() == StatusCode::BadRequest,
            r.body_spec() is None,
    {
        Response::new(StatusCode::BadRequest, None)
    }
}

/// The compute step of one connection: decodes the buffer, dispatches
/// to the handler on success and to its bad-request path on failure.
/// The response is whatever the consulted handler method returned:
/// `handle_request` on the decoded request when decoding succeeds,
/// `handle_bad_request` on the decode error otherwise.
pub fn handle_connection<H: Handler>(handler: &mut H, buffer: &[u8]) -> (r: Response)
    ensures
        ({
            let t = decode_utf8(buffer@);
            &&& (valid_utf8(buffer@) && decode_spec(t) is Ok ==> (exists|req: Request, hr: &mut H|
                req@ == decode_spec(t)->Ok_0 && call_ensures(H::handle_request, (hr, &req), r)))
            &&& (!(valid_utf8(buffer@) && decode_spec(t) is Ok) ==> (exists|e: ParseError, hr: &mut H|
                e == (if !valid_utf8(buffer@) {
                    ParseError::InvalidEncoding
                } else {
                    decode_spec(t)->Err_0
                }) && call_ensures(H::handle_bad_request, (hr, &e), r)))
        }),
{
    match decode(buffer) {
        Ok(request) => handler.handle_request(&request),
        Err(e) => handler.handle_bad_request(&e),
    }
}

} // verus!
