use httpserver::Handler;
use httpserver::ParseError;
use httpserver::Request;
use httpserver::Response;
use httpserver::Server;
use httpserver::StatusCode;
use httpserver::handle_connection;

struct OkHandler {
    served: usize,
}

impl Handler for OkHandler {
    fn handle_request(&mut self, _request: &Request) -> Response {
        self.served += 1;
        Response::new(StatusCode::OK, Some("ok".to_string()))
    }
}

struct CustomBadRequestHandler;

impl Handler for CustomBadRequestHandler {
    fn handle_request(&mut self, _request: &Request) -> Response {
        Response::new(StatusCode::OK, None)
    }

    fn handle_bad_request(&mut self, e: &ParseError) -> Response {
        Response::new(StatusCode::NotFound, Some(e.message().to_string()))
    }
}

fn serialized(response: &Response) -> String {
    let mut out = String::new();
    response.send(&mut out);
    out
}

#[test]
fn server_keeps_its_address() {
    let server = Server::new("127.0.0.1:8080");
    assert_eq!(server.addr(), "127.0.0.1:8080");
}

#[test]
fn malformed_buffer_gets_default_bad_request() {
    let mut handler = OkHandler { served: 0 };
    let response = handle_connection(&mut handler, b"BOGUS /x HTTP/1.1\r\n\r\n");
    assert_eq!(serialized(&response), "HTTP/1.1 400 Bad Request\r\n\r\n");
    assert_eq!(handler.served, 0);
}

#[test]
fn a_later_buffer_is_served_after_a_malformed_one() {
    let mut handler = OkHandler { served: 0 };
    let first = handle_connection(&mut handler, b"not a request");
    assert_eq!(serialized(&first), "HTTP/1.1 400 Bad Request\r\n\r\n");
    let second = handle_connection(&mut handler, b"GET /hello HTTP/1.1\r\n\r\n");
    assert_eq!(serialized(&second), "HTTP/1.1 200 OK\r\n\r\nok");
    assert_eq!(handler.served, 1);
}

#[test]
fn handlers_may_override_the_bad_request_path() {
    let mut handler = CustomBadRequestHandler;
    let response = handle_connection(&mut handler, b"GET /x HTTP/1.0\r\n\r\n");
    assert_eq!(serialized(&response), "HTTP/1.1 404 Not Found\r\n\r\nInvalid Protocol");
}
