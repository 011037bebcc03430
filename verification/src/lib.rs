//! A minimal HTTP/1.1 server core: request-line decoding, response
//! serialization, and the pluggable handler interface around which a
//! connection loop is built.

pub mod method;
pub mod query_string;
pub mod request;
pub mod response;
pub mod server;
pub mod status_code;
pub mod text;

pub use method::Method;
pub use method::MethodError;
pub use query_string::QueryString;
pub use query_string::Value as QueryStringValue;
pub use request::ParseError;
pub use request::Request;
pub use request::decode;
pub use request::get_next_word;
pub use response::Response;
pub use server::Handler;
pub use server::Server;
pub use server::handle_connection;
pub use status_code::StatusCode;
