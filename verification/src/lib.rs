//! A verified core for the Assuan line protocol: the request and response
//! codecs, the numeric error-code taxonomy used on `ERR` lines, and the pure
//! per-connection dispatch state machine.  Transport and handler I/O live
//! outside this crate; everything here is a total function on lines of text.

pub mod errors;
pub mod request;
pub mod response;
pub mod server;
pub mod text;

pub use request::Request;
pub use response::Response;
pub use response::ResponseErr;
pub use server::Session;
