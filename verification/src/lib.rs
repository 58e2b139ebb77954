//! Request construction and payload handling for a blocking HTTP client.
//!
//! The crate turns a target, headers and a payload source into one request
//! and body pair that an engine can put on the wire, and it names every
//! failure of the client in one error type. It opens no connection itself.

pub mod body;
pub mod error;
pub mod header;
mod private;
pub mod request;
pub mod target;

pub use body::AsBody;
pub use body::Body;
pub use body::RecvBody;
pub use error::Error;
pub use error::TimeoutReason;
pub use header::Header;
pub use request::connect;
pub use request::delete;
pub use request::get;
pub use request::head;
pub use request::options;
pub use request::patch;
pub use request::post;
pub use request::put;
pub use request::trace;
pub use request::Method;
pub use request::Phase;
pub use request::Prepared;
pub use request::Request;
pub use request::RequestBuilder;
pub use request::Version;
pub use request::WithBody;
pub use request::WithoutBody;
pub use target::Target;
