//! A sans-I/O driver for one HTTP/1.1 connection.
//!
//! The crate decides, step by step, what a server owes one connection: read a
//! request, hand it to the handler, write the answer, and then either wait for
//! the next request or end the connection. It performs no I/O itself: the
//! caller carries out each [`Action`] and reports what happened as an
//! [`Event`].

pub mod context;
pub mod driver;
pub mod error;
pub mod message;
pub mod server;
pub mod status;
pub mod trace;

pub use context::HttpContext;
pub use driver::{start, step, wants_close, Action, Event, Next, State};
pub use error::{RenderError, ResponseError, TransportError};
pub use message::{Header, Request, Response};
pub use server::Server;
pub use status::StatusCode;
