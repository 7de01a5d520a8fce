//! Client library for a webhook publish/subscribe service.
//!
//! The library builds the exact requests that the service expects: the
//! target URL resolved against the client's base URL, the Basic-Auth
//! user name, and the JSON body. Sending them is left to an HTTP transport.
pub mod client;
pub mod error;
pub mod event;
pub mod ident;
pub mod segment;
pub mod subscription;
pub mod text;

pub use client::{Client, Method, Request};
pub use error::ClientError;
pub use event::{Event, EventType, Timestamp};
pub use ident::{Url, Uuid};
pub use subscription::Subscription;
