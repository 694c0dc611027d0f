//! One resource definition, shared by a network client and a storage-backed
//! server.
//!
//! A resource type implements [`Endpoint`] once: it names the path it is
//! mounted on and the type of its identifiers. From that alone it gains the
//! six CRUD operations over any transport ([`Fetch`]), and the functions of
//! [`server`] answer the same six operations from any storage [`Provider`].
//! Every failure, on either side, is an [`Error`].

pub mod endpoint;
pub mod error;
pub mod provider;
pub mod request;
pub mod server;

pub use endpoint::{Endpoint, Fetch};
pub use error::{found, Error, NoneError};
pub use provider::Provider;
pub use request::{Request, Verb};
