//! Supervision rules for a locally hosted backend inside a desktop or mobile
//! shell: where the backend is installed, how its database is prepared, the
//! life cycle of its process, and the built-in responder that answers while
//! the backend cannot.

pub mod bootstrap;
pub mod invocation;
pub mod pages;
pub mod platform;
pub mod resolver;
pub mod responder;
pub mod supervisor;
pub mod text;
