//! Bridge core for plugging an asynchronous request handler into a
//! dynamically-typed host application's module system.
//!
//! The verified library holds the decision logic of the bridge: validating
//! the host handle, translating structural decode failures into the host's
//! configuration-error shape, and driving response bodies (buffered or
//! streamed) through the host's write protocol.  The host calls themselves
//! (canonicalization, registration, writes) are performed by a thin
//! unverified shell that consults these state machines.

pub mod body;
pub mod config;
pub mod construction;
pub mod text;
