//! Core logic of a set of application plugins.
//!
//! The centre is the fetch subsystem: a caller submits a request and gets
//! an identity at once, later resolves the identity to the metadata of the
//! response, then reads the body, and may cancel at any time before the
//! request is resolved. [`fetch`] holds these operations, [`model`] says
//! what each of them does to the registered state, and [`laws`] holds what
//! follows for every sequence of operations. [`request`] and [`proxy`]
//! shape the request that goes out.
//!
//! Nothing here does I/O. The state is an ordinary value: a caller that
//! shares it puts it behind a lock and holds the lock for one call at a
//! time, not while a request is on the wire.
//!
//! [`scope`] and [`sql`] hold the rules of the persisted file-system scope
//! and of the database plugin.

pub mod config;
pub mod error;
pub mod fetch;
pub mod ids;
pub mod laws;
pub mod model;
pub mod proxy;
pub mod registry;
pub mod request;
pub mod scope;
pub mod sql;
pub mod strmap;
pub mod text;
pub mod wire;
