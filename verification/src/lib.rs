//! A session layer over an embedded key-value storage engine with a C ABI.
//!
//! The engine is reached only through opaque handles, raw buffers and an
//! error slot that it fills on failure. This crate holds everything that
//! the layer decides: which native call comes next, what a reply means,
//! which error a filled slot becomes, and who has to release what. It
//! performs no native call itself. A driver performs each [`native::Call`]
//! and hands back the [`native::Reply`]; the session answers with the next
//! call or with the result of the operation.
//!
//! - [`database`] is the session: [`database::Database`] with
//!   `open_or_create`, `write`, `read`, `close` and `resume`.
//! - [`ldb`], [`options`], [`batch`], [`channel`], [`scope`] and [`value`]
//!   are its parts: the open database, the objects of one operation, the
//!   error slot, the releases put off to the end of an operation, and the
//!   value of a lookup.
//! - [`native`], [`completion`] and [`error`] are what passes between the
//!   session, its driver and its owner.
//! - [`events`], [`course`], [`ledger`] and [`engine`] state what holds of
//!   every session: that it only moves forward, which calls each operation
//!   makes, that everything taken from the engine is given back exactly
//!   once, and that a value written is the value read.

pub mod batch;
pub mod channel;
pub mod completion;
pub mod course;
pub mod database;
pub mod engine;
pub mod error;
pub mod events;
pub mod ldb;
pub mod ledger;
pub mod native;
pub mod options;
pub mod scope;
pub mod value;
