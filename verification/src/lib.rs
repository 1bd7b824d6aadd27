//! A small service over one kind of record, the user: list, look up, create,
//! update and delete.
//!
//! A request is routed by its verb and path ([`router`]). The operation it
//! names asks the store exactly once and turns what comes back into the
//! answer or into one of two failures ([`handlers`], [`dispatch`],
//! [`error`]). The store is a capability outside the operations: they say
//! what to ask ([`query`]) and are proved for every outcome. [`store`] holds
//! a store in memory, [`service`] the operations over it, and [`laws`] what
//! holds of them together.

pub mod dispatch;
pub mod error;
pub mod handlers;
pub mod ident;
pub mod laws;
pub mod model;
pub mod query;
pub mod router;
pub mod service;
pub mod store;
