//! Fulfilment of forced exit requests on a rollup.
//!
//! A user pays an amount whose low decimal digits carry the identifier of a
//! stored request. The sender decodes the identifier, validates the request,
//! builds one exit transaction per token, has the batch submitted, records the
//! submission and follows it until the chain confirms or rejects it.
//!
//! The library holds every decision of that pipeline and none of its outside
//! work. Storage, the network client, signing and the clock belong to a host:
//! the engine tells it what to do next as an [`protocol::Action`] and is told
//! what came of it as an [`protocol::Event`].

pub mod amount;
pub mod confirmation;
pub mod key;
pub mod laws;
pub mod processing;
pub mod protocol;
pub mod reconciliation;
pub mod sender;
pub mod types;
