//! An event-driven router for a fixed, linear workflow of steps.
//!
//! An inbound event carries its own position in the workflow in its `source`
//! attribute. The router works out which step that position calls for,
//! advances the position by rewriting `source`, and plans the deliveries
//! that follow: none, one, or a whole fan-out batch. It performs no I/O: the
//! result of a routing pass is a value that says which events go where and
//! with which delivery guarantee, for the caller to carry out.
//!
//! * [`envelope`]: the event and its attributes;
//! * [`step`]: the steps of the workflow and the resolver;
//! * [`dispatch`]: dispatch policies, delivery guarantees and the fan-out;
//! * [`gather`]: the counter that tells when a fan-out batch has converged;
//! * [`context`]: the two ways in which the router is invoked;
//! * [`router`]: the routing pass that puts these together;
//! * [`laws`]: what holds of routing passes, proved;
//! * [`decimal`] and [`text`]: numerals and string comparison.

pub mod context;
pub mod decimal;
pub mod dispatch;
pub mod envelope;
pub mod gather;
pub mod laws;
pub mod router;
pub mod step;
pub mod text;

pub use crate::context::InvocationContext;
pub use crate::envelope::Envelope;
pub use crate::router::{process_event, Outcome, Router};
