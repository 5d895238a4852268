//! A lightweight framework for Kubernetes controllers, with every decision it
//! takes stated as a contract and proved by Verus.
//!
//! * [`Context`] and [`Controller`] drive the reconciliation of one kind of
//!   resource: which finalizer patch to send, when to apply or clean up, when
//!   to look at a resource again, and how long to back off after errors.
//! * [`LeaderElection`] elects one of several replicas with a `Lease` object.
//!
//! The library sends no requests and sets no timers. Each operation that talks
//! to the API server is a function from its state and an event to the next
//! thing to do; the surrounding program does it and hands the outcome back.
//! Where a decision depends on chance or on the time of day, there is also a
//! function that takes those as arguments, with an exact contract.

pub mod action;
pub mod context;
pub mod controller;
pub mod exclusion;
pub mod finalizer;
pub mod leader_election;
pub mod lease;
pub mod outside;
pub mod time;

pub use action::Action;
pub use context::Context;
pub use controller::Controller;
pub use leader_election::LeaderElection;
