//! The core of an operator that keeps trading strategies running on a cluster.
//!
//! A strategy is declared as a custom resource. For each strategy the operator keeps
//! two objects in the cluster, a workload and a service in front of it, and drives them
//! toward what the resource declares. This crate holds what the operator decides, and
//! proves it: which objects a declared state asks for ([`desired`]), how one reconcile
//! pass proceeds and how its failures are retried ([`reconciler`]), and when the loop
//! is started again ([`controller`]). Talking to the cluster is left to the caller.
//!
//! Two modules hold rules that are stated and proved but that no running code is held
//! to. [`controller`] writes down how triggers for one strategy are serialized; the
//! process leaves that work to its controller runtime and does not drive the state
//! machine. [`store`] is a mathematical picture of the resource store, with no code in
//! it: the laws on idempotence and convergence are laws of that picture.

pub mod controller;
pub mod desired;
pub mod labels;
pub mod reconciler;
pub mod resource;
pub mod runtime;
pub mod store;
