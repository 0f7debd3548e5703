//! Decision core of a write-ahead-log interceptor that keeps a storage
//! engine's log from being truncated before its frames are durably
//! replicated.
//!
//! The interceptor sits between the engine and its log. Every operation is
//! still carried out by the wrapped log; what this crate decides is the order
//! in which the wrapped log and the replication session are consulted, and
//! what the engine is told in the end. Each intercepted operation is a small
//! protocol: the crate issues one action at a time, the host performs it
//! (locking the session slot, awaiting the replicator, calling the wrapped
//! log) and answers with an event. The host owns all waiting; the protocol
//! owns all decisions.
//!
//! - [`mode`]: checkpoint strengths and their order.
//! - [`failure`]: why an operation was refused, and the engine error that
//!   reports it.
//! - [`session`]: the slot that holds the replication session until shutdown.
//! - [`protocol`]: what a run of a protocol is: the state reached and the
//!   actions issued for a sequence of events.
//! - [`checkpoint`], [`insert_frames`], [`savepoint_undo`], [`close`]: the
//!   four intercepted operations.
//! - [`checkpoint_laws`], [`insert_frames_laws`]: what holds of every
//!   checkpoint and of every insert.
pub mod failure;
pub mod mode;
pub mod protocol;
pub mod session;
pub mod checkpoint;
pub mod checkpoint_laws;
pub mod insert_frames;
pub mod insert_frames_laws;
pub mod savepoint_undo;
pub mod close;
