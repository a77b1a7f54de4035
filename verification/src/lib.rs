//! Unix Doors, without the system calls.
//!
//! A door lets a process offer a procedure at a path of the file system.
//! Clients invoke it with a buffer of request bytes and get a buffer of reply
//! bytes back; the kernel carries the bytes and runs the procedure on a
//! thread of the server.
//!
//! This crate holds every decision that using a door takes, and none of the
//! system calls. A client call ([`door_call`], [`door_call_slice`],
//! [`door_callp`]) and a server ([`door_create`], [`door_run`]) are values
//! that say what is to be done next and take the outcome back; the caller
//! carries the steps out. [`door`] checks that a function can serve as a
//! handler and describes the server procedure to generate for it.
//!
//! The module [`model`] says what carrying out a client call does to an
//! address space, and proves that the reply arrives.

pub mod adapter;
pub mod client;
pub mod error;
pub mod model;
pub mod server;
pub mod sys;

pub use adapter::door;
pub use client::{door_call, door_call_slice, door_callp};
pub use server::{door_create, door_run};
