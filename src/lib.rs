//! Offloading a container's WebAssembly entry point to a remote execution host.
//!
//! The library holds the decisions of the offload path: how an entry point is
//! classified, how an invocation request is built from it, how the outcome of a
//! remote call becomes an exit code, and how the execution service steps
//! through one request. The I/O around those decisions lives outside.
use vstd::prelude::*;

pub mod classify;
pub mod request;
pub mod dispatch;
pub mod service;

verus! {

} // verus!
