//! Probe attachment and lifecycle layer for kernel instrumentation programs.
//!
//! The library builds kernel-legal event identifiers from caller-supplied
//! strings, normalizes the two backend ABI shapes (opaque pointer vs.
//! descriptor) into one attach/detach contract, and hands out handle values
//! whose release yields exactly one detach call for the identifier that was
//! used at attach time.  The kernel calls themselves are performed by the
//! embedding program; this crate decides what to call, with what arguments,
//! and what each outcome means.

pub mod backend;
pub mod error;
pub mod ident;
pub mod kprobe;
pub mod raw_tracepoint;
pub mod tracepoint;
pub mod uprobe;
