//! Backend ABI adapter.  Exactly one of two low-level calling conventions
//! is active per build: the legacy shape signals failure by returning a
//! null pointer, the modern shape by returning a negative descriptor.  This
//! module normalizes both into one attach outcome, and defines the plain
//! values that cross the boundary between the verified core and the code
//! that performs the kernel calls.

use vstd::prelude::*;
use crate::error::AttachError;

verus! {

/// Which end of the target function a probe observes.
#[derive(Clone, Copy, Debug, PartialEq, Eq, Structural)]
pub enum AttachType {
    /// Fire when the target function is entered.
    Entry,
    /// Fire when the target function returns.
    Return,
}

/// An already-valid instrumentation-program resource, identified by its
/// file descriptor.  This layer never creates or destroys the program; a
/// handle merely records which program its attachment is bound to, and the
/// embedding program keeps the underlying resource alive at least as long
/// as the handle.
#[derive(Clone, Copy, Debug, PartialEq, Eq, Structural)]
pub struct ProgramRef {
    pub fd: i32,
}

/// The opaque OS attachment handle a successful attach call produced:
/// pointer-shaped under the legacy ABI, descriptor-shaped under the modern
/// one.  It never escapes to callers except inside the final detach call,
/// whose performer must release it.
#[derive(Clone, Copy, Debug, PartialEq, Eq, Structural)]
pub enum OsHandle {
    /// Non-null opaque pointer returned by the legacy ABI shape.
    Pointer(usize),
    /// Non-negative descriptor returned by the modern ABI shape.
    Descriptor(i32),
}

/// What the active backend's raw attach call returned, before
/// normalization: the legacy shape yields a pointer value (null on
/// failure), the modern shape a descriptor (negative on failure).
#[derive(Clone, Copy, Debug, PartialEq, Eq, Structural)]
pub enum BackendReply {
    Pointer(usize),
    Descriptor(i32),
}

/// Whether the raw reply reports a successful attachment.
pub open spec fn reply_accepted(r: BackendReply) -> bool {
    match r {
        BackendReply::Pointer(p) => p != 0,
        BackendReply::Descriptor(d) => d >= 0,
    }
}

/// The OS attachment handle carried by an accepted reply.
pub open spec fn reply_handle(r: BackendReply) -> OsHandle {
    match r {
        BackendReply::Pointer(p) => OsHandle::Pointer(p),
        BackendReply::Descriptor(d) => OsHandle::Descriptor(d),
    }
}

/// The kernel-reported reason carried by a rejected reply: the negative
/// descriptor, or zero for the legacy null pointer.
pub open spec fn reply_code(r: BackendReply) -> i32 {
    match r {
        BackendReply::Pointer(_) => 0,
        BackendReply::Descriptor(d) => d,
    }
}

/// Normalizes a raw backend reply into the one attach outcome the handle
/// constructors consume, hiding which ABI shape was compiled in.
pub fn normalize_attach_reply(r: BackendReply) -> (out: Result<OsHandle, AttachError>)
    ensures
        reply_accepted(r) ==> out == Result::<OsHandle, AttachError>::Ok(reply_handle(r)),
        !reply_accepted(r) ==> out == Result::<OsHandle, AttachError>::Err(
            AttachError::AttachRejected(reply_code(r)),
        ),
{
    match r {
        BackendReply::Pointer(p) => {
            if p == 0 {
                Err(AttachError::AttachRejected(0))
            } else {
                Ok(OsHandle::Pointer(p))
            }
        },
        BackendReply::Descriptor(d) => {
            if d < 0 {
                Err(AttachError::AttachRejected(d))
            } else {
                Ok(OsHandle::Descriptor(d))
            }
        },
    }
}

/// The one detach call that releasing a handle yields.  It carries the
/// identifier (and category, for tracepoints) that was used at attach time,
/// and the OS attachment handle so its performer can release that resource
/// as well.  The performer's result is not surfaced to any caller: release
/// is infallible from the caller's point of view.
#[derive(Debug)]
pub enum DetachCall {
    Kprobe { name: String, attachment: OsHandle },
    Uprobe { name: String, attachment: OsHandle },
    Tracepoint { category: String, name: String, attachment: OsHandle },
    RawTracepoint { name: String, attachment: OsHandle },
}

} // verus!
