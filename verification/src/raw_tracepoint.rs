//! Raw tracepoints: a tracepoint variant attached by name alone, without
//! argument-format metadata.  The name is passed to the kernel as given,
//! so it must be NUL-free, and it is the handle's whole identity.

use vstd::prelude::*;
use vstd::std_specs::cmp::PartialEqSpec;
use crate::backend::{
    BackendReply, DetachCall, OsHandle, ProgramRef, normalize_attach_reply, reply_accepted,
    reply_code, reply_handle,
};
use crate::error::AttachError;
use crate::ident::{check_nul_free, nul_free};

verus! {

/// A validated raw-tracepoint attach call, ready to be performed.
#[derive(Debug)]
pub struct RawTracepointAttach {
    name: String,
    program: ProgramRef,
}

/// An owned raw-tracepoint attachment, released exactly once by consuming
/// it through [`RawTracepoint::detach`].
#[derive(Debug, Eq)]
pub struct RawTracepoint {
    name: String,
    program: ProgramRef,
    attachment: OsHandle,
}

impl RawTracepointAttach {
    /// The tracepoint name the attachment is keyed on.
    pub closed spec fn id(self) -> Seq<char> {
        self.name@
    }

    pub closed spec fn prog(self) -> ProgramRef {
        self.program
    }

    pub fn name(&self) -> (r: &String)
        ensures
            r@ == self.id(),
    {
        &self.name
    }

    pub fn program(&self) -> (r: ProgramRef)
        ensures
            r == self.prog(),
    {
        self.program
    }

    /// Consumes the raw reply of the performed attach call: an accepted
    /// reply yields the owned handle, a rejected one `AttachRejected` with
    /// the kernel-reported reason, and then no handle exists.
    pub fn complete(self, reply: BackendReply) -> (r: Result<RawTracepoint, AttachError>)
        ensures
            (match r {
                Ok(h) => reply_accepted(reply) && h.id() == self.id() && h.prog() == self.prog()
                    && h.os_handle() == reply_handle(reply),
                Err(e) => !reply_accepted(reply) && e == AttachError::AttachRejected(
                    reply_code(reply),
                ),
            }),
    {
        match normalize_attach_reply(reply) {
            Ok(os) => Ok(
                RawTracepoint { name: self.name, program: self.program, attachment: os },
            ),
            Err(e) => Err(e),
        }
    }
}

impl RawTracepoint {
    /// The tracepoint name the attachment is keyed on.
    pub closed spec fn id(self) -> Seq<char> {
        self.name@
    }

    pub closed spec fn prog(self) -> ProgramRef {
        self.program
    }

    pub closed spec fn os_handle(self) -> OsHandle {
        self.attachment
    }

    pub fn name(&self) -> (r: &String)
        ensures
            r@ == self.id(),
    {
        &self.name
    }

    pub fn program(&self) -> (r: ProgramRef)
        ensures
            r == self.prog(),
    {
        self.program
    }

    /// Requests a raw-tracepoint attachment for `name`: validates that the
    /// name is NUL-free and builds the attach call.
    pub fn attach_raw_tracepoint(name: &str, program: ProgramRef) -> (r: Result<
        RawTracepointAttach,
        AttachError,
    >)
        ensures
            (match r {
                Ok(a) => nul_free(name@) && a.id() == name@ && a.prog() == program,
                Err(e) => !nul_free(name@) && e == AttachError::InvalidIdentifier,
            }),
    {
        if !check_nul_free(name) {
            return Err(AttachError::InvalidIdentifier);
        }
        Ok(RawTracepointAttach { name: String::from_str(name), program })
    }

    /// Releases the handle: consumes it and yields the one detach call,
    /// keyed on the name that was used at attach time.
    pub fn detach(self) -> (r: DetachCall)
        ensures
            (r matches DetachCall::RawTracepoint { name, attachment } && name@ == self.id()
                && attachment == self.os_handle()),
    {
        DetachCall::RawTracepoint { name: self.name, attachment: self.attachment }
    }
}

impl PartialEq for RawTracepoint {
    /// Identity comparison: equality of the names alone.
    fn eq(&self, other: &RawTracepoint) -> (r: bool) {
        self.name == other.name
    }
}

impl vstd::std_specs::cmp::PartialEqSpecImpl for RawTracepoint {
    open spec fn obeys_eq_spec() -> bool {
        true
    }

    open spec fn eq_spec(&self, other: &RawTracepoint) -> bool {
        self.id() == other.id()
    }
}

/// Identity is a pure function of the name: handles with equal names
/// compare equal whatever their program references or OS attachment
/// handles, and handles with differing names never compare equal.
pub proof fn lemma_raw_tracepoint_identity(a: RawTracepoint, b: RawTracepoint)
    ensures
        a.eq_spec(&b) <==> a.id() == b.id(),
{
}

} // verus!
