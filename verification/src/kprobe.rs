//! Kernel-function probes: entry (`p_`-prefixed) and return
//! (`r_`-prefixed) probes on kernel functions.
//!
//! Attachment is two-phased.  A constructor validates the inputs and
//! builds the attach call as a value; the embedding program performs the
//! kernel call and hands the raw reply back to `complete`, which either
//! yields the owned handle or reports the rejection.  Releasing the handle
//! consumes it and yields the one detach call for its identifier.

use vstd::prelude::*;
use vstd::std_specs::cmp::PartialEqSpec;
use crate::backend::{
    AttachType, BackendReply, DetachCall, OsHandle, ProgramRef, normalize_attach_reply,
    reply_accepted, reply_code, reply_handle,
};
use crate::error::AttachError;
use crate::ident::{
    check_nul_free, entry_name, entry_probe_name, lemma_probe_names_nul_free, nul_free,
    return_name, return_probe_name,
};

verus! {

/// A validated kernel-probe attach call, ready to be performed: the event
/// identifier is built and every string is known NUL-free.
#[derive(Debug)]
pub struct KprobeAttach {
    attach_type: AttachType,
    name: String,
    function: String,
    program: ProgramRef,
    pid: i32,
    cpu: i32,
    group_fd: i32,
}

/// An owned kernel-probe attachment.  It exists only if the kernel call
/// succeeded, and it is released exactly once, by consuming it through
/// [`Kprobe::detach`].
#[derive(Debug, Eq)]
pub struct Kprobe {
    name: String,
    program: ProgramRef,
    attachment: OsHandle,
}

impl KprobeAttach {
    /// The event identifier the attachment will be addressable by.
    pub closed spec fn id(self) -> Seq<char> {
        self.name@
    }

    /// The raw kernel function name handed to the attach call.
    pub closed spec fn target(self) -> Seq<char> {
        self.function@
    }

    pub closed spec fn atype(self) -> AttachType {
        self.attach_type
    }

    pub closed spec fn prog(self) -> ProgramRef {
        self.program
    }

    pub closed spec fn spec_pid(self) -> i32 {
        self.pid
    }

    pub closed spec fn spec_cpu(self) -> i32 {
        self.cpu
    }

    pub closed spec fn spec_group_fd(self) -> i32 {
        self.group_fd
    }

    pub fn name(&self) -> (r: &String)
        ensures
            r@ == self.id(),
    {
        &self.name
    }

    pub fn function(&self) -> (r: &String)
        ensures
            r@ == self.target(),
    {
        &self.function
    }

    pub fn attach_type(&self) -> (r: AttachType)
        ensures
            r == self.atype(),
    {
        self.attach_type
    }

    pub fn program(&self) -> (r: ProgramRef)
        ensures
            r == self.prog(),
    {
        self.program
    }

    pub fn pid(&self) -> (r: i32)
        ensures
            r == self.spec_pid(),
    {
        self.pid
    }

    pub fn cpu(&self) -> (r: i32)
        ensures
            r == self.spec_cpu(),
    {
        self.cpu
    }

    pub fn group_fd(&self) -> (r: i32)
        ensures
            r == self.spec_group_fd(),
    {
        self.group_fd
    }

    /// Consumes the raw reply of the performed attach call.  An accepted
    /// reply yields the owned handle, bound to this call's identifier and
    /// program; a rejected reply yields `AttachRejected` with the
    /// kernel-reported reason, and no handle exists.
    pub fn complete(self, reply: BackendReply) -> (r: Result<Kprobe, AttachError>)
        ensures
            (match r {
                Ok(h) => reply_accepted(reply) && h.id() == self.id() && h.prog() == self.prog()
                    && h.os_handle() == reply_handle(reply),
                Err(e) => !reply_accepted(reply) && e == AttachError::AttachRejected(
                    reply_code(reply),
                ),
            }),
    {
        match normalize_attach_reply(reply) {
            Ok(os) => Ok(
                Kprobe { name: self.name, program: self.program, attachment: os },
            ),
            Err(e) => Err(e),
        }
    }
}

impl Kprobe {
    /// The event identifier the attachment is addressable by.
    pub closed spec fn id(self) -> Seq<char> {
        self.name@
    }

    pub closed spec fn prog(self) -> ProgramRef {
        self.program
    }

    pub closed spec fn os_handle(self) -> OsHandle {
        self.attachment
    }

    pub fn name(&self) -> (r: &String)
        ensures
            r@ == self.id(),
    {
        &self.name
    }

    pub fn program(&self) -> (r: ProgramRef)
        ensures
            r == self.prog(),
    {
        self.program
    }

    /// Requests a function-entry probe: validates that `function` is
    /// NUL-free and builds the attach call under the identifier
    /// `p_` + sanitized function name.
    pub fn attach_kprobe(function: &str, program: ProgramRef) -> (r: Result<
        KprobeAttach,
        AttachError,
    >)
        ensures
            (match r {
                Ok(a) => nul_free(function@) && a.id() == entry_name(function@) && a.atype()
                    == AttachType::Entry && a.target() == function@ && a.prog() == program
                    && a.spec_pid() == -1 && a.spec_cpu() == 0 && a.spec_group_fd() == -1
                    && nul_free(a.id()),
                Err(e) => !nul_free(function@) && e == AttachError::InvalidIdentifier,
            }),
    {
        if !check_nul_free(function) {
            return Err(AttachError::InvalidIdentifier);
        }
        let name = entry_probe_name(function);
        proof {
            lemma_probe_names_nul_free(function@);
        }
        Ok(
            KprobeAttach {
                attach_type: AttachType::Entry,
                name,
                function: String::from_str(function),
                program,
                pid: -1,
                cpu: 0,
                group_fd: -1,
            },
        )
    }

    /// Requests a function-return probe: validates that `function` is
    /// NUL-free and builds the attach call under the identifier
    /// `r_` + sanitized function name.
    pub fn attach_kretprobe(function: &str, program: ProgramRef) -> (r: Result<
        KprobeAttach,
        AttachError,
    >)
        ensures
            (match r {
                Ok(a) => nul_free(function@) && a.id() == return_name(function@) && a.atype()
                    == AttachType::Return && a.target() == function@ && a.prog() == program
                    && a.spec_pid() == -1 && a.spec_cpu() == 0 && a.spec_group_fd() == -1
                    && nul_free(a.id()),
                Err(e) => !nul_free(function@) && e == AttachError::InvalidIdentifier,
            }),
    {
        if !check_nul_free(function) {
            return Err(AttachError::InvalidIdentifier);
        }
        let name = return_probe_name(function);
        proof {
            lemma_probe_names_nul_free(function@);
        }
        Ok(
            KprobeAttach {
                attach_type: AttachType::Return,
                name,
                function: String::from_str(function),
                program,
                pid: -1,
                cpu: 0,
                group_fd: -1,
            },
        )
    }

    /// Releases the handle: consumes it and yields the one detach call,
    /// keyed on the identifier that was used at attach time.  Ownership
    /// makes a second detach for the same handle impossible.
    pub fn detach(self) -> (r: DetachCall)
        ensures
            (r matches DetachCall::Kprobe { name, attachment } && name@ == self.id()
                && attachment == self.os_handle()),
    {
        DetachCall::Kprobe { name: self.name, attachment: self.attachment }
    }
}

impl PartialEq for Kprobe {
    /// Identity comparison: two handles are equal exactly when their event
    /// identifiers are equal, whatever their program or OS attachment
    /// handles.
    fn eq(&self, other: &Kprobe) -> (r: bool) {
        self.name == other.name
    }
}

impl vstd::std_specs::cmp::PartialEqSpecImpl for Kprobe {
    open spec fn obeys_eq_spec() -> bool {
        true
    }

    open spec fn eq_spec(&self, other: &Kprobe) -> bool {
        self.id() == other.id()
    }
}

/// Identity is a pure function of the identifier: handles with equal event
/// names compare equal even when their program references or OS attachment
/// handles differ, and handles with differing event names never compare
/// equal.
pub proof fn lemma_kprobe_identity(a: Kprobe, b: Kprobe)
    ensures
        a.eq_spec(&b) <==> a.id() == b.id(),
{
}

} // verus!
