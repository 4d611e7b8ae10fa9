//! Static kernel tracepoints, identified by a category and a name.  The
//! pair is passed to the kernel as given — no sanitization or prefixing —
//! so both strings must be NUL-free, and together they form the handle's
//! identity.

use vstd::prelude::*;
use vstd::std_specs::cmp::PartialEqSpec;
use crate::backend::{
    BackendReply, DetachCall, OsHandle, ProgramRef, normalize_attach_reply, reply_accepted,
    reply_code, reply_handle,
};
use crate::error::AttachError;
use crate::ident::{check_nul_free, nul_free};

verus! {

/// A validated tracepoint attach call, ready to be performed.
#[derive(Debug)]
pub struct TracepointAttach {
    category: String,
    name: String,
    program: ProgramRef,
    pid: i32,
    cpu: i32,
    group_fd: i32,
}

/// An owned tracepoint attachment, released exactly once by consuming it
/// through [`Tracepoint::detach`].
#[derive(Debug, Eq)]
pub struct Tracepoint {
    category: String,
    name: String,
    program: ProgramRef,
    attachment: OsHandle,
}

impl TracepointAttach {
    /// The tracepoint category the attachment is keyed on.
    pub closed spec fn category_id(self) -> Seq<char> {
        self.category@
    }

    /// The tracepoint name the attachment is keyed on.
    pub closed spec fn id(self) -> Seq<char> {
        self.name@
    }

    pub closed spec fn prog(self) -> ProgramRef {
        self.program
    }

    pub closed spec fn spec_pid(self) -> i32 {
        self.pid
    }

    pub closed spec fn spec_cpu(self) -> i32 {
        self.cpu
    }

    pub closed spec fn spec_group_fd(self) -> i32 {
        self.group_fd
    }

    pub fn category(&self) -> (r: &String)
        ensures
            r@ == self.category_id(),
    {
        &self.category
    }

    pub fn name(&self) -> (r: &String)
        ensures
            r@ == self.id(),
    {
        &self.name
    }

    pub fn program(&self) -> (r: ProgramRef)
        ensures
            r == self.prog(),
    {
        self.program
    }

    pub fn pid(&self) -> (r: i32)
        ensures
            r == self.spec_pid(),
    {
        self.pid
    }

    pub fn cpu(&self) -> (r: i32)
        ensures
            r == self.spec_cpu(),
    {
        self.cpu
    }

    pub fn group_fd(&self) -> (r: i32)
        ensures
            r == self.spec_group_fd(),
    {
        self.group_fd
    }

    /// Consumes the raw reply of the performed attach call: an accepted
    /// reply yields the owned handle, a rejected one `AttachRejected` with
    /// the kernel-reported reason, and then no handle exists.
    pub fn complete(self, reply: BackendReply) -> (r: Result<Tracepoint, AttachError>)
        ensures
            (match r {
                Ok(h) => reply_accepted(reply) && h.category_id() == self.category_id() && h.id()
                    == self.id() && h.prog() == self.prog() && h.os_handle() == reply_handle(reply),
                Err(e) => !reply_accepted(reply) && e == AttachError::AttachRejected(
                    reply_code(reply),
                ),
            }),
    {
        match normalize_attach_reply(reply) {
            Ok(os) => Ok(
                Tracepoint {
                    category: self.category,
                    name: self.name,
                    program: self.program,
                    attachment: os,
                },
            ),
            Err(e) => Err(e),
        }
    }
}

impl Tracepoint {
    /// The tracepoint category the attachment is keyed on.
    pub closed spec fn category_id(self) -> Seq<char> {
        self.category@
    }

    /// The tracepoint name the attachment is keyed on.
    pub closed spec fn id(self) -> Seq<char> {
        self.name@
    }

    pub closed spec fn prog(self) -> ProgramRef {
        self.program
    }

    pub closed spec fn os_handle(self) -> OsHandle {
        self.attachment
    }

    pub fn category(&self) -> (r: &String)
        ensures
            r@ == self.category_id(),
    {
        &self.category
    }

    pub fn name(&self) -> (r: &String)
        ensures
            r@ == self.id(),
    {
        &self.name
    }

    pub fn program(&self) -> (r: ProgramRef)
        ensures
            r == self.prog(),
    {
        self.program
    }

    /// Requests a tracepoint attachment for `category:name`: validates
    /// that both strings are NUL-free and builds the attach call.  The
    /// name is checked first, so a NUL in either string is reported as
    /// `InvalidIdentifier`.
    pub fn attach_tracepoint(category: &str, name: &str, program: ProgramRef) -> (r: Result<
        TracepointAttach,
        AttachError,
    >)
        ensures
            (match r {
                Ok(a) => nul_free(category@) && nul_free(name@) && a.category_id() == category@
                    && a.id() == name@ && a.prog() == program && a.spec_pid() == -1 && a.spec_cpu()
                    == 0 && a.spec_group_fd() == -1,
                Err(e) => (!nul_free(category@) || !nul_free(name@)) && e
                    == AttachError::InvalidIdentifier,
            }),
    {
        if !check_nul_free(name) {
            return Err(AttachError::InvalidIdentifier);
        }
        if !check_nul_free(category) {
            return Err(AttachError::InvalidIdentifier);
        }
        Ok(
            TracepointAttach {
                category: String::from_str(category),
                name: String::from_str(name),
                program,
                pid: -1,
                cpu: 0,
                group_fd: -1,
            },
        )
    }

    /// Releases the handle: consumes it and yields the one detach call,
    /// keyed on the category and name that were used at attach time.
    pub fn detach(self) -> (r: DetachCall)
        ensures
            (r matches DetachCall::Tracepoint { category, name, attachment } && category@
                == self.category_id() && name@ == self.id() && attachment == self.os_handle()),
    {
        DetachCall::Tracepoint {
            category: self.category,
            name: self.name,
            attachment: self.attachment,
        }
    }
}

impl PartialEq for Tracepoint {
    /// Identity comparison: equality of the category and name alone.
    fn eq(&self, other: &Tracepoint) -> (r: bool) {
        self.category == other.category && self.name == other.name
    }
}

impl vstd::std_specs::cmp::PartialEqSpecImpl for Tracepoint {
    open spec fn obeys_eq_spec() -> bool {
        true
    }

    open spec fn eq_spec(&self, other: &Tracepoint) -> bool {
        self.category_id() == other.category_id() && self.id() == other.id()
    }
}

/// Identity is a pure function of the category and name: handles agreeing
/// on both compare equal whatever their program references or OS
/// attachment handles, and handles differing in either never compare
/// equal.
pub proof fn lemma_tracepoint_identity(a: Tracepoint, b: Tracepoint)
    ensures
        a.eq_spec(&b) <==> (a.category_id() == b.category_id() && a.id() == b.id()),
{
}

} // verus!
