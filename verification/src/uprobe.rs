//! User-space probes: entry and return probes on a function inside a
//! binary, located through an external symbol resolver.
//!
//! The resolver is a collaborator of the embedding program; its outcome is
//! handed in as a plain value.  On a successful resolution the constructor
//! builds the event identifier from the resolved path and load address,
//! embedding the address in lowercase hexadecimal for collision resistance
//! across binaries and addresses that share a symbol name.  Both probe
//! directions share the `r_` identifier prefix, matching the convention
//! this layer inherited.

use vstd::prelude::*;
use vstd::std_specs::cmp::PartialEqSpec;
use crate::backend::{
    AttachType, BackendReply, DetachCall, OsHandle, ProgramRef, normalize_attach_reply,
    reply_accepted, reply_code, reply_handle,
};
use crate::error::AttachError;
use crate::ident::{check_nul_free, lemma_uprobe_name_nul_free, nul_free, uprobe_event_name, uprobe_name};

verus! {

/// What the external symbol resolver reported: the normalized binary path
/// and absolute load address of the requested symbol, or that the symbol
/// could not be located.
#[derive(Debug)]
pub enum SymbolResolution {
    Found { path: String, address: u64 },
    NotFound,
}

/// A validated user-space probe attach call, ready to be performed.
#[derive(Debug)]
pub struct UprobeAttach {
    attach_type: AttachType,
    name: String,
    path: String,
    address: u64,
    program: ProgramRef,
    pid: i32,
    cpu: i32,
    group_fd: i32,
}

/// An owned user-space probe attachment, released exactly once by
/// consuming it through [`Uprobe::detach`].
#[derive(Debug, Eq)]
pub struct Uprobe {
    name: String,
    program: ProgramRef,
    attachment: OsHandle,
}

impl UprobeAttach {
    /// The event identifier the attachment will be addressable by.
    pub closed spec fn id(self) -> Seq<char> {
        self.name@
    }

    /// The resolved binary path handed to the attach call.
    pub closed spec fn target_path(self) -> Seq<char> {
        self.path@
    }

    pub closed spec fn spec_address(self) -> u64 {
        self.address
    }

    pub closed spec fn atype(self) -> AttachType {
        self.attach_type
    }

    pub closed spec fn prog(self) -> ProgramRef {
        self.program
    }

    pub closed spec fn spec_pid(self) -> i32 {
        self.pid
    }

    pub closed spec fn spec_cpu(self) -> i32 {
        self.cpu
    }

    pub closed spec fn spec_group_fd(self) -> i32 {
        self.group_fd
    }

    pub fn name(&self) -> (r: &String)
        ensures
            r@ == self.id(),
    {
        &self.name
    }

    pub fn path(&self) -> (r: &String)
        ensures
            r@ == self.target_path(),
    {
        &self.path
    }

    pub fn address(&self) -> (r: u64)
        ensures
            r == self.spec_address(),
    {
        self.address
    }

    pub fn attach_type(&self) -> (r: AttachType)
        ensures
            r == self.atype(),
    {
        self.attach_type
    }

    pub fn program(&self) -> (r: ProgramRef)
        ensures
            r == self.prog(),
    {
        self.program
    }

    pub fn pid(&self) -> (r: i32)
        ensures
            r == self.spec_pid(),
    {
        self.pid
    }

    pub fn cpu(&self) -> (r: i32)
        ensures
            r == self.spec_cpu(),
    {
        self.cpu
    }

    pub fn group_fd(&self) -> (r: i32)
        ensures
            r == self.spec_group_fd(),
    {
        self.group_fd
    }

    /// Consumes the raw reply of the performed attach call: an accepted
    /// reply yields the owned handle, a rejected one `AttachRejected` with
    /// the kernel-reported reason, and then no handle exists.
    pub fn complete(self, reply: BackendReply) -> (r: Result<Uprobe, AttachError>)
        ensures
            (match r {
                Ok(h) => reply_accepted(reply) && h.id() == self.id() && h.prog() == self.prog()
                    && h.os_handle() == reply_handle(reply),
                Err(e) => !reply_accepted(reply) && e == AttachError::AttachRejected(
                    reply_code(reply),
                ),
            }),
    {
        match normalize_attach_reply(reply) {
            Ok(os) => Ok(
                Uprobe { name: self.name, program: self.program, attachment: os },
            ),
            Err(e) => Err(e),
        }
    }
}

impl Uprobe {
    /// The event identifier the attachment is addressable by.
    pub closed spec fn id(self) -> Seq<char> {
        self.name@
    }

    pub closed spec fn prog(self) -> ProgramRef {
        self.program
    }

    pub closed spec fn os_handle(self) -> OsHandle {
        self.attachment
    }

    pub fn name(&self) -> (r: &String)
        ensures
            r@ == self.id(),
    {
        &self.name
    }

    pub fn program(&self) -> (r: ProgramRef)
        ensures
            r == self.prog(),
    {
        self.program
    }

    /// Requests a user-space entry probe on the resolved symbol, for the
    /// process `pid` (negative for all processes).  A failed resolution is
    /// reported as `SymbolResolutionFailed`; a resolved path holding a NUL
    /// byte as `InvalidIdentifier`; otherwise the attach call is built
    /// under the identifier `r_` + sanitized path + `_0x` + lowercase
    /// hexadecimal address.
    pub fn attach_uprobe(resolution: SymbolResolution, program: ProgramRef, pid: i32) -> (r:
        Result<UprobeAttach, AttachError>)
        ensures
            (match r {
                Ok(a) => (resolution matches SymbolResolution::Found { path, address }
                    && nul_free(path@) && a.id() == uprobe_name(path@, address) && a.atype()
                    == AttachType::Entry && a.target_path() == path@ && a.spec_address() == address
                    && a.prog() == program && a.spec_pid() == pid && a.spec_cpu() == 0
                    && a.spec_group_fd() == -1 && nul_free(a.id())),
                Err(e) => (match resolution {
                    SymbolResolution::Found { path, address } => !nul_free(path@) && e
                        == AttachError::InvalidIdentifier,
                    SymbolResolution::NotFound => e == AttachError::SymbolResolutionFailed,
                }),
            }),
    {
        Self::request(resolution, AttachType::Entry, program, pid)
    }

    /// Requests a user-space return probe; identical to
    /// [`Uprobe::attach_uprobe`] but for the probe direction.
    pub fn attach_uretprobe(resolution: SymbolResolution, program: ProgramRef, pid: i32) -> (r:
        Result<UprobeAttach, AttachError>)
        ensures
            (match r {
                Ok(a) => (resolution matches SymbolResolution::Found { path, address }
                    && nul_free(path@) && a.id() == uprobe_name(path@, address) && a.atype()
                    == AttachType::Return && a.target_path() == path@ && a.spec_address() == address
                    && a.prog() == program && a.spec_pid() == pid && a.spec_cpu() == 0
                    && a.spec_group_fd() == -1 && nul_free(a.id())),
                Err(e) => (match resolution {
                    SymbolResolution::Found { path, address } => !nul_free(path@) && e
                        == AttachError::InvalidIdentifier,
                    SymbolResolution::NotFound => e == AttachError::SymbolResolutionFailed,
                }),
            }),
    {
        Self::request(resolution, AttachType::Return, program, pid)
    }

    fn request(resolution: SymbolResolution, attach_type: AttachType, program: ProgramRef, pid: i32)
        -> (r: Result<UprobeAttach, AttachError>)
        ensures
            (match r {
                Ok(a) => (resolution matches SymbolResolution::Found { path, address }
                    && nul_free(path@) && a.id() == uprobe_name(path@, address) && a.atype()
                    == attach_type && a.target_path() == path@ && a.spec_address() == address
                    && a.prog() == program && a.spec_pid() == pid && a.spec_cpu() == 0
                    && a.spec_group_fd() == -1 && nul_free(a.id())),
                Err(e) => (match resolution {
                    SymbolResolution::Found { path, address } => !nul_free(path@) && e
                        == AttachError::InvalidIdentifier,
                    SymbolResolution::NotFound => e == AttachError::SymbolResolutionFailed,
                }),
            }),
    {
        match resolution {
            SymbolResolution::NotFound => Err(AttachError::SymbolResolutionFailed),
            SymbolResolution::Found { path, address } => {
                if !check_nul_free(path.as_str()) {
                    return Err(AttachError::InvalidIdentifier);
                }
                let name = uprobe_event_name(path.as_str(), address);
                proof {
                    lemma_uprobe_name_nul_free(path@, address);
                }
                Ok(
                    UprobeAttach {
                        attach_type,
                        name,
                        path,
                        address,
                        program,
                        pid,
                        cpu: 0,
                        group_fd: -1,
                    },
                )
            },
        }
    }

    /// Releases the handle: consumes it and yields the one detach call,
    /// keyed on the identifier that was used at attach time.
    pub fn detach(self) -> (r: DetachCall)
        ensures
            (r matches DetachCall::Uprobe { name, attachment } && name@ == self.id()
                && attachment == self.os_handle()),
    {
        DetachCall::Uprobe { name: self.name, attachment: self.attachment }
    }
}

impl PartialEq for Uprobe {
    /// Identity comparison: equality of the event identifiers alone.
    fn eq(&self, other: &Uprobe) -> (r: bool) {
        self.name == other.name
    }
}

impl vstd::std_specs::cmp::PartialEqSpecImpl for Uprobe {
    open spec fn obeys_eq_spec() -> bool {
        true
    }

    open spec fn eq_spec(&self, other: &Uprobe) -> bool {
        self.id() == other.id()
    }
}

/// Identity is a pure function of the identifier: handles with equal event
/// names compare equal whatever their program references or OS attachment
/// handles, and handles with differing event names never compare equal.
pub proof fn lemma_uprobe_identity(a: Uprobe, b: Uprobe)
    ensures
        a.eq_spec(&b) <==> a.id() == b.id(),
{
}

} // verus!
