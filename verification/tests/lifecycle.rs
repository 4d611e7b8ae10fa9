use std::collections::hash_map::DefaultHasher;
use std::hash::{Hash, Hasher};

use bcc_probes::backend::{AttachType, BackendReply, DetachCall, OsHandle, ProgramRef};
use bcc_probes::error::AttachError;
use bcc_probes::kprobe::{Kprobe, KprobeAttach};
use bcc_probes::raw_tracepoint::RawTracepoint;
use bcc_probes::tracepoint::Tracepoint;
use bcc_probes::uprobe::{SymbolResolution, Uprobe};

/// A test double standing in for the kernel tracing backend: it records
/// every attach and detach call it is asked to perform and replies with a
/// preset value.
struct StubBackend {
    reply: BackendReply,
    attached: Vec<String>,
    detached: Vec<String>,
}

impl StubBackend {
    fn new(reply: BackendReply) -> Self {
        StubBackend {
            reply,
            attached: Vec::new(),
            detached: Vec::new(),
        }
    }

    fn perform_kprobe_attach(&mut self, call: &KprobeAttach) -> BackendReply {
        self.attached.push(call.name().clone());
        self.reply
    }

    fn perform_detach(&mut self, call: &DetachCall) {
        let name = match call {
            DetachCall::Kprobe { name, .. } => name,
            DetachCall::Uprobe { name, .. } => name,
            DetachCall::Tracepoint { name, .. } => name,
            DetachCall::RawTracepoint { name, .. } => name,
        };
        self.detached.push(name.clone());
    }
}

fn hash_of<T: Hash>(value: &T) -> u64 {
    let mut hasher = DefaultHasher::new();
    value.hash(&mut hasher);
    hasher.finish()
}

#[test]
fn kprobe_attach_builds_entry_identifier() {
    let attach = Kprobe::attach_kprobe("do_sys_open", ProgramRef { fd: 3 }).unwrap();
    assert_eq!(attach.name().as_str(), "p_do_sys_open");
    assert_eq!(attach.function().as_str(), "do_sys_open");
    assert_eq!(attach.attach_type(), AttachType::Entry);
    assert_eq!(attach.program(), ProgramRef { fd: 3 });
    assert_eq!(attach.pid(), -1);
    assert_eq!(attach.cpu(), 0);
    assert_eq!(attach.group_fd(), -1);
}

#[test]
fn kretprobe_attach_builds_return_identifier() {
    let attach = Kprobe::attach_kretprobe("do_sys_open", ProgramRef { fd: 3 }).unwrap();
    assert_eq!(attach.name().as_str(), "r_do_sys_open");
    assert_eq!(attach.attach_type(), AttachType::Return);
}

#[test]
fn nul_in_function_rejected_before_any_kernel_call() {
    let mut backend = StubBackend::new(BackendReply::Descriptor(4));
    let err = Kprobe::attach_kprobe("bad\0name", ProgramRef { fd: 3 }).unwrap_err();
    assert_eq!(err, AttachError::InvalidIdentifier);
    let err = Kprobe::attach_kretprobe("bad\0name", ProgramRef { fd: 3 }).unwrap_err();
    assert_eq!(err, AttachError::InvalidIdentifier);
    // No attach value was ever produced, so the backend saw nothing.
    assert!(backend.attached.is_empty());
    assert!(backend.detached.is_empty());
}

#[test]
fn rejected_reply_yields_attach_rejected_and_no_handle() {
    let mut backend = StubBackend::new(BackendReply::Descriptor(-13));
    let attach = Kprobe::attach_kprobe("vfs_read", ProgramRef { fd: 3 }).unwrap();
    let reply = backend.perform_kprobe_attach(&attach);
    let err = attach.complete(reply).unwrap_err();
    assert_eq!(err, AttachError::AttachRejected(-13));
    // One attach call was made; no handle exists, so no detach ever will be.
    assert_eq!(backend.attached, vec!["p_vfs_read".to_string()]);
    assert!(backend.detached.is_empty());
}

#[test]
fn null_pointer_reply_yields_attach_rejected() {
    let attach = Kprobe::attach_kprobe("vfs_read", ProgramRef { fd: 3 }).unwrap();
    let err = attach.complete(BackendReply::Pointer(0)).unwrap_err();
    assert_eq!(err, AttachError::AttachRejected(0));
}

#[test]
fn successful_lifecycle_detaches_exactly_once_with_same_identifier() {
    let mut backend = StubBackend::new(BackendReply::Descriptor(17));
    let attach = Kprobe::attach_kprobe("do_sys_open", ProgramRef { fd: 3 }).unwrap();
    let reply = backend.perform_kprobe_attach(&attach);
    let handle = attach.complete(reply).unwrap();
    assert_eq!(handle.name().as_str(), "p_do_sys_open");

    let detach = handle.detach();
    backend.perform_detach(&detach);
    match detach {
        DetachCall::Kprobe { name, attachment } => {
            assert_eq!(name, "p_do_sys_open");
            assert_eq!(attachment, OsHandle::Descriptor(17));
        }
        other => panic!("wrong detach call: {:?}", other),
    }
    assert_eq!(backend.attached, vec!["p_do_sys_open".to_string()]);
    assert_eq!(backend.detached, vec!["p_do_sys_open".to_string()]);
}

#[test]
fn legacy_pointer_reply_carries_through_to_detach() {
    let attach = Kprobe::attach_kretprobe("finish_task_switch", ProgramRef { fd: 9 }).unwrap();
    let handle = attach.complete(BackendReply::Pointer(0x5577_0010)).unwrap();
    assert_eq!(handle.name().as_str(), "r_finish_task_switch");
    match handle.detach() {
        DetachCall::Kprobe { name, attachment } => {
            assert_eq!(name, "r_finish_task_switch");
            assert_eq!(attachment, OsHandle::Pointer(0x5577_0010));
        }
        other => panic!("wrong detach call: {:?}", other),
    }
}

#[test]
fn kprobe_identity_ignores_program_and_attachment() {
    let h1 = Kprobe::attach_kprobe("do_sys_open", ProgramRef { fd: 3 })
        .unwrap()
        .complete(BackendReply::Descriptor(5))
        .unwrap();
    let h2 = Kprobe::attach_kprobe("do_sys_open", ProgramRef { fd: 8 })
        .unwrap()
        .complete(BackendReply::Pointer(0x1000))
        .unwrap();
    let h3 = Kprobe::attach_kretprobe("do_sys_open", ProgramRef { fd: 3 })
        .unwrap()
        .complete(BackendReply::Descriptor(5))
        .unwrap();
    assert_eq!(h1, h2);
    assert_ne!(h1, h3);
    assert_eq!(hash_of(h1.name()), hash_of(h2.name()));
}

#[test]
fn uprobe_end_to_end_with_stubbed_resolver() {
    // The resolver, stubbed: "/bin/true" / "main" resolved to 0x401000.
    let resolution = SymbolResolution::Found {
        path: "/bin/true".to_string(),
        address: 0x401000,
    };
    let attach = Uprobe::attach_uprobe(resolution, ProgramRef { fd: 3 }, 1234).unwrap();
    // "r_" + sanitized path + "_0x" + lowercase hex address; the leading
    // slash of the path sanitizes to an underscore of its own.
    assert_eq!(attach.name().as_str(), "r__bin_true_0x401000");
    assert_eq!(attach.path().as_str(), "/bin/true");
    assert_eq!(attach.address(), 0x401000);
    assert_eq!(attach.attach_type(), AttachType::Entry);
    assert_eq!(attach.pid(), 1234);

    let handle = attach.complete(BackendReply::Descriptor(11)).unwrap();
    assert_eq!(handle.name().as_str(), "r__bin_true_0x401000");
    match handle.detach() {
        DetachCall::Uprobe { name, attachment } => {
            assert_eq!(name, "r__bin_true_0x401000");
            assert_eq!(attachment, OsHandle::Descriptor(11));
        }
        other => panic!("wrong detach call: {:?}", other),
    }
}

#[test]
fn uretprobe_shares_the_inherited_prefix() {
    let resolution = SymbolResolution::Found {
        path: "/bin/true".to_string(),
        address: 0x401000,
    };
    let attach = Uprobe::attach_uretprobe(resolution, ProgramRef { fd: 3 }, -1).unwrap();
    assert_eq!(attach.name().as_str(), "r__bin_true_0x401000");
    assert_eq!(attach.attach_type(), AttachType::Return);
}

#[test]
fn unresolved_symbol_reported() {
    let err = Uprobe::attach_uprobe(SymbolResolution::NotFound, ProgramRef { fd: 3 }, 1234)
        .unwrap_err();
    assert_eq!(err, AttachError::SymbolResolutionFailed);
}

#[test]
fn nul_in_resolved_path_rejected() {
    let resolution = SymbolResolution::Found {
        path: "/bin/\0true".to_string(),
        address: 0x401000,
    };
    let err = Uprobe::attach_uprobe(resolution, ProgramRef { fd: 3 }, 1234).unwrap_err();
    assert_eq!(err, AttachError::InvalidIdentifier);
}

#[test]
fn uprobe_identity_follows_identifier() {
    let mk = |fd: i32, addr: u64| {
        Uprobe::attach_uprobe(
            SymbolResolution::Found {
                path: "/bin/true".to_string(),
                address: addr,
            },
            ProgramRef { fd },
            -1,
        )
        .unwrap()
        .complete(BackendReply::Descriptor(fd + 40))
        .unwrap()
    };
    let h1 = mk(3, 0x401000);
    let h2 = mk(9, 0x401000);
    let h3 = mk(3, 0x401001);
    assert_eq!(h1, h2);
    assert_ne!(h1, h3);
    assert_eq!(hash_of(h1.name()), hash_of(h2.name()));
}

#[test]
fn tracepoint_carries_category_and_name_verbatim() {
    let attach =
        Tracepoint::attach_tracepoint("sched", "sched_switch", ProgramRef { fd: 3 }).unwrap();
    assert_eq!(attach.category().as_str(), "sched");
    assert_eq!(attach.name().as_str(), "sched_switch");
    assert_eq!(attach.pid(), -1);
    assert_eq!(attach.cpu(), 0);
    assert_eq!(attach.group_fd(), -1);

    let handle = attach.complete(BackendReply::Descriptor(6)).unwrap();
    assert_eq!(handle.category().as_str(), "sched");
    assert_eq!(handle.name().as_str(), "sched_switch");
    match handle.detach() {
        DetachCall::Tracepoint {
            category,
            name,
            attachment,
        } => {
            assert_eq!(category, "sched");
            assert_eq!(name, "sched_switch");
            assert_eq!(attachment, OsHandle::Descriptor(6));
        }
        other => panic!("wrong detach call: {:?}", other),
    }
}

#[test]
fn tracepoint_rejects_nul_in_either_string() {
    let err = Tracepoint::attach_tracepoint("sched", "bad\0", ProgramRef { fd: 3 }).unwrap_err();
    assert_eq!(err, AttachError::InvalidIdentifier);
    let err = Tracepoint::attach_tracepoint("ba\0d", "sched_switch", ProgramRef { fd: 3 })
        .unwrap_err();
    assert_eq!(err, AttachError::InvalidIdentifier);
}

#[test]
fn tracepoint_identity_is_category_and_name() {
    let mk = |category: &str, name: &str, fd: i32| {
        Tracepoint::attach_tracepoint(category, name, ProgramRef { fd })
            .unwrap()
            .complete(BackendReply::Descriptor(fd))
            .unwrap()
    };
    let h1 = mk("sched", "sched_switch", 3);
    let h2 = mk("sched", "sched_switch", 44);
    let h3 = mk("irq", "sched_switch", 3);
    let h4 = mk("sched", "sched_wakeup", 3);
    assert_eq!(h1, h2);
    assert_ne!(h1, h3);
    assert_ne!(h1, h4);
    assert_eq!(
        hash_of(&(h1.category(), h1.name())),
        hash_of(&(h2.category(), h2.name()))
    );
}

#[test]
fn tracepoint_rejection_reports_kernel_reason() {
    let attach =
        Tracepoint::attach_tracepoint("sched", "sched_switch", ProgramRef { fd: 3 }).unwrap();
    let err = attach.complete(BackendReply::Descriptor(-1)).unwrap_err();
    assert_eq!(err, AttachError::AttachRejected(-1));
}

#[test]
fn raw_tracepoint_lifecycle() {
    let attach = RawTracepoint::attach_raw_tracepoint("sys_enter", ProgramRef { fd: 3 }).unwrap();
    assert_eq!(attach.name().as_str(), "sys_enter");
    let handle = attach.complete(BackendReply::Descriptor(12)).unwrap();
    assert_eq!(handle.name().as_str(), "sys_enter");
    match handle.detach() {
        DetachCall::RawTracepoint { name, attachment } => {
            assert_eq!(name, "sys_enter");
            assert_eq!(attachment, OsHandle::Descriptor(12));
        }
        other => panic!("wrong detach call: {:?}", other),
    }
}

#[test]
fn raw_tracepoint_rejects_nul_and_negative_descriptor() {
    let err = RawTracepoint::attach_raw_tracepoint("sys\0enter", ProgramRef { fd: 3 }).unwrap_err();
    assert_eq!(err, AttachError::InvalidIdentifier);
    let attach = RawTracepoint::attach_raw_tracepoint("sys_enter", ProgramRef { fd: 3 }).unwrap();
    let err = attach.complete(BackendReply::Descriptor(-22)).unwrap_err();
    assert_eq!(err, AttachError::AttachRejected(-22));
}

#[test]
fn raw_tracepoint_identity_is_name() {
    let mk = |name: &str, fd: i32| {
        RawTracepoint::attach_raw_tracepoint(name, ProgramRef { fd })
            .unwrap()
            .complete(BackendReply::Descriptor(fd))
            .unwrap()
    };
    let h1 = mk("sys_enter", 3);
    let h2 = mk("sys_enter", 50);
    let h3 = mk("sys_exit", 3);
    assert_eq!(h1, h2);
    assert_ne!(h1, h3);
}

#[test]
fn error_messages_describe_each_variant() {
    assert_eq!(
        AttachError::InvalidIdentifier.message(),
        "invalid identifier: a raw string holds a NUL byte"
    );
    assert_eq!(
        AttachError::SymbolResolutionFailed.message(),
        "the requested user-space symbol could not be resolved"
    );
    assert_eq!(
        AttachError::AttachRejected(-1).message(),
        "the kernel rejected the attach call"
    );
}
