use bcc_probes::ident::{
    check_nul_free, entry_probe_name, hex_string, make_alphanumeric, return_probe_name,
    uprobe_event_name,
};

#[test]
fn sanitize_keeps_legal_characters() {
    assert_eq!(make_alphanumeric("do_sys_open"), "do_sys_open");
    assert_eq!(make_alphanumeric("AZaz09_"), "AZaz09_");
    assert_eq!(make_alphanumeric(""), "");
}

#[test]
fn sanitize_replaces_illegal_characters() {
    assert_eq!(make_alphanumeric("/bin/true"), "_bin_true");
    assert_eq!(make_alphanumeric("a.b-c:d e"), "a_b_c_d_e");
    assert_eq!(make_alphanumeric("()[]{}!@#"), "_________");
    assert_eq!(make_alphanumeric("caf\u{e9}"), "caf_");
    assert_eq!(make_alphanumeric("\0"), "_");
}

#[test]
fn sanitize_is_idempotent_on_samples() {
    for s in ["/bin/true", "a.b-c:d e", "", "already_clean", "\u{1F600}x"] {
        let once = make_alphanumeric(s);
        let twice = make_alphanumeric(&once);
        assert_eq!(once, twice);
    }
}

#[test]
fn nul_detection() {
    assert!(check_nul_free("vfs_read"));
    assert!(check_nul_free(""));
    assert!(!check_nul_free("vfs\0read"));
    assert!(!check_nul_free("\0"));
}

#[test]
fn hex_renders_lowercase_without_leading_zeros() {
    assert_eq!(hex_string(0), "0");
    assert_eq!(hex_string(9), "9");
    assert_eq!(hex_string(10), "a");
    assert_eq!(hex_string(15), "f");
    assert_eq!(hex_string(16), "10");
    assert_eq!(hex_string(0x401000), "401000");
    assert_eq!(hex_string(0xdead_beef), "deadbeef");
    assert_eq!(hex_string(u64::MAX), "ffffffffffffffff");
}

#[test]
fn entry_and_return_prefixes() {
    assert_eq!(entry_probe_name("do_sys_open"), "p_do_sys_open");
    assert_eq!(return_probe_name("do_sys_open"), "r_do_sys_open");
    assert_eq!(entry_probe_name("a.b"), "p_a_b");
    assert_eq!(return_probe_name(""), "r_");
}

#[test]
fn uprobe_name_embeds_path_and_address() {
    assert_eq!(
        uprobe_event_name("/bin/true", 0x401000),
        "r__bin_true_0x401000"
    );
    assert_eq!(uprobe_event_name("lib.so", 0), "r_lib_so_0x0");
    assert_eq!(
        uprobe_event_name("/usr/bin/env", 0xdead_beef),
        "r__usr_bin_env_0xdeadbeef"
    );
}
