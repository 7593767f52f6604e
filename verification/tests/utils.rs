use foxhole::digest::{sha256_bytes, StreamDigest};
use foxhole::host_path::HostPath;
use foxhole::sandbox_linux::{
    convert_flags, sandbox_flags, unshare_diagnostic, UnshareFailure, UserNixFlags,
};
use foxhole::sandbox_utils::{
    build_windows_command_line, quote_windows_arg, to_wide_null, win32_path_string,
};
use foxhole::sorted::tidied;
use nix::sched::CloneFlags;

#[test]
fn quotes_windows_args_with_spaces() {
    assert_eq!(
        quote_windows_arg("C:\\Program Files\\app.exe"),
        "\"C:\\Program Files\\app.exe\""
    );
}

#[test]
fn quotes_embedded_quotes() {
    assert_eq!(quote_windows_arg("a\"b"), "\"a\\\"b\"");
}

#[test]
fn quotes_empty_plain_and_trailing_backslash_arguments() {
    assert_eq!(quote_windows_arg(""), "\"\"");
    assert_eq!(quote_windows_arg("plain"), "plain");
    assert_eq!(quote_windows_arg(r"C:\path with space\"), r#""C:\path with space\\""#);
}

#[test]
fn command_line_and_wide_strings_are_constructed_exactly() {
    assert_eq!(
        build_windows_command_line("tool.exe", &vec!["one".into(), "two words".into()]),
        "tool.exe one \"two words\""
    );
    assert_eq!(to_wide_null("A"), [65, 0]);
}

#[test]
fn extended_windows_paths_are_made_human_readable() {
    assert_eq!(
        win32_path_string(&HostPath::parse(r"\\?\C:\temp\a.exe")),
        r"C:\temp\a.exe"
    );
    assert_eq!(
        win32_path_string(&HostPath::parse(r"\\?\UNC\server\share\a.exe")),
        r"\\server\share\a.exe"
    );
    assert_eq!(win32_path_string(&HostPath::parse(r"C:\plain.exe")), r"C:\plain.exe");
}

#[test]
fn wide_strings_split_supplementary_characters() {
    assert_eq!(to_wide_null("\u{1f98a}"), [0xd83e, 0xdd8a, 0]);
    assert_eq!(to_wide_null(""), [0]);
}

#[test]
fn backslashes_are_doubled_before_quotes_only() {
    assert_eq!(quote_windows_arg(r#"a\\"b"#), r#""a\\\\\"b""#);
    assert_eq!(quote_windows_arg("tab\there"), "\"tab\there\"");
    assert_eq!(quote_windows_arg(r"a\b"), r"a\b");
}

#[test]
fn digests_are_those_of_the_standard() {
    assert_eq!(
        sha256_bytes(b""),
        "e3b0c44298fc1c149afbf4c8996fb92427ae41e4649b934ca495991b7852b855"
    );
    assert_eq!(
        sha256_bytes(b"abc"),
        "ba7816bf8f01cfea414140de5dae2223b00361a396177a9cb410ff61f20015ad"
    );
    let mut stream = StreamDigest::new();
    stream.absorb(b"a");
    stream.absorb(b"bc");
    assert_eq!(stream.finish(), sha256_bytes(b"abc"));
    let mut stream = StreamDigest::new();
    stream.absorb(b"abc");
    assert_eq!(stream.finish_exactly(4), None);
}

#[test]
fn namespace_flags_are_those_of_the_kernel() {
    assert_eq!(sandbox_flags(&Vec::new()), CloneFlags::empty());
    assert_eq!(
        sandbox_flags(&vec![UserNixFlags::USR_NEW_PID, UserNixFlags::USR_NEW_NET]),
        CloneFlags::CLONE_NEWPID | CloneFlags::CLONE_NEWNET
    );
    for (flag, kernel) in [
        (UserNixFlags::USR_SHARE_VM, CloneFlags::CLONE_VM),
        (UserNixFlags::USR_SHARE_FS, CloneFlags::CLONE_FS),
        (UserNixFlags::USR_SHARE_FILES, CloneFlags::CLONE_FILES),
        (UserNixFlags::USR_SHARE_SIG, CloneFlags::CLONE_SIGHAND),
        (UserNixFlags::USR_ALLOW_TRACE, CloneFlags::CLONE_PTRACE),
        (UserNixFlags::USR_PARENT_WAIT, CloneFlags::CLONE_VFORK),
        (UserNixFlags::USR_SAME_PARENT, CloneFlags::CLONE_PARENT),
        (UserNixFlags::USR_THREAD, CloneFlags::CLONE_THREAD),
        (UserNixFlags::USR_NEW_MOUNT, CloneFlags::CLONE_NEWNS),
        (UserNixFlags::USR_SHARE_SEMAPHORE, CloneFlags::CLONE_SYSVSEM),
        (UserNixFlags::USR_NO_TRACE, CloneFlags::CLONE_UNTRACED),
        (UserNixFlags::USR_NEW_CGROUP, CloneFlags::CLONE_NEWCGROUP),
        (UserNixFlags::USR_NEW_HOSTNAME, CloneFlags::CLONE_NEWUTS),
        (UserNixFlags::USR_NEW_IPC, CloneFlags::CLONE_NEWIPC),
        (UserNixFlags::USR_NEW_USER, CloneFlags::CLONE_NEWUSER),
        (UserNixFlags::USR_NEW_PID, CloneFlags::CLONE_NEWPID),
        (UserNixFlags::USR_NEW_NET, CloneFlags::CLONE_NEWNET),
        (UserNixFlags::USR_SHARE_IO, CloneFlags::CLONE_IO),
    ] {
        assert_eq!(convert_flags(&flag), kernel);
    }
}

#[test]
fn refused_namespaces_are_explained() {
    assert!(unshare_diagnostic(&UnshareFailure::Permission).contains("Insufficient permissions"));
    assert_eq!(
        unshare_diagnostic(&UnshareFailure::InvalidFlags),
        "[sandbox] Error: Invalid flags provided for unshare."
    );
    assert_eq!(unshare_diagnostic(&UnshareFailure::Other("EPERM".into())), "[sandbox] Error: EPERM");
}

#[test]
fn tidied_lists_are_sorted_without_repetition() {
    let list = vec!["b".to_string(), "a".to_string(), "b".to_string(), "B".to_string()];
    assert_eq!(tidied(&list), ["B", "a", "b"]);
    assert!(tidied(&Vec::new()).is_empty());
}

#[test]
fn host_paths_are_taken_apart() {
    let path = HostPath::parse("/srv/runs/os-diff.VHDX");
    assert!(path.is_absolute());
    assert_eq!(path.file_name().as_deref(), Some("os-diff.VHDX"));
    assert_eq!(path.extension().as_deref(), Some("VHDX"));
    assert!(path.has_extension("vhdx"));
    assert!(path.is_within(&HostPath::parse("/srv")));
    assert!(!path.is_within(&HostPath::parse("/sr")));
    assert!(path.is_child_of(&HostPath::parse("/srv/runs")));
    assert!(!path.climbs());
    assert!(HostPath::parse("/srv/../etc").climbs());
    let joined = HostPath::parse("/srv").join("runs");
    assert!(joined.is_equal(&HostPath::parse("/srv/runs")));
    assert_eq!(joined.shown, "/srv/runs");
    assert!(!HostPath::parse("runs").is_absolute());
}
