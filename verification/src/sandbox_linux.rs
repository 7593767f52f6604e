//! Namespaces of a Linux sandbox.

use nix::sched::CloneFlags;
use vstd::prelude::*;
use vstd::string::*;

use crate::text;

verus! {

/// What a sandboxed process shares with its parent, or has of its own.
#[allow(non_camel_case_types)]
#[derive(Clone, Copy, Debug, PartialEq, Eq, Structural)]
pub enum UserNixFlags {
    USR_SHARE_VM,
    USR_SHARE_FS,
    USR_SHARE_FILES,
    USR_SHARE_SIG,
    USR_ALLOW_TRACE,
    USR_PARENT_WAIT,
    USR_SAME_PARENT,
    USR_THREAD,
    USR_NEW_MOUNT,
    USR_SHARE_SEMAPHORE,
    USR_NO_TRACE,
    USR_NEW_CGROUP,
    USR_NEW_HOSTNAME,
    USR_NEW_IPC,
    USR_NEW_USER,
    USR_NEW_PID,
    USR_NEW_NET,
    USR_SHARE_IO,
}

#[verifier::external_type_specification]
#[verifier::external_body]
pub struct ExCloneFlags(CloneFlags);

impl UserNixFlags {
    /// The name of the kernel's flag.
    pub open spec fn spec_kernel_name(self) -> Seq<char> {
        match self {
            UserNixFlags::USR_SHARE_VM => "CLONE_VM"@,
            UserNixFlags::USR_SHARE_FS => "CLONE_FS"@,
            UserNixFlags::USR_SHARE_FILES => "CLONE_FILES"@,
            UserNixFlags::USR_SHARE_SIG => "CLONE_SIGHAND"@,
            UserNixFlags::USR_ALLOW_TRACE => "CLONE_PTRACE"@,
            UserNixFlags::USR_PARENT_WAIT => "CLONE_VFORK"@,
            UserNixFlags::USR_SAME_PARENT => "CLONE_PARENT"@,
            UserNixFlags::USR_THREAD => "CLONE_THREAD"@,
            UserNixFlags::USR_NEW_MOUNT => "CLONE_NEWNS"@,
            UserNixFlags::USR_SHARE_SEMAPHORE => "CLONE_SYSVSEM"@,
            UserNixFlags::USR_NO_TRACE => "CLONE_UNTRACED"@,
            UserNixFlags::USR_NEW_CGROUP => "CLONE_NEWCGROUP"@,
            UserNixFlags::USR_NEW_HOSTNAME => "CLONE_NEWUTS"@,
            UserNixFlags::USR_NEW_IPC => "CLONE_NEWIPC"@,
            UserNixFlags::USR_NEW_USER => "CLONE_NEWUSER"@,
            UserNixFlags::USR_NEW_PID => "CLONE_NEWPID"@,
            UserNixFlags::USR_NEW_NET => "CLONE_NEWNET"@,
            UserNixFlags::USR_SHARE_IO => "CLONE_IO"@,
        }
    }

    pub fn kernel_name(self) -> (name: &'static str)
        ensures
            name@ == self.spec_kernel_name(),
    {
        match self {
            UserNixFlags::USR_SHARE_VM => "CLONE_VM",
            UserNixFlags::USR_SHARE_FS => "CLONE_FS",
            UserNixFlags::USR_SHARE_FILES => "CLONE_FILES",
            UserNixFlags::USR_SHARE_SIG => "CLONE_SIGHAND",
            UserNixFlags::USR_ALLOW_TRACE => "CLONE_PTRACE",
            UserNixFlags::USR_PARENT_WAIT => "CLONE_VFORK",
            UserNixFlags::USR_SAME_PARENT => "CLONE_PARENT",
            UserNixFlags::USR_THREAD => "CLONE_THREAD",
            UserNixFlags::USR_NEW_MOUNT => "CLONE_NEWNS",
            UserNixFlags::USR_SHARE_SEMAPHORE => "CLONE_SYSVSEM",
            UserNixFlags::USR_NO_TRACE => "CLONE_UNTRACED",
            UserNixFlags::USR_NEW_CGROUP => "CLONE_NEWCGROUP",
            UserNixFlags::USR_NEW_HOSTNAME => "CLONE_NEWUTS",
            UserNixFlags::USR_NEW_IPC => "CLONE_NEWIPC",
            UserNixFlags::USR_NEW_USER => "CLONE_NEWUSER",
            UserNixFlags::USR_NEW_PID => "CLONE_NEWPID",
            UserNixFlags::USR_NEW_NET => "CLONE_NEWNET",
            UserNixFlags::USR_SHARE_IO => "CLONE_IO",
        }
    }
}

/// The names of the flags whose bit is raised.
pub uninterp spec fn raised(flags: CloneFlags) -> Set<Seq<char>>;

/// `CloneFlags::empty` has no bit raised.
#[verifier::external_body]
fn no_flags() -> (flags: CloneFlags)
    ensures
        raised(flags) == Set::<Seq<char>>::empty(),
{
    CloneFlags::empty()
}

/// `CloneFlags::from_name` gives the flag of that name, where there is one, as there is for each
/// name that is asked for here. The kernel's flags are one bit each, all different.
#[verifier::external_body]
fn named_flag(name: &str) -> (found: Option<CloneFlags>)
    requires
        exists|flag: UserNixFlags| #[trigger] flag.spec_kernel_name() == name@,
    ensures
        found is Some,
        raised(found->0) == Set::<Seq<char>>::empty().insert(name@),
{
    CloneFlags::from_name(name)
}

/// `CloneFlags::insert` raises the bits of the other flags and leaves all that are raised.
#[verifier::external_body]
fn raise_also(flags: &mut CloneFlags, other: CloneFlags)
    ensures
        raised(*final(flags)) == raised(*old(flags)).union(raised(other)),
{
    flags.insert(other);
}

/// The kernel's flag.
pub fn convert_flags(flag: &UserNixFlags) -> (converted: CloneFlags)
    ensures
        raised(converted) == Set::<Seq<char>>::empty().insert(flag.spec_kernel_name()),
{
    let name = flag.kernel_name();
    proof {
        assert(flag.spec_kernel_name() == name@);
    }
    match named_flag(name) {
        Some(converted) => converted,
        None => no_flags(),
    }
}

/// The names of the kernel's flags for a list of flags.
pub open spec fn kernel_names(flags: Seq<UserNixFlags>) -> Set<Seq<char>> {
    flags.map_values(|flag: UserNixFlags| flag.spec_kernel_name()).to_set()
}

/// The flags that the namespaces of a sandbox are made with.
pub fn sandbox_flags(flags: &Vec<UserNixFlags>) -> (converted: CloneFlags)
    ensures
        raised(converted) == kernel_names(flags@),
{
    let mut converted = no_flags();
    let mut i: usize = 0;
    proof {
        assert(kernel_names(flags@.take(0)) =~= Set::<Seq<char>>::empty());
    }
    while i < flags.len()
        invariant
            i <= flags@.len(),
            raised(converted) == kernel_names(flags@.take(i as int)),
        decreases flags@.len() - i,
    {
        let flag = flags[i];
        let ghost held = raised(converted);
        raise_also(&mut converted, convert_flags(&flag));
        proof {
            assert(raised(converted) =~= held.insert(flag.spec_kernel_name()));
            let named = |f: UserNixFlags| f.spec_kernel_name();
            let before = flags@.take(i as int).map_values(named);
            let after = flags@.take(i + 1).map_values(named);
            let name = flag.spec_kernel_name();
            assert(after =~= before.push(name));
            assert forall|x: Seq<char>| after.to_set().contains(x) <==> before.to_set().insert(
                name,
            ).contains(x) by {
                if after.contains(x) {
                    let k = choose|k: int| 0 <= k < after.len() && after[k] == x;
                    if k < i {
                        assert(before[k] == x);
                    }
                }
                if before.contains(x) {
                    let k = choose|k: int| 0 <= k < before.len() && before[k] == x;
                    assert(after[k] == x);
                }
                assert(after[i as int] == name);
            }
            assert(after.to_set() =~= before.to_set().insert(name));
        }
        i = i + 1;
    }
    proof {
        assert(flags@.take(i as int) =~= flags@);
    }
    converted
}

/// Why namespaces could not be made.
#[derive(Clone, Debug, PartialEq, Eq)]
pub enum UnshareFailure {
    Permission,
    InvalidFlags,
    Other(String),
}

pub open spec fn unshare_text(failure: UnshareFailure) -> Seq<char> {
    match failure {
        UnshareFailure::Permission => {
            "[sandbox] Error: Insufficient permissions to unshare namespaces. Try running as root."@
        },
        UnshareFailure::InvalidFlags => "[sandbox] Error: Invalid flags provided for unshare."@,
        UnshareFailure::Other(error) => "[sandbox] Error: "@ + error@,
    }
}

/// The line that tells why namespaces could not be made.
pub fn unshare_diagnostic(failure: &UnshareFailure) -> (line: String)
    ensures
        line@ == unshare_text(*failure),
{
    match failure {
        UnshareFailure::Permission => {
            "[sandbox] Error: Insufficient permissions to unshare namespaces. Try running as root.".to_owned()
        },
        UnshareFailure::InvalidFlags => {
            "[sandbox] Error: Invalid flags provided for unshare.".to_owned()
        },
        UnshareFailure::Other(error) => text::cat2("[sandbox] Error: ", error.as_str()),
    }
}

/// Each flag has the kernel's name of its own.
pub proof fn flags_are_told_apart(flag: UserNixFlags)
    ensures
        flag.spec_kernel_name() == "CLONE_VM"@ <==> flag == UserNixFlags::USR_SHARE_VM,
        flag.spec_kernel_name() == "CLONE_FS"@ <==> flag == UserNixFlags::USR_SHARE_FS,
        flag.spec_kernel_name() == "CLONE_FILES"@ <==> flag == UserNixFlags::USR_SHARE_FILES,
        flag.spec_kernel_name() == "CLONE_SIGHAND"@ <==> flag == UserNixFlags::USR_SHARE_SIG,
        flag.spec_kernel_name() == "CLONE_PTRACE"@ <==> flag == UserNixFlags::USR_ALLOW_TRACE,
        flag.spec_kernel_name() == "CLONE_VFORK"@ <==> flag == UserNixFlags::USR_PARENT_WAIT,
        flag.spec_kernel_name() == "CLONE_PARENT"@ <==> flag == UserNixFlags::USR_SAME_PARENT,
        flag.spec_kernel_name() == "CLONE_THREAD"@ <==> flag == UserNixFlags::USR_THREAD,
        flag.spec_kernel_name() == "CLONE_NEWNS"@ <==> flag == UserNixFlags::USR_NEW_MOUNT,
        flag.spec_kernel_name() == "CLONE_SYSVSEM"@ <==> flag == UserNixFlags::USR_SHARE_SEMAPHORE,
        flag.spec_kernel_name() == "CLONE_UNTRACED"@ <==> flag == UserNixFlags::USR_NO_TRACE,
        flag.spec_kernel_name() == "CLONE_NEWCGROUP"@ <==> flag == UserNixFlags::USR_NEW_CGROUP,
        flag.spec_kernel_name() == "CLONE_NEWUTS"@ <==> flag == UserNixFlags::USR_NEW_HOSTNAME,
        flag.spec_kernel_name() == "CLONE_NEWIPC"@ <==> flag == UserNixFlags::USR_NEW_IPC,
        flag.spec_kernel_name() == "CLONE_NEWUSER"@ <==> flag == UserNixFlags::USR_NEW_USER,
        flag.spec_kernel_name() == "CLONE_NEWPID"@ <==> flag == UserNixFlags::USR_NEW_PID,
        flag.spec_kernel_name() == "CLONE_NEWNET"@ <==> flag == UserNixFlags::USR_NEW_NET,
        flag.spec_kernel_name() == "CLONE_IO"@ <==> flag == UserNixFlags::USR_SHARE_IO,
{
    reveal_strlit("CLONE_VM");
    reveal_strlit("CLONE_FS");
    reveal_strlit("CLONE_FILES");
    reveal_strlit("CLONE_SIGHAND");
    reveal_strlit("CLONE_PTRACE");
    reveal_strlit("CLONE_VFORK");
    reveal_strlit("CLONE_PARENT");
    reveal_strlit("CLONE_THREAD");
    reveal_strlit("CLONE_NEWNS");
    reveal_strlit("CLONE_SYSVSEM");
    reveal_strlit("CLONE_UNTRACED");
    reveal_strlit("CLONE_NEWCGROUP");
    reveal_strlit("CLONE_NEWUTS");
    reveal_strlit("CLONE_NEWIPC");
    reveal_strlit("CLONE_NEWUSER");
    reveal_strlit("CLONE_NEWPID");
    reveal_strlit("CLONE_NEWNET");
    reveal_strlit("CLONE_IO");
    assert("CLONE_VM"@.len() == 8 && "CLONE_VM"@[6] == 'V' && "CLONE_VM"@[7] == 'M');
    assert("CLONE_FS"@.len() == 8 && "CLONE_FS"@[6] == 'F' && "CLONE_FS"@[7] == 'S');
    assert("CLONE_FILES"@.len() == 11 && "CLONE_FILES"@[6] == 'F' && "CLONE_FILES"@[7] == 'I' && "CLONE_FILES"@[9] == 'E');
    assert("CLONE_SIGHAND"@.len() == 13 && "CLONE_SIGHAND"@[6] == 'S' && "CLONE_SIGHAND"@[7] == 'I' && "CLONE_SIGHAND"@[9] == 'H');
    assert("CLONE_PTRACE"@.len() == 12 && "CLONE_PTRACE"@[6] == 'P' && "CLONE_PTRACE"@[7] == 'T' && "CLONE_PTRACE"@[9] == 'A');
    assert("CLONE_VFORK"@.len() == 11 && "CLONE_VFORK"@[6] == 'V' && "CLONE_VFORK"@[7] == 'F' && "CLONE_VFORK"@[9] == 'R');
    assert("CLONE_PARENT"@.len() == 12 && "CLONE_PARENT"@[6] == 'P' && "CLONE_PARENT"@[7] == 'A' && "CLONE_PARENT"@[9] == 'E');
    assert("CLONE_THREAD"@.len() == 12 && "CLONE_THREAD"@[6] == 'T' && "CLONE_THREAD"@[7] == 'H' && "CLONE_THREAD"@[9] == 'E');
    assert("CLONE_NEWNS"@.len() == 11 && "CLONE_NEWNS"@[6] == 'N' && "CLONE_NEWNS"@[7] == 'E' && "CLONE_NEWNS"@[9] == 'N');
    assert("CLONE_SYSVSEM"@.len() == 13 && "CLONE_SYSVSEM"@[6] == 'S' && "CLONE_SYSVSEM"@[7] == 'Y' && "CLONE_SYSVSEM"@[9] == 'V');
    assert("CLONE_UNTRACED"@.len() == 14 && "CLONE_UNTRACED"@[6] == 'U' && "CLONE_UNTRACED"@[7] == 'N' && "CLONE_UNTRACED"@[9] == 'R');
    assert("CLONE_NEWCGROUP"@.len() == 15 && "CLONE_NEWCGROUP"@[6] == 'N' && "CLONE_NEWCGROUP"@[7] == 'E' && "CLONE_NEWCGROUP"@[9] == 'C');
    assert("CLONE_NEWUTS"@.len() == 12 && "CLONE_NEWUTS"@[6] == 'N' && "CLONE_NEWUTS"@[7] == 'E' && "CLONE_NEWUTS"@[9] == 'U');
    assert("CLONE_NEWIPC"@.len() == 12 && "CLONE_NEWIPC"@[6] == 'N' && "CLONE_NEWIPC"@[7] == 'E' && "CLONE_NEWIPC"@[9] == 'I');
    assert("CLONE_NEWUSER"@.len() == 13 && "CLONE_NEWUSER"@[6] == 'N' && "CLONE_NEWUSER"@[7] == 'E' && "CLONE_NEWUSER"@[9] == 'U');
    assert("CLONE_NEWPID"@.len() == 12 && "CLONE_NEWPID"@[6] == 'N' && "CLONE_NEWPID"@[7] == 'E' && "CLONE_NEWPID"@[9] == 'P');
    assert("CLONE_NEWNET"@.len() == 12 && "CLONE_NEWNET"@[6] == 'N' && "CLONE_NEWNET"@[7] == 'E' && "CLONE_NEWNET"@[9] == 'N');
    assert("CLONE_IO"@.len() == 8 && "CLONE_IO"@[6] == 'I' && "CLONE_IO"@[7] == 'O');
}

/// A flag is raised exactly where it was asked for, in whatever order and however often.
pub proof fn asked_flags_are_raised(flags: Seq<UserNixFlags>, flag: UserNixFlags)
    ensures
        kernel_names(flags).contains(flag.spec_kernel_name()) <==> flags.contains(flag),
{
    let named = flags.map_values(|f: UserNixFlags| f.spec_kernel_name());
    if named.contains(flag.spec_kernel_name()) {
        let i = choose|i: int| 0 <= i < named.len() && named[i] == flag.spec_kernel_name();
        flags_are_told_apart(flag);
        flags_are_told_apart(flags[i]);
        assert(flags[i] == flag);
    }
    if flags.contains(flag) {
        let i = choose|i: int| 0 <= i < flags.len() && flags[i] == flag;
        assert(named[i] == flag.spec_kernel_name());
    }
}

/// A diagnostic of an error without a text of its own is the error behind the sandbox's mark.
pub proof fn diagnostics_tell_the_error(error: String)
    ensures
        text::begins(unshare_text(UnshareFailure::Other(error)), "[sandbox] Error: "@),
        text::ends(unshare_text(UnshareFailure::Other(error)), error@),
        unshare_text(UnshareFailure::Other(error)).len() == 17 + error@.len(),
{
    reveal_strlit("[sandbox] Error: ");
    let mark = "[sandbox] Error: "@;
    assert((mark + error@).take(mark.len() as int) =~= mark);
    assert((mark + error@).skip(mark.len() as int) =~= error@);
}

} // verus!
