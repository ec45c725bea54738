//! The decision core of the network namespace manager.
//!
//! Creating a namespace forks: the disposable child creates and pins
//! the namespace file with a mount/unshare/bind/setns sequence, and the
//! parent learns of success only through the child's exit status. The
//! syscalls live in the host program; what stands here is everything
//! decided around them — the paths, the exit-status protocol, and the
//! outcome of each step — together with the model of the pinned
//! namespace files that the add/del pair works on.

use vstd::prelude::*;
use crate::errors::Error;

verus! {

/// The directory of pinned namespace files.
pub const NETNS_PATH: &'static str = "/run/netns/";

/// The calling process's own network namespace handle.
pub const SELF_NS_PATH: &'static str = "/proc/self/ns/net";

/// The pseudo filesystem-type argument of the namespace mounts.
pub const NONE_FS: &'static str = "none";

/// The permission bits of the namespace directory when this library
/// creates it: `rwxr-xr-x`.
pub const NETNS_DIR_MODE: u32 = 0o755;

/// The pinned namespace files as a set of names: what `/run/netns`
/// holds. Adding a namespace pins its name; deleting unpins it.
pub open spec fn spec_after_add(mounted: Set<Seq<char>>, name: Seq<char>) -> Set<Seq<char>> {
    mounted.insert(name)
}

/// The pinned namespace files after a delete.
pub open spec fn spec_after_del(mounted: Set<Seq<char>>, name: Seq<char>) -> Set<Seq<char>> {
    mounted.remove(name)
}

/// Whether a delete succeeds: only a pinned file can be unmounted and
/// unlinked.
pub open spec fn spec_del_succeeds(mounted: Set<Seq<char>>, name: Seq<char>) -> bool {
    mounted.contains(name)
}

/// The namespace round trip: adding a namespace and then deleting it
/// leaves no pinned file under its name, and the delete is owed
/// success; deleting a name that was never added must fail, for there
/// is nothing to unmount.
pub proof fn lemma_namespace_round_trip(mounted: Set<Seq<char>>, name: Seq<char>)
    ensures
        !spec_after_del(spec_after_add(mounted, name), name).contains(name),
        spec_del_succeeds(spec_after_add(mounted, name), name),
        !mounted.contains(name) ==> !spec_del_succeeds(mounted, name),
{
}

/// The namespace manager.
pub struct NetworkNamespace();

impl NetworkNamespace {
    /// Hook run before forking. Nothing needs preparing here; the hook
    /// stays so hosts have one place to add it.
    pub fn prep_for_fork() -> (r: Result<(), Error>)
        ensures
            r is Ok,
    {
        Ok(())
    }

    /// The path of the pinned file of a namespace:
    /// `/run/netns/<name>`.
    pub fn netns_path(ns_name: &str) -> (r: String)
        ensures
            r@ == NETNS_PATH@ + ns_name@,
    {
        let mut path = String::from_str(NETNS_PATH);
        path.append(ns_name);
        path
    }

    /// The exit code the forked child reports: zero exactly on success.
    pub fn child_exit_code(succeeded: bool) -> (r: i32)
        ensures
            succeeded <==> r == 0,
            r == 0 || r == 1,
    {
        if succeeded {
            0
        } else {
            1
        }
    }

    /// What the parent concludes from the child's wait status: the
    /// operation succeeded exactly when the child exited with code
    /// zero. The child's own error text never crosses the fork
    /// boundary; the parent reports only what the status shows.
    pub fn parent_outcome(outcome: ChildWaitOutcome) -> (r: Result<(), Error>)
        ensures
            match outcome {
                ChildWaitOutcome::Exited(code) => if code == 0 {
                    r is Ok
                } else {
                    r matches Err(e) && e is NamespaceError
                },
                ChildWaitOutcome::Signaled(_, _) => r matches Err(e) && e is NamespaceError,
                ChildWaitOutcome::Unknown => r matches Err(e) && e is NamespaceError,
            },
    {
        match outcome {
            ChildWaitOutcome::Exited(code) => {
                if code == 0 {
                    Ok(())
                } else {
                    Err(Error::NamespaceError(String::from_str("child process failed")))
                }
            },
            ChildWaitOutcome::Signaled(_, _) => {
                Err(Error::NamespaceError(String::from_str("child process was killed by a signal")))
            },
            ChildWaitOutcome::Unknown => {
                Err(Error::NamespaceError(String::from_str("unknown child process status")))
            },
        }
    }

    /// The outcome of a delete, from what the two syscalls reported:
    /// the unmount must succeed before the unlink is tried, and each
    /// failure has its own namespace error.
    pub fn del_outcome(unmounted: bool, unlinked: bool) -> (r: Result<(), Error>)
        ensures
            !unmounted ==> (r matches Err(e) && e is NamespaceError),
            unmounted && !unlinked ==> (r matches Err(e) && e is NamespaceError),
            unmounted && unlinked ==> r is Ok,
    {
        if !unmounted {
            return Err(
                Error::NamespaceError(
                    String::from_str("Namespace unmount failed (are you running as root?)"),
                ),
            );
        }
        if !unlinked {
            return Err(
                Error::NamespaceError(
                    String::from_str("Namespace file remove failed (are you running as root?)"),
                ),
            );
        }
        Ok(())
    }
}

/// What the parent observed of the forked child.
#[derive(Clone, Copy, Debug, PartialEq, Eq, Structural)]
pub enum ChildWaitOutcome {
    /// The child exited with this code.
    Exited(i32),
    /// The child was killed by this signal; the flag says whether it
    /// dumped core.
    Signaled(i32, bool),
    /// The wait reported something else.
    Unknown,
}

} // verus!
