//! Which permissions to ask for, in turn, when opening a process handle.
use vstd::prelude::*;

verus! {

/// A set of rights over a process object.
#[derive(Clone, Copy, Debug, PartialEq, Eq, Structural)]
pub struct AccessRights {
    /// Querying times and other information.
    pub query_information: bool,
    /// Reading the process's memory (module names, memory counters).
    pub vm_read: bool,
    /// Terminating the process.
    pub terminate: bool,
}

/// Every right this module's operations need.
pub open spec fn full_access() -> AccessRights {
    AccessRights { query_information: true, vm_read: true, terminate: true }
}

/// The rights that introspection needs, without termination.
pub open spec fn read_access() -> AccessRights {
    AccessRights { query_information: true, vm_read: true, terminate: false }
}

/// The rights to ask for when opening the handle of `pid`, after
/// `failed_attempts` refused requests: all rights first, then the same
/// without termination, then nothing more. Pid 0 is reserved and is never
/// asked for.
pub fn next_access_request(pid: usize, failed_attempts: usize) -> (r: Option<AccessRights>)
    ensures
        pid == 0 ==> r is None,
        pid != 0 && failed_attempts == 0 ==> r == Some(full_access()),
        pid != 0 && failed_attempts == 1 ==> r == Some(read_access()),
        failed_attempts >= 2 ==> r is None,
{
    if pid == 0 {
        None
    } else if failed_attempts == 0 {
        Some(AccessRights { query_information: true, vm_read: true, terminate: true })
    } else if failed_attempts == 1 {
        Some(AccessRights { query_information: true, vm_read: true, terminate: false })
    } else {
        None
    }
}

} // verus!
