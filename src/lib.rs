//! Per-process introspection: handle acquisition policy, tick-counter
//! conversion, CPU-rate estimation, memory sampling and parent lookup.
//!
//! Everything here works on plain values; the operating-system queries that
//! feed it are made by the caller.
use vstd::prelude::*;

pub mod access;
pub mod cpu;
pub mod filetime;
pub mod process;
pub mod snapshot;

pub use access::{next_access_request, AccessRights};
pub use cpu::{cpu_usage_between, CpuTicks};
pub use filetime::{filetime_to_u64, u64_to_filetime, FileTime};
pub use process::{
    compute_cpu_usage, get_handle, update_memory, update_proc_info, OpenedProcess, Pid, Process,
    ProcessHandle, ProcessStatus, TerminateRequest,
};
pub use snapshot::{get_parent_process_id, SnapshotEntry};
