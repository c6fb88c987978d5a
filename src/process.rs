//! The per-process record and the operations that refresh it.
use vstd::prelude::*;

use crate::cpu::{cpu_usage_between, usage_between, CpuTicks};
use crate::filetime::{filetime_to_u64, FileTime};

verus! {

/// Process identifier.
pub type Pid = usize;

/// Enum describing the different status of a process.
#[derive(Clone, Copy, Debug, PartialEq, Eq, Structural)]
pub enum ProcessStatus {
    /// Currently runnable.
    Run,
}

impl ProcessStatus {
    /// Used to display `ProcessStatus`.
    pub fn to_string(&self) -> (r: &'static str)
        ensures
            r@ == "Runnable"@,
    {
        match *self {
            ProcessStatus::Run => "Runnable",
        }
    }
}

/// What was read through a freshly opened handle, handed in by the caller.
pub struct OpenedProcess {
    /// The handle, as an integer token; it now belongs to the record.
    pub handle: usize,
    /// Buffer that received the primary module's base name in UTF-16,
    /// terminated by the first zero unit (all zeros if it could not be read).
    pub name_buffer: Vec<u16>,
    /// The process's creation time.
    pub creation_time: FileTime,
}

/// A request to terminate the process behind `handle` with `exit_code`.
#[derive(Clone, Copy, Debug, PartialEq, Eq, Structural)]
pub struct TerminateRequest {
    pub handle: usize,
    pub exit_code: u32,
}

/// An owned process handle, held as an integer token. It cannot be copied,
/// so the token it holds is released at most once: `take` hands it out and
/// leaves the wrapper empty.
pub struct ProcessHandle {
    token: Option<usize>,
}

impl View for ProcessHandle {
    type V = Option<usize>;

    closed spec fn view(&self) -> Option<usize> {
        self.token
    }
}

impl ProcessHandle {
    /// A wrapper holding no handle.
    pub fn absent() -> (r: ProcessHandle)
        ensures
            r@ is None,
    {
        ProcessHandle { token: None }
    }

    /// A wrapper that owns `token`.
    pub fn owning(token: usize) -> (r: ProcessHandle)
        ensures
            r@ == Some(token),
    {
        ProcessHandle { token: Some(token) }
    }

    /// The token held, if any, for a query through it.
    pub fn get(&self) -> (r: Option<usize>)
        ensures
            r == self@,
    {
        self.token
    }

    /// Hands out the token so that it can be released, leaving none behind.
    pub fn take(&mut self) -> (r: Option<usize>)
        ensures
            r == old(self)@,
            final(self)@ is None,
    {
        let r = self.token;
        self.token = None;
        r
    }
}

/// The counter reading kept from a record's last CPU sample.
pub struct CpuHistory {
    last: CpuTicks,
}

impl View for CpuHistory {
    type V = CpuTicks;

    closed spec fn view(&self) -> CpuTicks {
        self.last
    }
}

/// Struct containing a process' information.
pub struct Process {
    /// name of the program
    pub name: String,
    /// command line
    pub cmd: String,
    /// path to the executable
    pub exe: String,
    /// pid of the processus
    pub pid: Pid,
    /// Environment of the process, as `KEY=VALUE` entries.
    ///
    /// Always empty except for current process.
    pub environ: Vec<String>,
    /// current working directory
    pub cwd: String,
    /// path of the root directory
    pub root: String,
    /// memory usage (in kB)
    pub memory: u64,
    /// Parent pid.
    pub parent: Option<Pid>,
    /// Status of the Process.
    pub status: ProcessStatus,
    /// The handle through which the process is queried, if one was opened.
    pub handle: ProcessHandle,
    /// The reading the next CPU sample is measured against.
    pub previous: CpuHistory,
    /// time of process launch, in 100-ns ticks of the system's epoch
    pub start_time: u64,
    /// total cpu usage, in thousandths of a percent
    pub cpu_usage: u64,
}

/// The result of decoding UTF-16 units, unpaired surrogates replaced.
pub uninterp spec fn utf16_lossy(units: Seq<u16>) -> Seq<char>;

/// Relies on `String::from_utf16_lossy`, which decodes the units; an empty
/// slice decodes to an empty string.
#[verifier::external_body]
fn decode_utf16_lossy(units: &Vec<u16>) -> (r: String)
    ensures
        r@ == utf16_lossy(units@),
        units@.len() == 0 ==> r@.len() == 0,
{
    String::from_utf16_lossy(units.as_slice())
}

/// `n` is where a zero-terminated name held in `buf` ends: at the first zero
/// unit, or at the end of the buffer where it holds none.
pub open spec fn is_name_end(buf: Seq<u16>, n: int) -> bool {
    &&& 0 <= n <= buf.len()
    &&& forall|j: int| 0 <= j < n ==> buf[j] != 0
    &&& n < buf.len() ==> buf[n] == 0
}

/// The `KEY=VALUE` form of one environment variable.
pub open spec fn env_entry(key: Seq<char>, value: Seq<char>) -> Seq<char> {
    key + "="@ + value
}

/// Finds where the zero-terminated name in `buf` ends.
pub fn name_length(buf: &Vec<u16>) -> (n: usize)
    ensures
        is_name_end(buf@, n as int),
{
    let mut i: usize = 0;
    while i < buf.len()
        invariant
            i <= buf.len(),
            forall|j: int| 0 <= j < i ==> buf@[j] != 0,
        decreases buf.len() - i,
    {
        if buf[i] == 0 {
            return i;
        }
        i = i + 1;
    }
    i
}

/// Decodes the zero-terminated UTF-16 name held in `buf`.
pub fn name_from_buffer(buf: &Vec<u16>) -> (r: String)
    ensures
        forall|n: int| is_name_end(buf@, n) ==> r@ == utf16_lossy(buf@.take(n)),
{
    let n = name_length(buf);
    let mut units: Vec<u16> = Vec::new();
    let mut i: usize = 0;
    while i < n
        invariant
            n <= buf.len(),
            i <= n,
            units@ == buf@.take(i as int),
        decreases n - i,
    {
        units.push(buf[i]);
        i = i + 1;
        assert(units@ =~= buf@.take(i as int));
    }
    assert forall|m: int| is_name_end(buf@, m) implies m == n as int by {
        if m < n {
            assert(buf@[m] != 0);
        } else if m > n {
            assert(buf@[n as int] == 0);
        }
    }
    decode_utf16_lossy(&units)
}

/// Formats each `(key, value)` pair as `KEY=VALUE`, in order.
pub fn environ_entries(vars: &Vec<(String, String)>) -> (r: Vec<String>)
    ensures
        r@.len() == vars@.len(),
        forall|i: int| 0 <= i < r@.len() ==> r@[i]@ == env_entry(vars@[i].0@, vars@[i].1@),
{
    let mut r: Vec<String> = Vec::new();
    let mut i: usize = 0;
    while i < vars.len()
        invariant
            i <= vars.len(),
            r@.len() == i,
            forall|k: int| 0 <= k < i ==> r@[k]@ == env_entry(vars@[k].0@, vars@[k].1@),
        decreases vars.len() - i,
    {
        let mut entry = String::from_str(vars[i].0.as_str());
        entry.append("=");
        entry.append(vars[i].1.as_str());
        r.push(entry);
        i = i + 1;
    }
    r
}

impl Process {
    /// A record with every field but identity empty or zero and no handle.
    pub open spec fn is_degraded_of(&self, pid: Pid, parent: Option<Pid>) -> bool {
        &&& self.pid == pid
        &&& self.parent == parent
        &&& self.name@.len() == 0
        &&& self.cmd@.len() == 0
        &&& self.exe@.len() == 0
        &&& self.cwd@.len() == 0
        &&& self.root@.len() == 0
        &&& self.environ@.len() == 0
        &&& self.memory == 0
        &&& self.cpu_usage == 0
        &&& self.start_time == 0
        &&& self.status == ProcessStatus::Run
        &&& self.handle@ is None
        &&& self.previous@ == CpuTicks { wall: 0, sys: 0, user: 0 }
    }

    /// Builds the record of `pid`. Where no handle could be opened
    /// (`opened` is `None`) the record is degraded: identity only. Otherwise
    /// it takes the handle, the decoded module name and the creation time,
    /// and the `KEY=VALUE` form of `environment` where `pid` is `own_pid`,
    /// the caller's own process. Command line, executable, working and root
    /// directory stay empty.
    pub fn new(
        pid: Pid,
        parent: Option<Pid>,
        own_pid: Pid,
        opened: Option<OpenedProcess>,
        environment: &Vec<(String, String)>,
    ) -> (r: Process)
        ensures
            opened is None ==> r.is_degraded_of(pid, parent),
            opened is Some ==> {
                let o = opened->0;
                &&& r.pid == pid
                &&& r.parent == parent
                &&& forall|n: int|
                    is_name_end(o.name_buffer@, n) ==> r.name@ == utf16_lossy(
                        o.name_buffer@.take(n),
                    )
                &&& r.start_time as int == o.creation_time.ticks()
                &&& r.handle@ == Some(o.handle)
                &&& pid == own_pid ==> r.environ@.len() == environment@.len() && forall|i: int|
                    0 <= i < environment@.len() ==> r.environ@[i]@ == env_entry(
                        environment@[i].0@,
                        environment@[i].1@,
                    )
                &&& pid != own_pid ==> r.environ@.len() == 0
                &&& r.cmd@.len() == 0
                &&& r.exe@.len() == 0
                &&& r.cwd@.len() == 0
                &&& r.root@.len() == 0
                &&& r.memory == 0
                &&& r.cpu_usage == 0
                &&& r.status == ProcessStatus::Run
                &&& r.previous@ == CpuTicks { wall: 0, sys: 0, user: 0 }
            },
    {
        match opened {
            None => Process {
                name: String::new(),
                cmd: String::new(),
                exe: String::new(),
                pid,
                environ: Vec::new(),
                cwd: String::new(),
                root: String::new(),
                memory: 0,
                parent,
                status: ProcessStatus::Run,
                handle: ProcessHandle::absent(),
                previous: CpuHistory { last: CpuTicks::zero() },
                start_time: 0,
                cpu_usage: 0,
            },
            Some(o) => {
                let name = name_from_buffer(&o.name_buffer);
                let environ = if pid == own_pid {
                    environ_entries(environment)
                } else {
                    Vec::new()
                };
                Process {
                    name,
                    cmd: String::new(),
                    exe: String::new(),
                    pid,
                    environ,
                    cwd: String::new(),
                    root: String::new(),
                    memory: 0,
                    parent,
                    status: ProcessStatus::Run,
                    handle: ProcessHandle::owning(o.handle),
                    previous: CpuHistory { last: CpuTicks::zero() },
                    start_time: filetime_to_u64(o.creation_time),
                    cpu_usage: 0,
                }
            },
        }
    }

    /// Hands out the handle so that it can be released, leaving none
    /// behind: a handle is taken out at most once.
    pub fn take_handle(&mut self) -> (r: Option<usize>)
        ensures
            r == old(self).handle@,
            final(self).handle@ is None,
            final(self).pid == old(self).pid,
            final(self).memory == old(self).memory,
            final(self).cpu_usage == old(self).cpu_usage,
            final(self).previous@ == old(self).previous@,
    {
        self.handle.take()
    }

    /// What terminating the process with `exit_code` asks of the system:
    /// nothing where the record holds no handle, in which case the
    /// termination fails.
    pub fn termination_request(&self, exit_code: u32) -> (r: Option<TerminateRequest>)
        ensures
            self.handle@ is None ==> r is None,
            self.handle@ is Some ==> r == Some(
                TerminateRequest { handle: self.handle@->0, exit_code },
            ),
    {
        match self.handle.get() {
            None => None,
            Some(h) => Some(TerminateRequest { handle: h, exit_code }),
        }
    }
}

/// The handle that `p` holds, if any.
pub fn get_handle(p: &Process) -> (r: Option<usize>)
    ensures
        r == p.handle@,
{
    p.handle.get()
}

/// Records a new CPU sample: the usage between the previous reading and
/// `now`, `sys` and `user`, normalised by `nb_processors`; the new reading
/// then replaces the previous one.
pub fn compute_cpu_usage(
    p: &mut Process,
    nb_processors: u64,
    now: FileTime,
    sys: FileTime,
    user: FileTime,
)
    ensures
        ({
            let cur = CpuTicks {
                wall: now.ticks() as u64,
                sys: sys.ticks() as u64,
                user: user.ticks() as u64,
            };
            &&& final(p).cpu_usage as int == usage_between(old(p).previous@, cur, nb_processors)
            &&& final(p).previous@ == cur
        }),
        final(p).handle@ == old(p).handle@,
        final(p).memory == old(p).memory,
        final(p).pid == old(p).pid,
{
    let cur = CpuTicks {
        wall: filetime_to_u64(now),
        sys: filetime_to_u64(sys),
        user: filetime_to_u64(user),
    };
    p.cpu_usage = cpu_usage_between(p.previous.last, cur, nb_processors);
    p.previous = CpuHistory { last: cur };
}

/// Stores the private memory in use, given in bytes, as kibibytes
/// (`bytes >> 10`). Where the query failed (`None`) the previous value stays.
pub fn update_memory(p: &mut Process, private_usage: Option<u64>)
    ensures
        final(p).memory == match private_usage {
            Some(bytes) => bytes / 1024,
            None => old(p).memory,
        },
        final(p).handle@ == old(p).handle@,
        final(p).previous@ == old(p).previous@,
        final(p).cpu_usage == old(p).cpu_usage,
        final(p).pid == old(p).pid,
{
    if let Some(bytes) = private_usage {
        assert(bytes >> 10u64 == bytes / 1024) by (bit_vector);
        p.memory = bytes >> 10u64;
    }
}

/// Refreshes what a tick refreshes besides CPU usage: the memory counter.
pub fn update_proc_info(p: &mut Process, private_usage: Option<u64>)
    ensures
        final(p).memory == match private_usage {
            Some(bytes) => bytes / 1024,
            None => old(p).memory,
        },
        final(p).handle@ == old(p).handle@,
        final(p).previous@ == old(p).previous@,
        final(p).cpu_usage == old(p).cpu_usage,
        final(p).pid == old(p).pid,
{
    update_memory(p, private_usage);
}

} // verus!
