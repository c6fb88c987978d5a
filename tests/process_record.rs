use sysinfo_process::{
    compute_cpu_usage, cpu_usage_between, filetime_to_u64, get_handle, get_parent_process_id,
    next_access_request, u64_to_filetime, update_memory, update_proc_info, AccessRights,
    CpuTicks, FileTime, OpenedProcess, Process, ProcessStatus, SnapshotEntry, TerminateRequest,
};

fn opened(handle: usize, name: &str, creation: u64) -> OpenedProcess {
    let mut name_buffer: Vec<u16> = name.encode_utf16().collect();
    name_buffer.resize(261, 0);
    OpenedProcess { handle, name_buffer, creation_time: u64_to_filetime(creation) }
}

fn sample(p: &mut Process, nb: u64, wall: u64, sys: u64, user: u64) {
    compute_cpu_usage(p, nb, u64_to_filetime(wall), u64_to_filetime(sys), u64_to_filetime(user));
}

#[test]
fn status_displays_runnable() {
    assert_eq!(ProcessStatus::Run.to_string(), "Runnable");
}

#[test]
fn filetime_reassembles_low_word_least_significant() {
    assert_eq!(filetime_to_u64(FileTime { low: 0, high: 0 }), 0);
    assert_eq!(filetime_to_u64(FileTime { low: 1, high: 0 }), 1);
    assert_eq!(filetime_to_u64(FileTime { low: 0, high: 1 }), 1 << 32);
    assert_eq!(filetime_to_u64(FileTime { low: 0xdead_beef, high: 0x0123_4567 }), 0x0123_4567_dead_beef);
    assert_eq!(filetime_to_u64(FileTime { low: u32::MAX, high: u32::MAX }), u64::MAX);
}

#[test]
fn filetime_round_trips_at_the_edges() {
    for v in [0u64, 1, 0xffff_ffff, 0x1_0000_0000, 0x0123_4567_dead_beef, u64::MAX] {
        let ft = u64_to_filetime(v);
        assert_eq!(filetime_to_u64(ft), v);
        assert_eq!(u64_to_filetime(filetime_to_u64(ft)), ft);
    }
    assert_eq!(u64_to_filetime(u64::MAX), FileTime { low: u32::MAX, high: u32::MAX });
    assert_eq!(u64_to_filetime(0x0123_4567_dead_beef), FileTime { low: 0xdead_beef, high: 0x0123_4567 });
}

#[test]
fn unreachable_process_gives_degraded_record() {
    let p = Process::new(1234, Some(4), 99, None, &vec![("A".to_string(), "b".to_string())]);
    assert_eq!(p.pid, 1234);
    assert_eq!(p.parent, Some(4));
    assert_eq!(p.name, "");
    assert_eq!(p.cmd, "");
    assert_eq!(p.exe, "");
    assert_eq!(p.cwd, "");
    assert_eq!(p.root, "");
    assert!(p.environ.is_empty());
    assert_eq!(p.memory, 0);
    assert_eq!(p.cpu_usage, 0);
    assert_eq!(p.start_time, 0);
    assert_eq!(p.status, ProcessStatus::Run);
    assert_eq!(get_handle(&p), None);
}

#[test]
fn opened_process_reads_name_and_start_time() {
    let p = Process::new(42, None, 7, Some(opened(0x80, "explorer.exe", 0x01d0_0000_0000_0010)), &vec![]);
    assert_eq!(p.name, "explorer.exe");
    assert_eq!(p.start_time, 0x01d0_0000_0000_0010);
    assert_eq!(get_handle(&p), Some(0x80));
    assert!(p.environ.is_empty());
    assert_eq!(p.cmd, "");
    assert_eq!(p.exe, "");
    assert_eq!(p.cwd, "");
    assert_eq!(p.root, "");
}

#[test]
fn name_stops_at_first_zero_and_decodes_utf16() {
    let mut buf: Vec<u16> = "caf\u{e9}.exe".encode_utf16().collect();
    buf.push(0);
    buf.extend("junk".encode_utf16());
    let p = Process::new(3, None, 0, Some(OpenedProcess { handle: 1, name_buffer: buf, creation_time: FileTime { low: 0, high: 0 } }), &vec![]);
    assert_eq!(p.name, "caf\u{e9}.exe");
}

#[test]
fn name_replaces_unpaired_surrogate() {
    let buf: Vec<u16> = vec![0x61, 0xd800, 0x62];
    let p = Process::new(3, None, 0, Some(OpenedProcess { handle: 1, name_buffer: buf, creation_time: FileTime { low: 0, high: 0 } }), &vec![]);
    assert_eq!(p.name, "a\u{fffd}b");
}

#[test]
fn unreadable_name_is_empty() {
    let p = Process::new(3, None, 0, Some(opened(5, "", 0)), &vec![]);
    assert_eq!(p.name, "");
}

#[test]
fn own_process_gets_environment_as_key_value() {
    let vars = vec![("PATH".to_string(), "/bin".to_string()), ("EMPTY".to_string(), "".to_string())];
    let p = Process::new(7, None, 7, Some(opened(9, "self.exe", 1)), &vars);
    assert_eq!(p.environ, vec!["PATH=/bin".to_string(), "EMPTY=".to_string()]);
    for entry in &p.environ {
        assert!(entry.contains('='));
    }
    assert_eq!(p.cmd, "");
    assert_eq!(p.exe, "");
    assert_eq!(p.cwd, "");
    assert_eq!(p.root, "");
}

#[test]
fn other_process_gets_no_environment() {
    let vars = vec![("PATH".to_string(), "/bin".to_string())];
    let p = Process::new(8, None, 7, Some(opened(9, "other.exe", 1)), &vars);
    assert!(p.environ.is_empty());
}

#[test]
fn cpu_usage_formula_exact_value() {
    let prev = CpuTicks { wall: 100, sys: 10, user: 10 };
    let now = CpuTicks { wall: 200, sys: 30, user: 40 };
    // (20 + 30) / 100 / 2 * 100 = 25 percent
    assert_eq!(cpu_usage_between(prev, now, 2), 25_000);
    assert_eq!(cpu_usage_between(prev, now, 1), 50_000);
    assert_eq!(cpu_usage_between(prev, now, 0), 0);
}

#[test]
fn cpu_usage_first_sample_measures_from_zero() {
    let mut p = Process::new(42, None, 7, Some(opened(1, "a", 0)), &vec![]);
    sample(&mut p, 1, 1000, 100, 150);
    assert_eq!(p.cpu_usage, 25_000);
}

#[test]
fn cpu_usage_idle_interval_reads_zero() {
    let mut p = Process::new(42, None, 7, Some(opened(1, "a", 0)), &vec![]);
    sample(&mut p, 4, 1_000_000, 5_000, 7_000);
    sample(&mut p, 4, 1_100_000, 5_000, 7_000);
    assert_eq!(p.cpu_usage, 0);
}

#[test]
fn cpu_usage_zero_elapsed_reads_zero() {
    let mut p = Process::new(42, None, 7, Some(opened(1, "a", 0)), &vec![]);
    sample(&mut p, 4, 1_000_000, 5_000, 7_000);
    sample(&mut p, 4, 1_000_000, 9_000, 9_000);
    assert_eq!(p.cpu_usage, 0);
}

#[test]
fn cpu_usage_stays_in_range_over_five_ticks() {
    let nb = 4u64;
    let mut p = Process::new(42, None, 7, Some(opened(1, "a", 0)), &vec![]);
    sample(&mut p, nb, 10_000, 0, 0);
    let mut wall = 10_000u64;
    let mut sys = 0u64;
    let mut user = 0u64;
    for k in 1..=5u64 {
        wall += 1_000;
        sys += 300 * k;
        user += 500 * k;
        sample(&mut p, nb, wall, sys, user);
        assert!(p.cpu_usage <= 100_000 * nb);
        assert_eq!(p.cpu_usage, (800 * k) * 100_000 / (1_000 * nb));
    }
}

#[test]
fn cpu_counters_that_regress_count_as_no_progress() {
    let prev = CpuTicks { wall: 100, sys: 50, user: 50 };
    let now = CpuTicks { wall: 200, sys: 40, user: 60 };
    assert_eq!(cpu_usage_between(prev, now, 1), 10_000);
    let back = CpuTicks { wall: 50, sys: 60, user: 60 };
    assert_eq!(cpu_usage_between(prev, back, 1), 0);
}

#[test]
fn cpu_usage_caps_at_u64_max() {
    let prev = CpuTicks { wall: 0, sys: 0, user: 0 };
    let now = CpuTicks { wall: 1, sys: u64::MAX, user: u64::MAX };
    assert_eq!(cpu_usage_between(prev, now, 1), u64::MAX);
}

#[test]
fn memory_converts_bytes_to_kib() {
    let mut p = Process::new(42, None, 7, None, &vec![]);
    update_memory(&mut p, Some(10 * 1024 + 1023));
    assert_eq!(p.memory, 10);
    update_proc_info(&mut p, Some(2048));
    assert_eq!(p.memory, 2);
}

#[test]
fn memory_keeps_value_when_query_fails() {
    let mut p = Process::new(42, None, 7, None, &vec![]);
    update_memory(&mut p, Some(1 << 20));
    assert_eq!(p.memory, 1024);
    update_memory(&mut p, None);
    assert_eq!(p.memory, 1024);
    update_proc_info(&mut p, None);
    assert_eq!(p.memory, 1024);
}

#[test]
fn snapshot_parent_lookup() {
    let snap = vec![SnapshotEntry { pid: 4, parent: 1 }, SnapshotEntry { pid: 8, parent: 4 }];
    assert_eq!(get_parent_process_id(&snap, 8), Some(4));
    assert_eq!(get_parent_process_id(&snap, 4), Some(1));
    assert_eq!(get_parent_process_id(&snap, 99), None);
    assert_eq!(get_parent_process_id(&vec![], 8), None);
}

#[test]
fn snapshot_first_entry_wins() {
    let snap = vec![SnapshotEntry { pid: 8, parent: 3 }, SnapshotEntry { pid: 8, parent: 4 }];
    assert_eq!(get_parent_process_id(&snap, 8), Some(3));
}

#[test]
fn degraded_record_requests_no_termination() {
    let p = Process::new(1234, None, 7, None, &vec![]);
    assert_eq!(p.termination_request(1), None);
}

#[test]
fn opened_record_requests_termination_through_its_handle() {
    let p = Process::new(1234, None, 7, Some(opened(0x44, "a", 0)), &vec![]);
    assert_eq!(p.termination_request(3), Some(TerminateRequest { handle: 0x44, exit_code: 3 }));
}

#[test]
fn handle_is_taken_out_once() {
    let mut p = Process::new(1234, None, 7, Some(opened(0x44, "a", 0)), &vec![]);
    assert_eq!(p.take_handle(), Some(0x44));
    assert_eq!(p.take_handle(), None);
    assert_eq!(get_handle(&p), None);
    assert_eq!(p.termination_request(3), None);
}

#[test]
fn access_requests_fall_back_then_give_up() {
    let full = AccessRights { query_information: true, vm_read: true, terminate: true };
    let read = AccessRights { query_information: true, vm_read: true, terminate: false };
    assert_eq!(next_access_request(0, 0), None);
    assert_eq!(next_access_request(12, 0), Some(full));
    assert_eq!(next_access_request(12, 1), Some(read));
    assert_eq!(next_access_request(12, 2), None);
}
