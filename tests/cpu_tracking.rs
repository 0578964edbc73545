use taskmgr::cpu::{CpuTracker, ProcessCpuSnapshot, SystemCpuSnapshot, FULL_USAGE};
use taskmgr::sample::{compute_disk_rate, uptime_seconds_between};

fn sys(idle: u64, kernel: u64, user: u64) -> SystemCpuSnapshot {
    SystemCpuSnapshot { idle_time: idle, kernel_time: kernel, user_time: user }
}

fn proc_times(kernel: u64, user: u64) -> ProcessCpuSnapshot {
    ProcessCpuSnapshot { kernel_time: kernel, user_time: user }
}

#[test]
fn test_cpu_tracker() {
    let mut tracker = CpuTracker::new();
    let usage = tracker.get_system_cpu_usage(Some(sys(100, 200, 50)));
    assert_eq!(usage, 0);
    let usage = tracker.get_system_cpu_usage(Some(sys(150, 300, 100)));
    // total 150 ticks, idle 50: busy 100 of 150
    assert_eq!(usage, 6666);
    assert!(usage <= FULL_USAGE);
}

#[test]
fn first_observation_of_a_pid_is_zero() {
    let mut tracker = CpuTracker::new();
    tracker.get_system_cpu_usage(Some(sys(0, 0, 0)));
    tracker.get_system_cpu_usage(Some(sys(100, 1000, 1000)));
    assert_eq!(tracker.get_process_cpu_usage(42, Some(proc_times(500, 500))), 0);
    assert_eq!(tracker.get_process_cpu_usage(42, Some(proc_times(700, 600))), 1500);
}

#[test]
fn process_usage_is_clamped() {
    let mut tracker = CpuTracker::new();
    tracker.get_process_cpu_usage(7, Some(proc_times(0, 0)));
    tracker.get_system_cpu_usage(Some(sys(0, 0, 0)));
    tracker.get_system_cpu_usage(Some(sys(0, 10, 0)));
    assert_eq!(tracker.get_process_cpu_usage(7, Some(proc_times(1000, 1000))), FULL_USAGE);
}

#[test]
fn unreadable_process_records_zero() {
    let mut tracker = CpuTracker::new();
    tracker.get_system_cpu_usage(Some(sys(0, 0, 0)));
    tracker.get_system_cpu_usage(Some(sys(0, 100, 0)));
    tracker.get_process_cpu_usage(9, Some(proc_times(50, 0)));
    assert_eq!(tracker.get_process_cpu_usage(9, None), 0);
    assert_eq!(tracker.get_process_cpu_usage(9, Some(proc_times(10, 0))), 1000);
}

#[test]
fn system_usage_without_ticks_is_zero() {
    let mut tracker = CpuTracker::new();
    tracker.get_system_cpu_usage(Some(sys(5, 5, 5)));
    assert_eq!(tracker.get_system_cpu_usage(Some(sys(5, 5, 5))), 0);
    assert_eq!(tracker.get_system_cpu_usage(None), 0);
}

#[test]
fn cleanup_forgets_gone_pids() {
    let mut tracker = CpuTracker::new();
    tracker.get_process_cpu_usage(1, Some(proc_times(1, 1)));
    tracker.get_process_cpu_usage(2, Some(proc_times(1, 1)));
    tracker.cleanup_stale_processes(&[2]);
    tracker.get_system_cpu_usage(Some(sys(0, 0, 0)));
    tracker.get_system_cpu_usage(Some(sys(0, 100, 0)));
    // pid 1 was forgotten, so it counts as a first observation again
    assert_eq!(tracker.get_process_cpu_usage(1, Some(proc_times(50, 50))), 0);
    assert_eq!(tracker.get_process_cpu_usage(2, Some(proc_times(50, 50))), 9800);
}

#[test]
fn disk_rate_never_negative() {
    assert_eq!(compute_disk_rate(Some(5000), 1000, 1000), 0);
    assert_eq!(compute_disk_rate(Some(1000), 3000, 500), 4000);
    assert_eq!(compute_disk_rate(None, 3000, 500), 0);
    assert_eq!(compute_disk_rate(Some(1000), 3000, 0), 0);
}

#[test]
fn uptime_between_ticks() {
    assert_eq!(uptime_seconds_between(100_000_000, 30_000_000), 7);
    assert_eq!(uptime_seconds_between(1, 2), 0);
}

#[test]
fn any_use_shows_as_nonzero() {
    let mut tracker = CpuTracker::new();
    tracker.get_process_cpu_usage(3, Some(proc_times(0, 0)));
    tracker.get_system_cpu_usage(Some(sys(0, 0, 0)));
    tracker.get_system_cpu_usage(Some(sys(0, 1_000_000, 0)));
    assert_eq!(tracker.get_process_cpu_usage(3, Some(proc_times(1, 0))), 1);
    assert_eq!(tracker.get_process_cpu_usage(3, Some(proc_times(1, 0))), 0);
}
