use taskmgr::affinity::{checked_affinity_mask, toggle_core, CpuAffinity};
use taskmgr::cli::{parse_refresh, parse_sort, Args, RefreshArgError};
use taskmgr::cpu::{ProcessCpuSnapshot, SystemCpuSnapshot};
use taskmgr::entry::{ProcessEntry, ProcessInfo};
use taskmgr::error::{AffinityError, PriorityError, ProcessError};
use taskmgr::priority::Priority;
use taskmgr::sample::ProcessSample;
use taskmgr::sort::{sort_entries, SortColumn};
use taskmgr::state::{App, ControlRequest, StatusMessage};
use taskmgr::suspend::{
    init_suspended_pids, is_process_suspended, mark_resumed, mark_suspended, toggle_suspend,
    untrack_process, SuspendRequest,
};
use taskmgr::tree::{build_process_tree, filter_entries};
use taskmgr::view_mode::ViewMode;

fn info(pid: u32, parent: u32, name: &str) -> ProcessInfo {
    ProcessInfo { pid, parent_pid: parent, thread_count: 1, base_priority: 8, name: name.to_string() }
}

fn entry(pid: u32, parent: u32, name: &str, cpu: u32, mem: u64) -> ProcessEntry {
    ProcessEntry {
        info: info(pid, parent, name),
        cpu_usage: cpu,
        memory_bytes: mem,
        disk_read: 0,
        disk_write: 0,
        disk_read_rate: 0,
        disk_write_rate: 0,
        priority: Priority::Normal,
        thread_count: 1,
        start_time: None,
        uptime_seconds: 0,
        path: None,
        handle_count: 0,
        tree_depth: 0,
    }
}

fn sample(pid: u32, parent: u32, name: &str, cpu: Option<(u64, u64)>) -> ProcessSample {
    ProcessSample {
        info: info(pid, parent, name),
        cpu: cpu.map(|(k, u)| ProcessCpuSnapshot { kernel_time: k, user_time: u }),
        memory_bytes: 4096,
        disk_read_bytes: 0,
        disk_write_bytes: 0,
        priority: Priority::Normal,
        handle_count: 3,
        path: None,
        start_time: None,
    }
}

fn sys(idle: u64, kernel: u64, user: u64) -> Option<SystemCpuSnapshot> {
    Some(SystemCpuSnapshot { idle_time: idle, kernel_time: kernel, user_time: user })
}

fn pids(v: &[ProcessEntry]) -> Vec<u32> {
    v.iter().map(|e| e.info.pid).collect()
}

fn app_with(samples: Vec<ProcessSample>) -> App {
    let mut app = App::new();
    app.refresh(1000, 0, sys(0, 0, 0), Ok(samples));
    app
}

#[test]
fn test_priority_ordering() {
    assert!(Priority::Idle < Priority::Normal);
    assert!(Priority::Normal < Priority::High);
    assert!(Priority::High < Priority::Realtime);
}

#[test]
fn priority_ladder_saturates() {
    assert_eq!(Priority::Realtime.raise(), Priority::Realtime);
    assert_eq!(Priority::Idle.lower(), Priority::Idle);
    assert_eq!(Priority::Normal.raise(), Priority::AboveNormal);
    assert_eq!(Priority::Unknown.lower(), Priority::Normal);
}

#[test]
fn test_suspended_tracking() {
    let mut set = init_suspended_pids();
    assert!(!is_process_suspended(&set, 99999));
    mark_suspended(&mut set, 99999);
    assert!(is_process_suspended(&set, 99999));
    mark_resumed(&mut set, 99999);
    assert!(!is_process_suspended(&set, 99999));
}

#[test]
fn toggle_decisions() {
    let mut set = init_suspended_pids();
    assert_eq!(toggle_suspend(&set, 4), Err(ProcessError::SystemProcess));
    assert_eq!(toggle_suspend(&set, 0), Err(ProcessError::SystemProcess));
    assert_eq!(toggle_suspend(&set, 50), Ok(SuspendRequest::Suspend));
    mark_suspended(&mut set, 50);
    assert_eq!(toggle_suspend(&set, 50), Ok(SuspendRequest::Resume));
    untrack_process(&mut set, 50);
    assert!(!is_process_suspended(&set, 50));
}

#[test]
fn sort_column_ring() {
    let mut c = SortColumn::Cpu;
    for _ in 0..10 {
        c = c.next();
    }
    assert_eq!(c, SortColumn::Cpu);
    assert_eq!(SortColumn::DiskReadRate.name(), "Read/s");
    assert_eq!(SortColumn::Cpu.next(), SortColumn::Memory);
}

#[test]
fn sorting_by_columns() {
    let list = vec![
        entry(3, 0, "beta", 10, 300),
        entry(1, 0, "Alpha", 50, 100),
        entry(2, 0, "gamma", 10, 200),
    ];
    let by_cpu = sort_entries(list.clone(), SortColumn::Cpu, false);
    assert_eq!(pids(&by_cpu), vec![1, 3, 2]);
    let by_mem = sort_entries(list.clone(), SortColumn::Memory, false);
    assert_eq!(pids(&by_mem), vec![3, 2, 1]);
    let by_name = sort_entries(list.clone(), SortColumn::Name, false);
    assert_eq!(pids(&by_name), vec![2, 3, 1]);
    let by_name_rev = sort_entries(list.clone(), SortColumn::Name, true);
    assert_eq!(pids(&by_name_rev), vec![1, 3, 2]);
    let by_pid = sort_entries(list.clone(), SortColumn::Pid, false);
    assert_eq!(pids(&by_pid), vec![3, 2, 1]);
    let by_pid_rev = sort_entries(list.clone(), SortColumn::Pid, true);
    assert_eq!(pids(&by_pid_rev), vec![1, 2, 3]);
}

#[test]
fn toggling_direction_twice_restores_order() {
    let list = vec![
        entry(3, 0, "beta", 10, 300),
        entry(1, 0, "alpha", 50, 100),
        entry(2, 0, "gamma", 10, 200),
        entry(7, 0, "delta", 10, 200),
    ];
    let mut app = App::new();
    app.processes = list;
    app.apply_filter();
    app.toggle_sort_order();
    app.toggle_sort_order();
    let first = pids(&app.processes);
    app.toggle_sort_order();
    app.toggle_sort_order();
    assert_eq!(pids(&app.processes), first);
    assert_eq!(first, vec![1, 7, 3, 2]);
}

#[test]
fn empty_filter_is_a_full_copy() {
    let list = vec![entry(3, 0, "beta", 10, 300), entry(1, 0, "Alpha", 50, 100)];
    let out = filter_entries(&list, "");
    assert_eq!(out.len(), 2);
    assert_eq!(pids(&out), vec![3, 1]);
    assert_eq!(out[1].info.name, "Alpha");
}

#[test]
fn filter_ignores_case() {
    let list = vec![
        entry(1, 0, "Chrome.exe", 0, 0),
        entry(2, 0, "svchost.exe", 0, 0),
        entry(3, 0, "chromedriver", 0, 0),
    ];
    assert_eq!(pids(&filter_entries(&list, "CHROME")), vec![1, 3]);
    assert_eq!(pids(&filter_entries(&list, "zzz")), Vec::<u32>::new());
}

#[test]
fn tree_orders_and_indents() {
    let list = vec![
        entry(10, 1, "child-b", 0, 0),
        entry(1, 0, "root", 0, 0),
        entry(11, 1, "child-a", 0, 0),
        entry(12, 11, "grandchild", 0, 0),
        entry(20, 999, "orphan", 0, 0),
    ];
    let tree = build_process_tree(&list);
    assert_eq!(pids(&tree), vec![20, 1, 11, 12, 10]);
    let depths: Vec<usize> = tree.iter().map(|e| e.tree_depth).collect();
    assert_eq!(depths, vec![0, 0, 1, 2, 1]);
}

#[test]
fn tree_survives_cycles_and_self_parents() {
    let list = vec![
        entry(5, 5, "self", 0, 0),
        entry(6, 7, "a", 0, 0),
        entry(7, 6, "b", 0, 0),
        entry(8, 0, "top", 0, 0),
        entry(9, 8, "under", 0, 0),
    ];
    let tree = build_process_tree(&list);
    assert!(tree.iter().all(|e| e.tree_depth <= 10));
    assert_eq!(pids(&tree), vec![8, 9]);
}

#[test]
fn deep_chain_is_capped() {
    let mut list = vec![entry(1, 0, "p1", 0, 0)];
    for pid in 2..20u32 {
        list.push(entry(pid, pid - 1, &format!("p{}", pid), 0, 0));
    }
    let tree = build_process_tree(&list);
    assert_eq!(tree.len(), 11);
    assert_eq!(tree.last().unwrap().tree_depth, 10);
}

#[test]
fn refresh_scenario_cpu_figures() {
    let mut app = App::new();
    app.refresh(
        1000,
        0,
        sys(0, 0, 0),
        Ok(vec![sample(10, 0, "a", Some((100, 100))), sample(20, 0, "b", Some((100, 100)))]),
    );
    app.refresh(
        1000,
        0,
        sys(100, 1000, 1000),
        Ok(vec![sample(10, 0, "a", Some((100, 100))), sample(20, 0, "b", Some((300, 200)))]),
    );
    let a = app.processes.iter().find(|e| e.info.pid == 10).unwrap();
    let b = app.processes.iter().find(|e| e.info.pid == 20).unwrap();
    assert_eq!(a.cpu_usage, 0);
    assert!(b.cpu_usage > 0);
    assert_eq!(b.cpu_usage, 1500);
    assert_eq!(app.system_cpu, 9500);
    assert_eq!(pids(&app.processes), vec![20, 10]);
}

#[test]
fn refresh_disk_rates_saturate() {
    let mut app = App::new();
    let mut s = sample(10, 0, "a", None);
    s.disk_read_bytes = 5000;
    s.disk_write_bytes = 100;
    app.refresh(0, 0, None, Ok(vec![s]));
    assert_eq!(app.processes[0].disk_read_rate, 0);
    let mut s = sample(10, 0, "a", None);
    s.disk_read_bytes = 1000;
    s.disk_write_bytes = 2100;
    app.refresh(2000, 0, None, Ok(vec![s]));
    assert_eq!(app.processes[0].disk_read_rate, 0);
    assert_eq!(app.processes[0].disk_write_rate, 1000);
}

#[test]
fn failed_enumeration_keeps_entries() {
    let mut app = app_with(vec![sample(10, 0, "a", None)]);
    app.refresh(1000, 0, None, Err("access denied".to_string()));
    assert_eq!(app.processes.len(), 1);
    assert!(matches!(app.error_message, Some(StatusMessage::EnumerationFailed { .. })));
    assert_eq!(
        app.error_message.as_ref().unwrap().text(),
        "Failed to enumerate processes: access denied"
    );
}

#[test]
fn kill_on_empty_list_is_a_no_op() {
    let mut app = App::new();
    app.request_kill();
    assert_eq!(app.view_mode, ViewMode::ProcessList);
    assert!(app.pending_kill.is_none());
    assert!(app.confirm_kill().is_none());
}

#[test]
fn kill_flow() {
    let mut app = app_with(vec![sample(10, 0, "a", None)]);
    app.request_kill();
    assert_eq!(app.view_mode, ViewMode::ConfirmKill);
    assert_eq!(app.pending_kill.as_ref().unwrap().pid, 10);
    let req = app.confirm_kill();
    assert_eq!(req, Some(ControlRequest::Terminate { pid: 10 }));
    assert_eq!(app.view_mode, ViewMode::ProcessList);
    assert!(app.pending_kill.is_none());
    app.finish_kill(Err(ProcessError::AccessDenied));
    assert!(matches!(
        app.error_message,
        Some(StatusMessage::TerminateFailed { pid: 10, error: ProcessError::AccessDenied, .. })
    ));
    app.request_kill();
    app.cancel_kill();
    assert_eq!(app.view_mode, ViewMode::ProcessList);
    assert!(app.pending_kill.is_none());
}

#[test]
fn suspend_toggle_twice() {
    let mut app = app_with(vec![sample(30, 0, "worker", None)]);
    assert_eq!(app.toggle_suspend(), Some(ControlRequest::Suspend { pid: 30 }));
    app.finish_suspend(Ok(()));
    assert!(app.is_process_suspended(30));
    assert_eq!(app.toggle_suspend(), Some(ControlRequest::Resume { pid: 30 }));
    app.finish_suspend(Ok(()));
    assert!(!app.is_process_suspended(30));
    assert!(matches!(app.error_message, Some(StatusMessage::Resumed { pid: 30, .. })));
}

#[test]
fn failed_suspend_leaves_set_unchanged() {
    let mut app = app_with(vec![sample(30, 0, "worker", None)]);
    app.toggle_suspend();
    app.finish_suspend(Err(ProcessError::AccessDenied));
    assert!(!app.is_process_suspended(30));
    let mut app = app_with(vec![sample(4, 0, "System", None)]);
    assert_eq!(app.toggle_suspend(), None);
    assert!(matches!(
        app.error_message,
        Some(StatusMessage::SuspendFailed { error: ProcessError::SystemProcess })
    ));
}

#[test]
fn raising_from_realtime_reports_maximum() {
    let mut s = sample(40, 0, "rt", None);
    s.priority = Priority::Realtime;
    let mut app = app_with(vec![s]);
    assert_eq!(app.raise_priority(), None);
    assert!(app.pending_control.is_none());
    assert_eq!(app.processes[0].priority, Priority::Realtime);
    assert!(matches!(app.error_message, Some(StatusMessage::AlreadyAtMaximum { .. })));
}

#[test]
fn priority_change_flow() {
    let mut app = app_with(vec![sample(40, 0, "job", None)]);
    let req = app.lower_priority();
    assert_eq!(
        req,
        Some(ControlRequest::SetPriority {
            pid: 40,
            from: Priority::Normal,
            to: Priority::BelowNormal,
            raising: false,
        })
    );
    app.finish_priority(Err(PriorityError::SetFailed { message: "denied".to_string() }));
    assert!(matches!(
        app.error_message,
        Some(StatusMessage::PriorityFailed { raising: false, .. })
    ));
    app.raise_priority();
    app.finish_priority(Ok(()));
    assert!(matches!(
        app.error_message,
        Some(StatusMessage::PriorityChanged { from: Priority::Normal, to: Priority::AboveNormal, .. })
    ));
}

#[test]
fn affinity_editor_keeps_last_core() {
    let mut app = app_with(vec![sample(50, 0, "job", None)]);
    app.open_detail_view();
    assert_eq!(app.view_mode, ViewMode::DetailView);
    app.open_affinity_dialog(Some(CpuAffinity::from_masks(0b1, 0b1111, 4)), 4);
    assert_eq!(app.view_mode, ViewMode::Affinity);
    app.toggle_affinity_core();
    assert_eq!(app.affinity.as_ref().unwrap().mask, 0b1);
    assert!(matches!(app.error_message, Some(StatusMessage::LastCoreKept)));
    app.affinity_move_right();
    app.toggle_affinity_core();
    assert_eq!(app.affinity.as_ref().unwrap().mask, 0b11);
    assert!(app.is_core_selected(1));
    let req = app.apply_affinity();
    assert_eq!(req, Some(ControlRequest::SetAffinity { pid: 50, mask: 0b11 }));
    app.finish_affinity(Ok(()));
    assert_eq!(app.view_mode, ViewMode::DetailView);
    assert!(matches!(app.error_message, Some(StatusMessage::AffinitySet { cores: 2 })));
    app.close_detail_view();
    assert_eq!(app.view_mode, ViewMode::ProcessList);
}

#[test]
fn affinity_rejections_are_distinct() {
    assert_eq!(checked_affinity_mask(50, 0, 0b1111), Err(AffinityError::NoCoresSelected));
    assert_eq!(checked_affinity_mask(50, 0b10000, 0b1111), Err(AffinityError::InvalidCoreSelection));
    assert_eq!(checked_affinity_mask(4, 0b1, 0b1111), Err(AffinityError::SystemProcess));
    assert_eq!(checked_affinity_mask(50, 0b110000, 0b011111), Ok(0b010000));
    assert_eq!(toggle_core(0b100, 2), (0b100, true));
    assert_eq!(toggle_core(0b101, 2), (0b001, false));
}

#[test]
fn detail_view_closes_when_process_vanishes() {
    let mut app = app_with(vec![sample(60, 0, "short", None), sample(61, 0, "long", None)]);
    app.jump_to_end();
    app.open_detail_view();
    let viewed = app.detail_view_pid.unwrap();
    let remaining = if viewed == 60 { 61 } else { 60 };
    app.refresh(1000, 0, None, Ok(vec![sample(remaining, 0, "x", None)]));
    assert_eq!(app.view_mode, ViewMode::ProcessList);
    assert!(matches!(app.error_message, Some(StatusMessage::ProcessGone)));
    assert_eq!(app.selected_index, 0);
}

#[test]
fn navigation_and_intervals() {
    let mut app = app_with(vec![
        sample(1, 0, "a", None),
        sample(2, 0, "b", None),
        sample(3, 0, "c", None),
    ]);
    app.move_down();
    app.move_down();
    app.move_down();
    assert_eq!(app.selected_index, 2);
    app.page_up(5);
    assert_eq!(app.selected_index, 0);
    app.page_down(1);
    assert_eq!(app.selected_index, 1);
    app.jump_to_start();
    assert_eq!(app.selected_index, 0);
    assert_eq!(app.format_refresh_interval(), "2.0s");
    app.increase_refresh_interval();
    assert_eq!(app.refresh_interval_ms, 5000);
    app.decrease_refresh_interval();
    app.decrease_refresh_interval();
    app.decrease_refresh_interval();
    assert_eq!(app.refresh_interval_ms, 500);
    assert_eq!(app.format_refresh_interval(), "500ms");
}

#[test]
fn filter_typing_and_tree_toggle() {
    let mut app = app_with(vec![
        sample(1, 0, "init", None),
        sample(2, 1, "shell", None),
        sample(3, 1, "editor", None),
    ]);
    app.begin_filter_input();
    assert_eq!(app.view_mode, ViewMode::FilterInput);
    app.push_filter_char('E');
    assert_eq!(pids(&app.filtered_processes).len(), 2);
    app.pop_filter_char();
    app.end_filter_input();
    assert_eq!(app.view_mode, ViewMode::ProcessList);
    app.toggle_tree_view();
    assert_eq!(pids(&app.filtered_processes), vec![1, 3, 2]);
    assert_eq!(app.filtered_processes[1].tree_depth, 1);
    app.toggle_tree_view();
    assert!(app.filtered_processes.iter().all(|e| e.tree_depth == 0));
}

#[test]
fn options_parse() {
    assert_eq!(parse_sort("MEM"), Some(SortColumn::Memory));
    assert_eq!(parse_sort("disk-write"), Some(SortColumn::DiskWriteRate));
    assert_eq!(parse_sort("bogus"), None);
    assert_eq!(parse_refresh("500"), Ok(500));
    assert_eq!(parse_refresh("+250"), Ok(250));
    assert_eq!(parse_refresh("100"), Err(RefreshArgError::OutOfRange { ms: 100 }));
    assert_eq!(parse_refresh("fast"), Err(RefreshArgError::NotANumber));
    let d = Args::default();
    assert_eq!(d.refresh, 2000);
    assert_eq!(d.sort, SortColumn::Cpu);
    assert_eq!(App::default().view_mode, ViewMode::ProcessList);
    let mut args = Args::defaults();
    args.tree = true;
    args.filter = Some("svc".to_string());
    let app = App::with_args(&args);
    assert!(app.tree_view_mode);
    assert_eq!(app.filter, "svc");
}

#[test]
fn kill_of_a_system_pid_is_refused() {
    let mut app = app_with(vec![sample(4, 0, "System", None)]);
    app.request_kill();
    assert_eq!(app.confirm_kill(), None);
    assert_eq!(app.view_mode, ViewMode::ProcessList);
    assert!(matches!(
        app.error_message,
        Some(StatusMessage::TerminateFailed { pid: 4, error: ProcessError::SystemProcess, .. })
    ));
}

#[test]
fn affinity_select_all_and_single() {
    let mut app = app_with(vec![sample(50, 0, "job", None)]);
    app.open_detail_view();
    app.open_affinity_dialog(Some(CpuAffinity::from_masks(0b10, 0xff, 8)), 8);
    app.select_all_cores();
    assert_eq!(app.affinity.as_ref().unwrap().mask, 0xff);
    app.select_single_core();
    assert_eq!(app.affinity.as_ref().unwrap().mask, 1);
    for _ in 0..20 {
        app.affinity_move_right();
    }
    assert_eq!(app.affinity.as_ref().unwrap().selected_core, 7);
    app.close_affinity_dialog();
    assert_eq!(app.view_mode, ViewMode::DetailView);
    assert!(app.affinity.is_none());
    app.open_affinity_dialog(Some(CpuAffinity::from_masks(1, u64::MAX, 64)), 64);
    app.select_all_cores();
    assert_eq!(app.affinity.as_ref().unwrap().mask, u64::MAX);
    app.open_affinity_dialog(None, 8);
}

#[test]
fn unreadable_affinity_keeps_detail_view() {
    let mut app = app_with(vec![sample(50, 0, "job", None)]);
    app.open_detail_view();
    app.open_affinity_dialog(None, 8);
    assert_eq!(app.view_mode, ViewMode::DetailView);
    assert!(matches!(app.error_message, Some(StatusMessage::AffinityUnreadable)));
}

#[test]
fn applying_to_unavailable_cores_is_refused() {
    let mut app = app_with(vec![sample(50, 0, "job", None)]);
    app.open_detail_view();
    app.open_affinity_dialog(Some(CpuAffinity::from_masks(0b1000_0000, 0b0111_1111, 8)), 8);
    assert_eq!(app.apply_affinity(), None);
    assert!(matches!(
        app.error_message,
        Some(StatusMessage::AffinityFailed { error: AffinityError::InvalidCoreSelection })
    ));
    assert_eq!(app.view_mode, ViewMode::Affinity);
}

#[test]
fn interval_formatting() {
    let mut app = App::new();
    app.refresh_interval_ms = 1250;
    assert_eq!(app.format_refresh_interval(), "1.2s");
    app.refresh_interval_ms = 10000;
    assert_eq!(app.format_refresh_interval(), "10.0s");
    app.increase_refresh_interval();
    assert_eq!(app.refresh_interval_ms, 10000);
    app.refresh_interval_ms = 250;
    app.decrease_refresh_interval();
    assert_eq!(app.refresh_interval_ms, 250);
}

#[test]
fn detail_scrolling_is_bounded() {
    let mut app = app_with(vec![sample(1, 0, "a", None)]);
    app.open_detail_view();
    app.detail_scroll_down(12);
    app.detail_scroll_down(12);
    app.detail_scroll_down(12);
    assert_eq!(app.detail_scroll_offset, 2);
    app.detail_page_down(100, 30);
    assert_eq!(app.detail_scroll_offset, 20);
    app.detail_page_up(5);
    assert_eq!(app.detail_scroll_offset, 15);
    app.detail_scroll_up();
    assert_eq!(app.detail_scroll_offset, 14);
}

#[test]
fn failed_raise_from_unknown_is_reported_as_raise() {
    let mut s = sample(41, 0, "odd", None);
    s.priority = Priority::Unknown;
    let mut app = app_with(vec![s]);
    let req = app.raise_priority();
    assert_eq!(
        req,
        Some(ControlRequest::SetPriority {
            pid: 41,
            from: Priority::Unknown,
            to: Priority::Normal,
            raising: true,
        })
    );
    app.finish_priority(Err(PriorityError::OpenFailed { message: "denied".to_string() }));
    assert!(matches!(app.error_message, Some(StatusMessage::PriorityFailed { raising: true, .. })));
}

#[test]
fn empty_filter_shows_every_entry_unchanged() {
    let app = app_with(vec![sample(1, 0, "a", None), sample(2, 1, "b", None)]);
    assert_eq!(pids(&app.filtered_processes), pids(&app.processes));
    assert!(app.filtered_processes.iter().all(|e| e.tree_depth == 0));
}

#[test]
fn vanished_detail_resets_scroll() {
    let mut app = app_with(vec![sample(60, 0, "short", None)]);
    app.open_detail_view();
    app.detail_scroll_down(40);
    assert_eq!(app.detail_scroll_offset, 1);
    app.refresh(1000, 0, None, Ok(vec![sample(61, 0, "other", None)]));
    assert_eq!(app.view_mode, ViewMode::ProcessList);
    assert_eq!(app.detail_view_pid, None);
    assert_eq!(app.detail_scroll_offset, 0);
    assert!(matches!(app.error_message, Some(StatusMessage::ProcessGone)));
}

#[test]
fn priority_class_values() {
    assert_eq!(Priority::from_win32(0x20), Priority::Normal);
    assert_eq!(Priority::from_win32(0x100), Priority::Realtime);
    assert_eq!(Priority::from_win32(7), Priority::Unknown);
    assert_eq!(Priority::High.to_win32(), 0x80);
    assert_eq!(Priority::Unknown.to_win32(), 0x20);
    assert_eq!(Priority::from_win32(Priority::BelowNormal.to_win32()), Priority::BelowNormal);
}
