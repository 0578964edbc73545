use taskmgr::cpu::ProcessCpuSnapshot;
use taskmgr::entry::ProcessInfo;
use taskmgr::error::{AffinityError, PriorityError, ProcessError};
use taskmgr::input::{command_for, Command, Key, KeyAction};
use taskmgr::priority::Priority;
use taskmgr::sample::ProcessSample;
use taskmgr::state::{App, ControlRequest, StatusMessage};
use taskmgr::text::{escape_csv, wide_to_string};
use taskmgr::tree::matches_folded;
use taskmgr::view_mode::ViewMode;

fn sample(pid: u32, name: &str) -> ProcessSample {
    ProcessSample {
        info: ProcessInfo { pid, parent_pid: 0, thread_count: 2, base_priority: 8, name: name.to_string() },
        cpu: Some(ProcessCpuSnapshot { kernel_time: 0, user_time: 0 }),
        memory_bytes: 0,
        disk_read_bytes: 0,
        disk_write_bytes: 0,
        priority: Priority::Normal,
        handle_count: 0,
        path: Some("C:\\bin\\x.exe".to_string()),
        start_time: Some(0),
    }
}

#[test]
fn error_messages() {
    assert_eq!(ProcessError::SystemProcess.message(), "Cannot perform operation on system processes");
    assert_eq!(
        ProcessError::AlreadyInState { state: "suspended" }.message(),
        "Process is already suspended"
    );
    assert_eq!(
        ProcessError::WinApiError { api: "NtSuspendProcess", code: -1073741790 }.message(),
        "NtSuspendProcess failed (error code: 0xC0000022)"
    );
    assert_eq!(AffinityError::InvalidCoreSelection.message(), "Invalid core selection");
    assert_eq!(AffinityError::NoCoresSelected.message(), "At least one core must be selected");
    assert_eq!(
        PriorityError::SetFailed { message: "denied".to_string() }.message(),
        "Failed to set priority: denied"
    );
}

#[test]
fn status_texts() {
    let m = StatusMessage::Resumed { name: "worker".to_string(), pid: 30 };
    assert_eq!(m.text(), "Resumed: worker (PID 30)");
    let m = StatusMessage::AlreadyAtMaximum { name: "rt".to_string() };
    assert_eq!(m.text(), "rt is already at maximum priority");
    let m = StatusMessage::PriorityChanged { name: "job".to_string(), from: Priority::Normal, to: Priority::High };
    assert_eq!(m.text(), "job: Normal \u{2192} High");
    assert_eq!(StatusMessage::AffinitySet { cores: 1 }.text(), "Set affinity to 1 core");
    assert_eq!(StatusMessage::AffinitySet { cores: 4 }.text(), "Set affinity to 4 cores");
    let m = StatusMessage::KillPrompt { name: "a".to_string(), pid: 7 };
    assert_eq!(m.text(), "Kill a (PID 7)? Press Y to confirm, N to cancel");
}

#[test]
fn priority_names() {
    assert_eq!(Priority::BelowNormal.name(), "Below Normal");
    assert_eq!(Priority::Realtime.short_name(), "RT");
    assert_eq!(Priority::Unknown.short_name(), "??");
}

#[test]
fn csv_escaping() {
    assert_eq!(escape_csv("plain"), "plain");
    assert_eq!(escape_csv("a,b"), "\"a,b\"");
    assert_eq!(escape_csv("say \"hi\""), "\"say \"\"hi\"\"\"");
    assert_eq!(escape_csv("line\nbreak"), "\"line\nbreak\"");
    assert_eq!(escape_csv(""), "");
}

#[test]
fn wide_strings() {
    let mut buf = [0u16; 8];
    for (i, c) in "cmd.exe".encode_utf16().enumerate() {
        buf[i] = c;
    }
    assert_eq!(wide_to_string(&buf), "cmd.exe");
    let full: Vec<u16> = "abc".encode_utf16().collect();
    assert_eq!(wide_to_string(&full), "abc");
}

#[test]
fn folded_matching() {
    assert!(matches_folded("chrome", "chrome.exe"));
    assert!(!matches_folded("Chrome", "chrome.exe"));
    assert!(matches_folded("", "anything"));
}

#[test]
fn key_bindings() {
    assert_eq!(command_for(ViewMode::ProcessList, Key::Char('k')), Command::RequestKill);
    assert_eq!(command_for(ViewMode::ProcessList, Key::Ctrl('c')), Command::Quit);
    assert_eq!(command_for(ViewMode::ConfirmKill, Key::Char('k')), Command::Nothing);
    assert_eq!(command_for(ViewMode::FilterInput, Key::Char('q')), Command::FilterPush('q'));
    assert_eq!(command_for(ViewMode::Help, Key::Up), Command::CloseHelp);
    assert_eq!(command_for(ViewMode::Affinity, Key::Char(' ')), Command::ToggleCore);
}

#[test]
fn key_driven_kill() {
    let mut app = App::new();
    app.refresh(0, 0, None, Ok(vec![sample(12, "victim")]));
    assert_eq!(app.handle_key(Key::Char('k'), 20, 0), KeyAction::Continue);
    assert_eq!(app.view_mode, ViewMode::ConfirmKill);
    let action = app.handle_key(Key::Char('y'), 20, 0);
    assert_eq!(
        action,
        KeyAction::Control { request: ControlRequest::Terminate { pid: 12 }, refresh_after: true }
    );
    app.finish_kill(Ok(()));
    assert_eq!(app.error_message.as_ref().unwrap().text(), "Terminated process: victim (PID 12)");
    assert_eq!(app.handle_key(Key::Char('q'), 20, 0), KeyAction::Exit);
}

#[test]
fn key_driven_detail_and_affinity() {
    let mut app = App::new();
    app.refresh(0, 0, None, Ok(vec![sample(12, "job")]));
    assert_eq!(app.handle_key(Key::Enter, 20, 0), KeyAction::ReloadDetails);
    assert_eq!(app.view_mode, ViewMode::DetailView);
    assert_eq!(app.handle_key(Key::Char('a'), 20, 0), KeyAction::ReadAffinity { pid: 12 });
    assert_eq!(app.handle_key(Key::Esc, 20, 0), KeyAction::Continue);
    assert_eq!(app.view_mode, ViewMode::ProcessList);
    assert_eq!(app.handle_key(Key::Char('?'), 20, 0), KeyAction::Continue);
    assert_eq!(app.view_mode, ViewMode::Help);
    app.handle_key(Key::Char('x'), 20, 0);
    assert_eq!(app.view_mode, ViewMode::ProcessList);
    assert_eq!(app.handle_key(Key::Char('e'), 20, 0), KeyAction::Export);
}

#[test]
fn export_source_prefers_displayed_list() {
    let mut app = App::new();
    app.refresh(0, 0, None, Ok(vec![sample(1, "alpha"), sample(2, "beta")]));
    assert_eq!(app.export_source().len(), 2);
    app.push_filter_char('z');
    assert_eq!(app.filtered_processes.len(), 0);
    assert_eq!(app.export_source().len(), 0);
    app.pop_filter_char();
    app.push_filter_char('b');
    assert_eq!(app.export_source().len(), 1);
    assert_eq!(app.export_source()[0].info.pid, 2);
}

#[test]
fn every_key_clears_the_status_line() {
    let mut app = App::new();
    app.refresh(0, 0, None, Ok(vec![sample(12, "job")]));
    app.handle_key(Key::Char('k'), 20, 0);
    assert!(app.error_message.is_some());
    app.handle_key(Key::Esc, 20, 0);
    assert!(app.error_message.is_none());
    app.handle_key(Key::Char('s'), 20, 0);
    assert_eq!(app.sort_column, taskmgr::sort::SortColumn::Memory);
    assert!(app.error_message.is_none());
}

#[test]
fn folded_sort_names() {
    assert_eq!(
        taskmgr::cli::sort_column_named("prio"),
        Some(taskmgr::sort::SortColumn::Priority)
    );
    assert_eq!(taskmgr::cli::sort_column_named("PRIO"), None);
}
