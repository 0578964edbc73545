use taskmgr::affinity::CpuAffinity;
use taskmgr::clock::{calculate_uptime_seconds, filetime_from_unix, get_current_filetime};
use taskmgr::memory::{ProcessDiskInfo, ProcessMemoryInfo, SystemMemoryInfo};
use taskmgr::text::{
    elevation_indicator, elevation_status_string, format_bytes, format_ipv4, format_rate,
    format_uptime, path_to_filename, truncate_string,
};

#[test]
fn test_elevation_status_string() {
    let status = elevation_status_string(false);
    assert!(status == "Administrator" || status == "Standard User");
    assert_eq!(elevation_status_string(true), "Administrator");
    assert_eq!(elevation_status_string(false), "Standard User");
}

#[test]
fn elevation_indicator_tags() {
    assert_eq!(elevation_indicator(true), "[Admin]");
    assert_eq!(elevation_indicator(false), "[User]");
}

#[test]
fn test_format_ipv4() {
    assert_eq!(format_ipv4(0x0100007F), "127.0.0.1");
    assert_eq!(format_ipv4(0), "0.0.0.0");
}

#[test]
fn test_format_bytes() {
    assert_eq!(format_bytes(500), "500 B");
    assert_eq!(format_bytes(1536), "1.5 KB");
    assert_eq!(format_bytes(1572864), "1.5 MB");
    assert_eq!(format_bytes(1610612736), "1.5 GB");
}

#[test]
fn format_bytes_edges() {
    assert_eq!(format_bytes(0), "0 B");
    assert_eq!(format_bytes(1023), "1023 B");
    assert_eq!(format_bytes(1024), "1.0 KB");
    assert_eq!(format_bytes(1048575), "1024.0 KB");
    assert_eq!(format_bytes(u64::MAX), "17179869184.0 GB");
}

#[test]
fn test_format_uptime() {
    assert_eq!(format_uptime(30), "30s");
    assert_eq!(format_uptime(90), "1m 30s");
    assert_eq!(format_uptime(3660), "1h 1m");
    assert_eq!(format_uptime(90000), "1d 1h");
}

#[test]
fn format_uptime_round_units() {
    assert_eq!(format_uptime(0), "0s");
    assert_eq!(format_uptime(120), "2m");
    assert_eq!(format_uptime(7200), "2h");
    assert_eq!(format_uptime(172800), "2d");
}

#[test]
fn test_current_filetime() {
    let ft = get_current_filetime();
    assert!(ft > 0, "Should get valid filetime");
}

#[test]
fn filetime_conversion() {
    assert_eq!(filetime_from_unix(0, 0), 116444736000000000);
    assert_eq!(filetime_from_unix(1, 250), 116444736010000002);
    assert_eq!(filetime_from_unix(u64::MAX, 0), u64::MAX);
}

#[test]
fn uptime_of_a_future_start_is_zero() {
    assert_eq!(calculate_uptime_seconds(u64::MAX), 0);
    let now = get_current_filetime();
    let up = calculate_uptime_seconds(now - 50_000_000);
    assert!(up >= 5);
}

#[test]
fn rates_and_truncation() {
    assert_eq!(format_rate(0), "0 B/s");
    assert_eq!(format_rate(512), "512 B/s");
    assert_eq!(format_rate(1536), "1.5 KB/s");
    assert_eq!(truncate_string("explorer.exe", 20), "explorer.exe");
    assert_eq!(truncate_string("explorer.exe", 8), "explo...");
    assert_eq!(truncate_string("explorer.exe", 2), "ex");
}

#[test]
fn file_names_of_paths() {
    assert_eq!(path_to_filename("C:\\Windows\\explorer.exe"), "explorer.exe");
    assert_eq!(path_to_filename("notepad.exe"), "notepad.exe");
    assert_eq!(path_to_filename("C:\\dir\\"), "");
}

#[test]
fn memory_descriptions() {
    let m = SystemMemoryInfo {
        memory_load_percent: 47,
        total_physical: 17179869184,
        available_physical: 9126805504,
        total_page_file: 0,
        available_page_file: 0,
        total_virtual: 0,
        available_virtual: 0,
    };
    assert_eq!(m.used_physical(), 8053063680);
    assert_eq!(m.format_usage(), "7.5 GB / 16.0 GB (47%)");
    let p = ProcessMemoryInfo { working_set: 1536, peak_working_set: 0, private_bytes: 0 };
    assert_eq!(p.format_working_set(), "1.5 KB");
    let d = ProcessDiskInfo { read_bytes: 10, write_bytes: 32, read_ops: 1, write_ops: 2 };
    assert_eq!(d.total_io(), 42);
}

#[test]
fn affinity_descriptions() {
    let all = CpuAffinity::from_masks(0b1111, 0b1111, 4);
    assert_eq!(all.core_list, vec![0, 1, 2, 3]);
    assert_eq!(all.format(), "4/4 cores (All cores)");
    let some = CpuAffinity::from_masks(0b1011, 0xff, 8);
    assert_eq!(some.allowed_cores, 3);
    assert_eq!(some.format(), "3/8 cores (Cores: 0, 1, 3)");
    let none = CpuAffinity::from_masks(0, 0xff, 8);
    assert_eq!(none.format(), "Unknown");
}

fn le(v: u32) -> [u8; 4] {
    v.to_le_bytes()
}

#[test]
fn tcp_table_rows_of_one_process() {
    let mut b: Vec<u8> = Vec::new();
    b.extend_from_slice(&le(2));
    // row 0: ESTABLISHED 127.0.0.1:8080 -> 10.0.0.2:443, pid 77
    b.extend_from_slice(&le(5));
    b.extend_from_slice(&le(0x0100007F));
    b.extend_from_slice(&[0x1F, 0x90, 0, 0]);
    b.extend_from_slice(&le(0x0200000A));
    b.extend_from_slice(&[0x01, 0xBB, 0, 0]);
    b.extend_from_slice(&le(77));
    // row 1: LISTEN, pid 5
    b.extend_from_slice(&le(2));
    b.extend_from_slice(&le(0));
    b.extend_from_slice(&[0, 80, 0, 0]);
    b.extend_from_slice(&le(0));
    b.extend_from_slice(&[0, 0, 0, 0]);
    b.extend_from_slice(&le(5));
    let rows = taskmgr::netstat::parse_tcp_table(&b, 77);
    assert_eq!(rows.len(), 1);
    assert_eq!(rows[0].local_addr, "127.0.0.1");
    assert_eq!(rows[0].local_port, 8080);
    assert_eq!(rows[0].remote_addr, "10.0.0.2");
    assert_eq!(rows[0].remote_port, 443);
    assert_eq!(rows[0].state, "ESTABLISHED");
    let other = taskmgr::netstat::parse_tcp_table(&b, 5);
    assert_eq!(other[0].state, "LISTEN");
    assert_eq!(other[0].local_port, 80);
    // a count larger than the buffer holds is cut to what is there
    let mut short = b.clone();
    short[0] = 9;
    assert_eq!(taskmgr::netstat::parse_tcp_table(&short, 5).len(), 1);
    assert_eq!(taskmgr::netstat::parse_tcp_table(&[1, 0], 5).len(), 0);
}

#[test]
fn udp_table_rows_of_one_process() {
    let mut b: Vec<u8> = Vec::new();
    b.extend_from_slice(&le(1));
    b.extend_from_slice(&le(0));
    b.extend_from_slice(&[0x00, 0x35, 0, 0]);
    b.extend_from_slice(&le(900));
    let rows = taskmgr::netstat::parse_udp_table(&b, 900);
    assert_eq!(rows.len(), 1);
    assert_eq!(rows[0].local_addr, "0.0.0.0");
    assert_eq!(rows[0].local_port, 53);
    assert_eq!(taskmgr::netstat::tcp_state_name(42), "UNKNOWN");
}
