use repo_insight::greet;
use repo_insight::report::{
    format_bytes, format_network_speed, format_uptime, get_detailed_os_string, get_os_info_sync,
    get_network_info_sync, get_system_info_basic, summarize_network, NetworkInterface,
};

#[test]
fn test_greet() {
    let result = greet("Flutter".to_string());
    assert!(result.contains("Flutter"));
    assert!(result.contains("Rust"));
}

#[test]
fn test_format_bytes() {
    assert_eq!(format_bytes(1024), "1.00 KB");
    assert_eq!(format_bytes(1024 * 1024), "1.00 MB");
    assert_eq!(format_bytes(1024 * 1024 * 1024), "1.00 GB");
}

#[test]
fn test_format_bytes_edges() {
    assert_eq!(format_bytes(0), "0 B");
    assert_eq!(format_bytes(512), "512 B");
    assert_eq!(format_bytes(1075), "1.05 KB");
    assert_eq!(format_bytes(1536), "1.50 KB");
    assert_eq!(format_bytes(1024u64 * 1024 * 1024 * 1024), "1.00 TB");
}

#[test]
fn test_format_bytes_rounds_ties_to_even() {
    // 1152 bytes is exactly 1.125 KB: the tie rounds down to the even 1.12
    assert_eq!(format_bytes(1152), "1.12 KB");
    // 1408 bytes is exactly 1.375 KB: the tie rounds up to the even 1.38
    assert_eq!(format_bytes(1408), "1.38 KB");
}

#[test]
fn test_format_network_speed() {
    assert_eq!(format_network_speed(1024), "1.00 KB/s");
    assert_eq!(format_network_speed(1024 * 1024), "1.00 MB/s");
}

#[test]
fn test_format_network_speed_small() {
    assert_eq!(format_network_speed(0), "0 B/s");
    assert_eq!(format_network_speed(999), "999 B/s");
}

#[test]
fn test_format_uptime() {
    assert_eq!(format_uptime(65), "1分钟 5秒");
    assert_eq!(format_uptime(3665), "1小时 1分钟");
    assert_eq!(format_uptime(86465), "1天 0小时 1分钟");
}

#[test]
fn test_format_uptime_seconds_only() {
    assert_eq!(format_uptime(0), "0秒");
    assert_eq!(format_uptime(59), "59秒");
}

#[test]
fn test_get_detailed_os_string() {
    let info_str = get_detailed_os_string();
    assert!(!info_str.is_empty());
}

#[test]
fn test_os_info_never_fails() {
    let info = get_os_info_sync().unwrap();
    assert!(!info.os_type.is_empty());
}

#[test]
fn test_system_info() {
    let info = get_system_info_basic();
    assert!(!info.os.is_empty());
    assert!(info.cpu_count > 0);
}

#[test]
fn test_summarize_network() {
    let interfaces = vec![
        NetworkInterface {
            name: "eth0".to_string(),
            received_bytes: 1000,
            transmitted_bytes: 400,
            received_rate: 10,
            transmitted_rate: 4,
        },
        NetworkInterface {
            name: "lo".to_string(),
            received_bytes: 0,
            transmitted_bytes: 0,
            received_rate: 0,
            transmitted_rate: 0,
        },
        NetworkInterface {
            name: "wlan0".to_string(),
            received_bytes: 0,
            transmitted_bytes: 7,
            received_rate: 0,
            transmitted_rate: 1,
        },
    ];

    let info = summarize_network(interfaces);
    assert_eq!(info.total_received, 1000);
    assert_eq!(info.total_transmitted, 407);
    assert_eq!(info.active_interfaces, 2);
    assert_eq!(info.interfaces.len(), 3);
}

#[test]
fn test_network_info_sync() {
    let info = get_network_info_sync().unwrap();
    let recv: u64 = info.interfaces.iter().map(|i| i.received_bytes).sum();
    assert_eq!(info.total_received, recv);
}
