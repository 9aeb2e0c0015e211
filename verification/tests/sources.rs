use aw_watcher_screenshot::capture::dedup::{Decision, DedupState};
use aw_watcher_screenshot::capture::frame::Frame;
use aw_watcher_screenshot::capture::utils::dHash;
use aw_watcher_screenshot::capture::{DeviceInfo, SafeMonitor, SafeWindow, WindowInfo};
use aw_watcher_screenshot::event::CaptureError;
use aw_watcher_screenshot::text::{chars_of, decimal_string, read_decimal};

fn device(name: &str, width: u32, height: u32) -> DeviceInfo {
    DeviceInfo { name: name.to_string(), width, height }
}

fn gray_frame(level: u8) -> Frame {
    Frame::new(16, 16, [level, level, level, 255].repeat(256)).unwrap()
}

/// Left half dark, right half bright: every row rises once in the middle.
fn step_frame() -> Frame {
    let mut pixels = Vec::new();
    for _y in 0..18u32 {
        for x in 0..18u32 {
            let v = if x < 9 { 0 } else { 255 };
            pixels.extend_from_slice(&[v, v, v, 255]);
        }
    }
    Frame::new(18, 18, pixels).unwrap()
}

fn window(id: u32, app: &str) -> WindowInfo {
    WindowInfo { id, title: format!("{} title", app), app_name: app.to_string() }
}

#[test]
fn test_parse_id() {
    let (name, width, height, x, y) = SafeMonitor::parse_id("monitor_1920_1080_0_0").unwrap();
    assert_eq!(name, "monitor");
    assert_eq!(width, 1920);
    assert_eq!(height, 1080);
    assert_eq!(x, 0);
    assert_eq!(y, 0);
}

#[test]
fn test_safe_window_creation() {
    let window = SafeWindow::new();
    assert!(window.last_capture_time().is_none());
    assert!(window.last_capture_dhash().is_none());
    assert!(window.last_window_info().is_none());
}

#[test]
fn test_window_info_format() {
    let info = WindowInfo {
        id: 12345,
        title: "Test Window".to_string(),
        app_name: "TestApp".to_string(),
    };

    let capture_id = info.capture_id();
    assert_eq!(capture_id, "window_TestApp_12345");
}

#[test]
fn parse_id_with_negative_position_and_underscores_in_name() {
    let parsed = SafeMonitor::parse_id("HDMI_A_1_2560_1440_-1920_-30").unwrap();
    assert_eq!(parsed, ("HDMI_A_1".to_string(), 2560, 1440, -1920, -30));
    let parsed = SafeMonitor::parse_id("DP-1_1920_1080_0_0").unwrap();
    assert_eq!(parsed, ("DP-1".to_string(), 1920, 1080, 0, 0));
    let parsed = SafeMonitor::parse_id("écran_007_4294967295_2147483647_-2147483648").unwrap();
    assert_eq!(parsed, ("écran".to_string(), 7, u32::MAX, i32::MAX, i32::MIN));
}

#[test]
fn parse_id_rejects_malformed_ids() {
    for id in [
        "",
        "monitor",
        "1920_1080_0_0",
        "_1920_1080_0_0",
        "monitor_1920_1080_0",
        "monitor_1920_1080_0_",
        "monitor__1080_0_0",
        "monitor_-1920_1080_0_0",
        "monitor_1920_1080_0_0x",
        "monitor_1920_1080_+1_0",
        "monitor_1920_1080_-_0",
        "monitor_1920_1080_0_--1",
        "monitor_4294967296_1080_0_0",
        "monitor_1920_1080_2147483648_0",
        "monitor_1920_1080_0_-2147483649",
        "monitor_1920_10 80_0_0",
    ] {
        assert_eq!(SafeMonitor::parse_id(id), Err(CaptureError::InvalidSourceId), "{:?}", id);
    }
}

#[test]
fn parse_id_agrees_with_the_pattern_on_well_formed_ids() {
    let pattern =
        regex::Regex::new(r"^(?P<name>.+)_(?P<w>\d+)_(?P<h>\d+)_(?P<x>-?\d+)_(?P<y>-?\d+)$")
            .unwrap();
    for id in ["DP-1_1920_1080_0_0", "a_b_c_1_2_-3_4", "eDP-1_3840_2160_-3840_0", "x_1_2_3_4_5"] {
        let cap = pattern.captures(id).unwrap();
        let expected = (
            cap["name"].to_string(),
            cap["w"].parse::<u32>().unwrap(),
            cap["h"].parse::<u32>().unwrap(),
            cap["x"].parse::<i32>().unwrap(),
            cap["y"].parse::<i32>().unwrap(),
        );
        assert_eq!(SafeMonitor::parse_id(id).unwrap(), expected);
    }
}

#[test]
fn monitor_construction_checks_the_live_device() {
    let monitor =
        SafeMonitor::new("DP-1_1920_1080_0_0".to_string(), &device("DP-1", 1920, 1080)).unwrap();
    assert_eq!(monitor.id(), "DP-1_1920_1080_0_0");

    let mismatch = SafeMonitor::new("DP-1_1920_1080_0_0".to_string(), &device("DP-1", 1280, 720));
    assert_eq!(mismatch.err(), Some(CaptureError::GeometryMismatch));
    let mismatch = SafeMonitor::new("DP-1_1920_1080_0_0".to_string(), &device("DP-2", 1920, 1080));
    assert_eq!(mismatch.err(), Some(CaptureError::GeometryMismatch));
    let mismatch = SafeMonitor::new("DP-1_1920_1080_0_0".to_string(), &device("DP-1", 1920, 1081));
    assert_eq!(mismatch.err(), Some(CaptureError::GeometryMismatch));
    let invalid = SafeMonitor::new("DP-1".to_string(), &device("DP-1", 1920, 1080));
    assert_eq!(invalid.err(), Some(CaptureError::InvalidSourceId));
}

fn monitor() -> SafeMonitor {
    SafeMonitor::new("DP-1_1920_1080_0_0".to_string(), &device("DP-1", 1920, 1080)).unwrap()
}

#[test]
fn first_capture_is_emitted() {
    let mut monitor = monitor();
    let outcome = monitor.capture_once(1_000, gray_frame(10), 30_000, 10, 8);
    let event = outcome.event.unwrap();
    assert_eq!(event.monitor_id, "DP-1_1920_1080_0_0");
    assert_eq!(event.timestamp, 1_000);
    assert_eq!(event.image.width(), 16);
    assert_eq!(event.image.pixels(), gray_frame(10).pixels());
    assert_eq!(outcome.anomaly, None);
}

#[test]
fn identical_capture_within_interval_is_suppressed() {
    let mut monitor = monitor();
    assert!(monitor.capture_once(1_000, step_frame(), 30_000, 10, 8).event.is_some());
    let second = monitor.capture_once(1_500, step_frame(), 30_000, 10, 8);
    assert!(second.event.is_none());
    assert_eq!(second.anomaly, None);
    // The state is as after the first capture: the interval still counts
    // from 1000.
    assert!(monitor.capture_once(30_999, step_frame(), 30_000, 10, 8).event.is_none());
    assert!(monitor.capture_once(31_000, step_frame(), 30_000, 10, 8).event.is_some());
}

#[test]
fn identical_capture_after_interval_is_emitted() {
    let mut monitor = monitor();
    assert!(monitor.capture_once(1_000, step_frame(), 30_000, 10, 8).event.is_some());
    assert!(monitor.capture_once(31_000, step_frame(), 30_000, 10, 8).event.is_some());
    assert!(monitor.capture_once(31_001, step_frame(), 30_000, 10, 8).event.is_none());
}

#[test]
fn changed_capture_is_emitted_at_once() {
    let mut monitor = monitor();
    assert_eq!(dHash(&gray_frame(10), 8), 0);
    assert!(dHash(&step_frame(), 8).count_ones() >= 8);
    assert!(monitor.capture_once(1_000, gray_frame(10), 30_000, 8, 8).event.is_some());
    assert!(monitor.capture_once(1_000, step_frame(), 30_000, 8, 8).event.is_some());
    assert!(monitor.capture_once(1_001, step_frame(), 30_000, 8, 8).event.is_none());
}

#[test]
fn threshold_is_compared_with_the_distance() {
    let distance = dHash(&step_frame(), 8).count_ones();
    let mut monitor = monitor();
    assert!(monitor.capture_once(0, gray_frame(10), 1_000, distance + 1, 8).event.is_some());
    assert!(monitor.capture_once(1, step_frame(), 1_000, distance + 1, 8).event.is_none());
    assert!(monitor.capture_once(2, step_frame(), 1_000, distance, 8).event.is_some());
}

#[test]
fn threshold_zero_emits_everything() {
    let mut monitor = monitor();
    assert!(monitor.capture_once(0, gray_frame(1), 1_000, 0, 8).event.is_some());
    assert!(monitor.capture_once(0, gray_frame(1), 1_000, 0, 8).event.is_some());
}

#[test]
fn clock_regression_is_accepted_and_reported() {
    let mut monitor = monitor();
    assert!(monitor.capture_once(50_000, step_frame(), 30_000, 10, 8).event.is_some());
    let outcome = monitor.capture_once(49_999, step_frame(), 30_000, 10, 8);
    assert!(outcome.event.is_some());
    assert_eq!(outcome.anomaly, Some(CaptureError::ClockRegression));
    // The state was reset to the earlier time.
    assert!(monitor.capture_once(50_000, step_frame(), 30_000, 10, 8).event.is_none());
    assert!(monitor.capture_once(79_999, step_frame(), 30_000, 10, 8).event.is_some());
}

#[test]
fn extreme_times_do_not_overflow() {
    let mut monitor = monitor();
    assert!(monitor.capture_once(i64::MIN, step_frame(), u64::MAX, 10, 8).event.is_some());
    // One millisecond short of the whole range of the clock.
    assert!(monitor.capture_once(i64::MAX - 1, step_frame(), u64::MAX, 10, 8).event.is_none());
    // The whole range: 2^64 - 1 milliseconds have passed.
    assert!(monitor.capture_once(i64::MAX, step_frame(), u64::MAX, 10, 8).event.is_some());
}

#[test]
fn focus_switch_always_emits() {
    let mut source = SafeWindow::new();
    let first = source.capture_once(5_000, window(1, "Editor"), step_frame(), 30_000, 10, 8, false);
    assert_eq!(first.event.unwrap().monitor_id, "window_Editor_1");
    assert_eq!(
        source.last_window_info(),
        Some(("Editor".to_string(), "Editor title".to_string()))
    );
    // Same window, same millisecond, same frame: suppressed.
    let again = source.capture_once(5_000, window(1, "Editor"), step_frame(), 30_000, 10, 8, false);
    assert!(again.event.is_none());
    // Another window, same millisecond, same frame: emitted.
    let other = source.capture_once(5_000, window(2, "Browser"), step_frame(), 30_000, 10, 8, true);
    let event = other.event.unwrap();
    assert_eq!(event.monitor_id, "window_Browser_2");
    assert_eq!(event.timestamp, 5_000);
    assert_eq!(
        source.last_window_info(),
        Some(("Browser".to_string(), "Browser title".to_string()))
    );
    assert_eq!(source.last_capture_time(), Some(5_000));
    assert_eq!(source.last_capture_dhash(), Some(dHash(&step_frame(), 8)));
    // And back.
    let back = source.capture_once(5_000, window(1, "Editor"), step_frame(), 30_000, 10, 8, false);
    assert!(back.event.is_some());
}

#[test]
fn suppressed_window_capture_keeps_the_last_window() {
    let mut source = SafeWindow::new();
    let mut info = window(7, "App");
    assert!(source.capture_once(0, info.clone(), step_frame(), 1_000, 10, 8, false).event.is_some());
    info.title = "renamed".to_string();
    assert!(source.capture_once(1, info, step_frame(), 1_000, 10, 8, false).event.is_none());
    assert_eq!(source.last_window_info(), Some(("App".to_string(), "App title".to_string())));
}

#[test]
fn dedup_state_decisions() {
    let mut state = DedupState::new();
    assert_eq!(state.observe(10, 0b1111, None, 100, 2), Decision::Accept);
    assert_eq!(state.observe(20, 0b1110, None, 100, 2), Decision::Suppress);
    assert_eq!(state.last_capture_time, Some(10));
    assert_eq!(state.last_capture_dhash, Some(0b1111));
    assert_eq!(state.observe(20, 0b1100, None, 100, 2), Decision::Accept);
    assert_eq!(state.observe(19, 0b1100, None, 100, 2), Decision::AcceptClockRegression);
    assert_eq!(state.observe(119, 0b1100, None, 100, 2), Decision::Accept);
    assert_eq!(state.observe(119, 0b1100, Some("w".to_string()), 100, 2), Decision::Accept);
    assert_eq!(state.observe(120, 0b1100, Some("w".to_string()), 100, 2), Decision::Suppress);
    assert_eq!(state.last_window_identity, Some("w".to_string()));
}

#[test]
fn decimal_text() {
    assert_eq!(decimal_string(0), "0");
    assert_eq!(decimal_string(7), "7");
    assert_eq!(decimal_string(10), "10");
    assert_eq!(decimal_string(12345), "12345");
    assert_eq!(decimal_string(u64::MAX), "18446744073709551615");
    let chars = chars_of("ab0042x");
    assert_eq!(chars, vec!['a', 'b', '0', '0', '4', '2', 'x']);
    assert_eq!(read_decimal(&chars, 2, 6, 100), Some(42));
    assert_eq!(read_decimal(&chars, 2, 6, 41), None);
    assert_eq!(read_decimal(&chars, 2, 7, 100), None);
    assert_eq!(read_decimal(&chars, 2, 2, 100), None);
}
