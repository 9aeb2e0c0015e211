use aw_watcher_screenshot::capture::frame::Frame;
use aw_watcher_screenshot::capture::task::{
    CaptureLoop, LoopAction, LoopEvent, LoopState, StopReason,
};
use aw_watcher_screenshot::capture::{Capture, CaptureTask, DeviceInfo, WindowInfo};
use aw_watcher_screenshot::config::table::{MonitorConfig, MonitorTable};
use aw_watcher_screenshot::config::WindowConfig;
use aw_watcher_screenshot::event::CaptureError;

fn monitor_config(enable: bool, interval: u64) -> MonitorConfig {
    MonitorConfig {
        enable,
        interval,
        enforce_interval: 30_000,
        dhash_resolution: 8,
        dhash_threshold: 10,
    }
}

fn window_config(enable: bool) -> WindowConfig {
    WindowConfig {
        enable,
        interval: 250,
        enforce_interval: 10_000,
        dhash_resolution: 8,
        dhash_threshold: 5,
        enable_ocr: false,
    }
}

fn device(name: &str, width: u32, height: u32) -> Option<DeviceInfo> {
    Some(DeviceInfo { name: name.to_string(), width, height })
}

fn failed() -> LoopEvent {
    LoopEvent::Failed(CaptureError::CaptureFailed)
}

#[test]
fn loop_polls_then_waits() {
    let mut control = CaptureLoop::new(1_000).unwrap();
    assert_eq!(control.state(), LoopState::Polling);
    assert_eq!(control.interval(), 1_000);
    assert_eq!(control.step(LoopEvent::Captured), Some(LoopAction::Wait(1_000)));
    assert_eq!(control.state(), LoopState::Waiting);
    assert_eq!(control.step(LoopEvent::WaitElapsed), Some(LoopAction::Poll));
    assert_eq!(control.step(LoopEvent::NotCapturable), Some(LoopAction::Wait(1_000)));
    assert_eq!(control.step(LoopEvent::WaitElapsed), Some(LoopAction::Poll));
    assert!(!control.is_terminated());
}

#[test]
fn loop_needs_a_positive_interval() {
    assert!(CaptureLoop::new(0).is_none());
    assert!(CaptureLoop::new(1).is_some());
}

#[test]
fn failure_backs_off_three_intervals() {
    let mut control = CaptureLoop::new(1_000).unwrap();
    assert_eq!(control.step(failed()), Some(LoopAction::Wait(3_000)));
    assert_eq!(control.consecutive_errors(), 1);
    let mut control = CaptureLoop::new(u64::MAX / 3).unwrap();
    assert_eq!(control.step(failed()), Some(LoopAction::Wait(u64::MAX)));
    let mut control = CaptureLoop::new(u64::MAX / 3 + 1).unwrap();
    assert_eq!(control.step(failed()), Some(LoopAction::Wait(u64::MAX)));
    let mut control = CaptureLoop::new(u64::MAX).unwrap();
    assert_eq!(control.step(failed()), Some(LoopAction::Wait(u64::MAX)));
}

#[test]
fn ten_failures_in_a_row_abandon_the_source() {
    let mut control = CaptureLoop::new(100).unwrap();
    for n in 1..10u32 {
        assert_eq!(control.step(failed()), Some(LoopAction::Wait(300)));
        assert_eq!(control.consecutive_errors(), n);
        assert_eq!(control.step(LoopEvent::WaitElapsed), Some(LoopAction::Poll));
    }
    assert_eq!(control.step(failed()), Some(LoopAction::Stop));
    assert_eq!(control.state(), LoopState::Terminated(StopReason::Abandoned));
    assert!(control.is_terminated());
    assert_eq!(control.step(LoopEvent::WaitElapsed), None);
    assert_eq!(control.step(LoopEvent::Captured), None);
    assert_eq!(control.state(), LoopState::Terminated(StopReason::Abandoned));
}

#[test]
fn success_resets_the_failure_count() {
    let mut control = CaptureLoop::new(100).unwrap();
    for _ in 0..9 {
        control.step(failed());
        control.step(LoopEvent::WaitElapsed);
    }
    assert_eq!(control.consecutive_errors(), 9);
    assert_eq!(control.step(LoopEvent::Captured), Some(LoopAction::Wait(100)));
    assert_eq!(control.consecutive_errors(), 0);
    control.step(LoopEvent::WaitElapsed);
    for _ in 0..9 {
        assert_eq!(control.step(failed()), Some(LoopAction::Wait(300)));
        control.step(LoopEvent::WaitElapsed);
    }
    assert_eq!(control.step(failed()), Some(LoopAction::Stop));
}

#[test]
fn no_focused_window_is_not_counted() {
    let mut control = CaptureLoop::new(100).unwrap();
    for _ in 0..25 {
        assert_eq!(
            control.step(LoopEvent::Failed(CaptureError::NoFocusedSource)),
            Some(LoopAction::Wait(100))
        );
        assert_eq!(control.consecutive_errors(), 0);
        control.step(LoopEvent::WaitElapsed);
    }
    // Nor does it clear the count.
    for _ in 0..9 {
        control.step(failed());
        control.step(LoopEvent::WaitElapsed);
        control.step(LoopEvent::Failed(CaptureError::NoFocusedSource));
        control.step(LoopEvent::WaitElapsed);
    }
    assert_eq!(control.consecutive_errors(), 9);
    assert_eq!(control.step(failed()), Some(LoopAction::Stop));
}

#[test]
fn cancellation_ends_the_loop_from_any_state() {
    let mut control = CaptureLoop::new(100).unwrap();
    assert_eq!(control.step(LoopEvent::Cancelled), Some(LoopAction::Stop));
    assert_eq!(control.state(), LoopState::Terminated(StopReason::Cancelled));

    let mut control = CaptureLoop::new(100).unwrap();
    control.step(LoopEvent::Captured);
    assert_eq!(control.step(LoopEvent::Cancelled), Some(LoopAction::Stop));
    assert_eq!(control.state(), LoopState::Terminated(StopReason::Cancelled));

    let mut control = CaptureLoop::new(100).unwrap();
    control.step(failed());
    assert_eq!(control.step(LoopEvent::Cancelled), Some(LoopAction::Stop));
    assert_eq!(control.state(), LoopState::Terminated(StopReason::Cancelled));
    assert_eq!(control.step(LoopEvent::Cancelled), None);
}

#[test]
fn fatal_errors_end_the_loop_at_once() {
    let mut control = CaptureLoop::new(100).unwrap();
    assert_eq!(
        control.step(LoopEvent::Failed(CaptureError::ChannelClosed)),
        Some(LoopAction::Stop)
    );
    assert_eq!(control.state(), LoopState::Terminated(StopReason::ChannelClosed));
    let mut control = CaptureLoop::new(100).unwrap();
    assert_eq!(
        control.step(LoopEvent::Failed(CaptureError::SourceUnavailable)),
        Some(LoopAction::Stop)
    );
    assert_eq!(control.state(), LoopState::Terminated(StopReason::SourceUnavailable));
}

#[test]
fn unexpected_events_are_ignored() {
    let mut control = CaptureLoop::new(100).unwrap();
    assert_eq!(control.step(LoopEvent::WaitElapsed), None);
    assert_eq!(control.state(), LoopState::Polling);
    control.step(LoopEvent::Captured);
    assert_eq!(control.step(LoopEvent::Captured), None);
    assert_eq!(control.step(failed()), None);
    assert_eq!(control.state(), LoopState::Waiting);
    assert_eq!(control.consecutive_errors(), 0);
}

fn table() -> MonitorTable {
    let mut table = MonitorTable::new();
    table.insert("DP-1_1920_1080_0_0".to_string(), monitor_config(true, 1_000));
    table.insert("DP-2_1280_720_1920_0".to_string(), monitor_config(false, 1_000));
    table.insert("HDMI-1_2560_1440_-2560_0".to_string(), monitor_config(true, 2_000));
    table.insert("broken".to_string(), monitor_config(true, 500));
    table
}

#[test]
fn only_enabled_monitors_are_kept() {
    let capture = Capture::new(table(), Some(window_config(false)));
    let kept = capture.monitor_configs();
    assert_eq!(kept.len(), 3);
    assert_eq!(kept.name_at(0), "DP-1_1920_1080_0_0");
    assert_eq!(kept.name_at(1), "HDMI-1_2560_1440_-2560_0");
    assert_eq!(kept.name_at(2), "broken");
    assert_eq!(kept.config_at(1), monitor_config(true, 2_000));
    assert_eq!(capture.window_config(), Some(window_config(false)));
    assert!(!capture.is_running());
    assert_eq!(capture.task_count(), 0);
    assert!(!capture.is_cancelled());
}

#[test]
fn start_skips_sources_that_cannot_be_constructed() {
    let mut capture = Capture::new(table(), Some(window_config(true)));
    let devices = vec![
        device("DP-1", 1920, 1080),
        device("HDMI-1", 1920, 1080),
        device("broken", 1, 1),
    ];
    let report = capture.start_capture(&devices);
    let failed: Vec<(&str, CaptureError)> =
        report.failures.iter().map(|f| (f.source_id.as_str(), f.error)).collect();
    assert_eq!(
        failed,
        vec![
            ("HDMI-1_2560_1440_-2560_0", CaptureError::GeometryMismatch),
            ("broken", CaptureError::InvalidSourceId),
        ]
    );
    let tasks = report.tasks;
    assert_eq!(tasks.len(), 2);
    match &tasks[0] {
        CaptureTask::Monitor(task) => {
            assert_eq!(task.monitor.id(), "DP-1_1920_1080_0_0");
            assert_eq!(task.config, monitor_config(true, 1_000));
            assert_eq!(task.control.interval(), 1_000);
            assert_eq!(task.control.state(), LoopState::Polling);
        }
        other => panic!("unexpected: {:?}", other),
    }
    match &tasks[1] {
        CaptureTask::Window(task) => {
            assert_eq!(task.config, window_config(true));
            assert_eq!(task.control.interval(), 250);
            assert!(task.window.last_window_info().is_none());
        }
        other => panic!("unexpected: {:?}", other),
    }
    assert!(capture.is_running());
    assert_eq!(capture.task_count(), 2);
}

#[test]
fn start_with_missing_probes_and_disabled_window() {
    let mut capture = Capture::new(table(), Some(window_config(false)));
    let report = capture.start_capture(&vec![None, device("HDMI-1", 2560, 1440)]);
    let failed: Vec<(&str, CaptureError)> =
        report.failures.iter().map(|f| (f.source_id.as_str(), f.error)).collect();
    assert_eq!(
        failed,
        vec![
            ("DP-1_1920_1080_0_0", CaptureError::SourceUnavailable),
            ("broken", CaptureError::InvalidSourceId),
        ]
    );
    let tasks = report.tasks;
    assert_eq!(tasks.len(), 1);
    assert!(matches!(&tasks[0], CaptureTask::Monitor(t) if t.monitor.id() == "HDMI-1_2560_1440_-2560_0"));
    assert_eq!(capture.task_count(), 1);

    let mut capture = Capture::new(table(), None);
    let report = capture.start_capture(&Vec::new());
    assert!(report.tasks.is_empty());
    assert_eq!(report.failures.len(), 3);
    assert!(!capture.is_running());
    assert_eq!(capture.task_count(), 0);
}

#[test]
fn zero_interval_source_is_not_started() {
    let mut monitors = MonitorTable::new();
    monitors.insert("DP-1_1920_1080_0_0".to_string(), monitor_config(true, 0));
    let window = WindowConfig { interval: 0, ..window_config(true) };
    let mut capture = Capture::new(monitors, Some(window));
    let report = capture.start_capture(&vec![device("DP-1", 1920, 1080)]);
    assert!(report.tasks.is_empty());
    let failed: Vec<(&str, CaptureError)> =
        report.failures.iter().map(|f| (f.source_id.as_str(), f.error)).collect();
    assert_eq!(
        failed,
        vec![
            ("DP-1_1920_1080_0_0", CaptureError::ZeroInterval),
            ("window", CaptureError::ZeroInterval),
        ]
    );
}

#[test]
fn shutdown_reports_completed_of_total() {
    let mut capture = Capture::new(table(), Some(window_config(true)));
    let devices = vec![device("DP-1", 1920, 1080), device("HDMI-1", 2560, 1440), None];
    assert_eq!(capture.start_capture(&devices).tasks.len(), 3);
    assert_eq!(capture.shutdown(&vec![true, true, true]), (3, 3));
    assert!(capture.is_cancelled());
    assert!(!capture.is_running());
    assert_eq!(capture.task_count(), 0);
    // Nothing is left to shut down.
    assert_eq!(capture.shutdown(&vec![true]), (0, 0));

    let mut capture = Capture::new(table(), Some(window_config(true)));
    capture.start_capture(&devices);
    assert_eq!(capture.shutdown(&vec![true, false, true]), (2, 3));

    let mut capture = Capture::new(table(), Some(window_config(true)));
    capture.start_capture(&devices);
    assert_eq!(capture.shutdown(&vec![true]), (1, 3));

    let mut capture = Capture::new(table(), None);
    assert_eq!(capture.shutdown(&Vec::new()), (0, 0));
    assert!(capture.is_cancelled());
}

#[test]
fn release_signals_cancellation_only_while_running() {
    let mut capture = Capture::new(table(), None);
    assert!(!capture.release());
    assert!(!capture.is_cancelled());
    capture.start_capture(&vec![device("DP-1", 1920, 1080)]);
    assert!(capture.release());
    assert!(capture.is_cancelled());
}

#[test]
fn tasks_capture_with_their_own_settings() {
    let mut capture = Capture::new(table(), Some(window_config(true)));
    let mut tasks = capture.start_capture(&vec![device("DP-1", 1920, 1080)]).tasks;
    let frame = || Frame::new(2, 2, vec![9; 16]).unwrap();
    let Some(CaptureTask::Window(mut window_task)) = tasks.pop() else {
        panic!("window task expected");
    };
    let Some(CaptureTask::Monitor(mut monitor_task)) = tasks.pop() else {
        panic!("monitor task expected");
    };
    assert!(monitor_task.capture_once(0, frame()).event.is_some());
    assert!(monitor_task.capture_once(29_999, frame()).event.is_none());
    assert!(monitor_task.capture_once(30_000, frame()).event.is_some());
    let info = WindowInfo { id: 3, title: "t".to_string(), app_name: "a".to_string() };
    assert!(window_task.capture_once(0, info.clone(), frame()).event.is_some());
    assert!(window_task.capture_once(9_999, info.clone(), frame()).event.is_none());
    let event = window_task.capture_once(10_000, info, frame()).event.unwrap();
    assert_eq!(event.monitor_id, "window_a_3");
}
