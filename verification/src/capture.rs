//! Sources, fingerprints and the capture loop.
pub mod capture;
pub mod dedup;
pub mod frame;
pub mod monitor;
pub mod task;
pub mod utils;
pub mod window;

pub use capture::{Capture, CaptureTask, MonitorTask, StartFailure, StartReport, WindowTask};
pub use monitor::{DeviceInfo, SafeMonitor};
pub use window::{SafeWindow, WindowInfo};
