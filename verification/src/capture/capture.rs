//! The orchestrator: which sources take part, which loops are started, and
//! how many of them ended cleanly.
use crate::capture::dedup::{decide, empty_state, state_after};
use crate::capture::frame::Frame;
use crate::capture::monitor::{
    matches_device, parsed_id, DeviceInfo, SafeMonitor, SafeMonitorView,
};
use crate::capture::task::{CaptureLoop, LoopModel, LoopState};
use crate::capture::utils::fingerprint;
use crate::capture::window::{window_source_id, SafeWindow, SafeWindowView, WindowInfo};
use crate::config::table::{
    distinct_names, lemma_position_from, position_of, MonitorConfig, MonitorTable,
};
use crate::config::WindowConfig;
use crate::event::{capture_outcome, CaptureError, CaptureOutcome, CaptureResultView};
use vstd::prelude::*;
use vstd::string::*;

verus! {

/// A display, its settings and its loop, owned by one task.
#[derive(Debug)]
pub struct MonitorTask {
    pub monitor: SafeMonitor,
    pub config: MonitorConfig,
    pub control: CaptureLoop,
}

/// The focused window, its settings and its loop, owned by one task.
#[derive(Debug)]
pub struct WindowTask {
    pub window: SafeWindow,
    pub config: WindowConfig,
    pub control: CaptureLoop,
}

/// What one task owns.
#[derive(Debug)]
pub enum CaptureTask {
    Monitor(MonitorTask),
    Window(WindowTask),
}

/// A source whose loop was not started, and why.
#[derive(Debug)]
pub struct StartFailure {
    pub source_id: String,
    pub error: CaptureError,
}

/// Mathematical content of a [`StartFailure`].
pub struct StartFailureView {
    pub source_id: Seq<char>,
    pub error: CaptureError,
}

impl View for StartFailure {
    type V = StartFailureView;

    open spec fn view(&self) -> StartFailureView {
        StartFailureView { source_id: self.source_id@, error: self.error }
    }
}

/// What `start_capture` hands back: the tasks to run and the sources that
/// could not be started.
#[derive(Debug)]
pub struct StartReport {
    pub tasks: Vec<CaptureTask>,
    pub failures: Vec<StartFailure>,
}

/// A task that is to be started.
pub enum TaskPlan {
    Monitor { id: Seq<char>, config: MonitorConfig },
    Window { window_config: WindowConfig },
}

/// What the capture facility reports of a display, in spec terms.
pub struct DeviceView {
    pub name: Seq<char>,
    pub width: u32,
    pub height: u32,
}

/// The view of the probe of one display: the live device found at the
/// position that its id names, or `None` if none was found.
pub open spec fn probe_view(probe: Option<DeviceInfo>) -> Option<DeviceView> {
    match probe {
        Some(d) => Some(DeviceView { name: d.name@, width: d.width, height: d.height }),
        None => None,
    }
}

/// A loop that is about to poll for the first time.
pub open spec fn fresh_loop(interval: u64) -> LoopModel {
    LoopModel { interval, consecutive_errors: 0, state: LoopState::Polling }
}

impl CaptureTask {
    /// Whether the task is the one that `plan` asks for, with nothing
    /// captured yet and its loop about to poll for the first time.
    pub open spec fn fresh_for(self, plan: TaskPlan) -> bool {
        match (self, plan) {
            (CaptureTask::Monitor(t), TaskPlan::Monitor { id, config }) => {
                &&& t.monitor@ == (SafeMonitorView { id, state: empty_state() })
                &&& t.config == config
                &&& t.control@ == fresh_loop(config.interval)
            },
            (CaptureTask::Window(t), TaskPlan::Window { window_config }) => {
                &&& t.window@ == (SafeWindowView { state: empty_state(), last_window_info: None })
                &&& t.config == window_config
                &&& t.control@ == fresh_loop(window_config.interval)
            },
            _ => false,
        }
    }
}

impl MonitorTask {
    /// Takes a frame captured from the display at `now` and decides, by the
    /// settings of the task, whether to forward it.
    pub fn capture_once(&mut self, now: i64, image: Frame) -> (outcome: CaptureOutcome)
        ensures
            final(self).config == old(self).config,
            final(self).control == old(self).control,
            final(self).monitor@.id == old(self).monitor@.id,
            final(self).monitor@.state == state_after(
                old(self).monitor@.state,
                now,
                fingerprint(image@, old(self).config.dhash_resolution),
                None,
                old(self).config.enforce_interval,
                old(self).config.dhash_threshold,
            ),
            capture_outcome(
                outcome,
                decide(
                    old(self).monitor@.state,
                    now,
                    fingerprint(image@, old(self).config.dhash_resolution),
                    None,
                    old(self).config.enforce_interval,
                    old(self).config.dhash_threshold,
                ),
                CaptureResultView {
                    monitor_id: old(self).monitor@.id,
                    image: image@,
                    timestamp: now,
                },
            ),
    {
        self.monitor.capture_once(
            now,
            image,
            self.config.enforce_interval,
            self.config.dhash_threshold,
            self.config.dhash_resolution,
        )
    }
}

impl WindowTask {
    /// Takes a frame captured at `now` from the focused window `window` and
    /// decides, by the settings of the task, whether to forward it.
    pub fn capture_once(&mut self, now: i64, window: WindowInfo, image: Frame) -> (outcome:
        CaptureOutcome)
        ensures
            final(self).config == old(self).config,
            final(self).control == old(self).control,
            final(self).window@.state == state_after(
                old(self).window@.state,
                now,
                fingerprint(image@, old(self).config.dhash_resolution),
                Some(window_source_id(window.app_name@, window.id)),
                old(self).config.enforce_interval,
                old(self).config.dhash_threshold,
            ),
            capture_outcome(
                outcome,
                decide(
                    old(self).window@.state,
                    now,
                    fingerprint(image@, old(self).config.dhash_resolution),
                    Some(window_source_id(window.app_name@, window.id)),
                    old(self).config.enforce_interval,
                    old(self).config.dhash_threshold,
                ),
                CaptureResultView {
                    monitor_id: window_source_id(window.app_name@, window.id),
                    image: image@,
                    timestamp: now,
                },
            ),
    {
        self.window.capture_once(
            now,
            window,
            image,
            self.config.enforce_interval,
            self.config.dhash_threshold,
            self.config.dhash_resolution,
            self.config.enable_ocr,
        )
    }
}

/// The enabled entries among the first `n` of `monitors`, in their order.
pub open spec fn enabled_monitors(monitors: Seq<(Seq<char>, MonitorConfig)>, n: nat) -> Seq<
    (Seq<char>, MonitorConfig),
>
    decreases n,
{
    if n == 0 {
        Seq::empty()
    } else {
        let rest = enabled_monitors(monitors, (n - 1) as nat);
        if monitors[n - 1].1.enable {
            rest.push(monitors[n - 1])
        } else {
            rest
        }
    }
}

/// The probe of display `i`; a missing probe counts as no device.
pub open spec fn probe_at(devices: Seq<Option<DeviceView>>, i: int) -> Option<DeviceView> {
    if 0 <= i < devices.len() {
        devices[i]
    } else {
        None
    }
}

/// Why the loop of a display is not started, or `None` if it is: its id
/// must parse, a live device must have been found for it, the device must
/// have the name, width and height that the id says, and its poll interval
/// must be positive.
pub open spec fn monitor_start_error(
    name: Seq<char>,
    config: MonitorConfig,
    device: Option<DeviceView>,
) -> Option<CaptureError> {
    if parsed_id(name) is None {
        Some(CaptureError::InvalidSourceId)
    } else if device is None {
        Some(CaptureError::SourceUnavailable)
    } else if !matches_device(
        parsed_id(name)->0,
        device->0.name,
        device->0.width,
        device->0.height,
    ) {
        Some(CaptureError::GeometryMismatch)
    } else if config.interval == 0 {
        Some(CaptureError::ZeroInterval)
    } else {
        None
    }
}

/// The display tasks to start among the first `n` displays, in their order.
pub open spec fn monitor_plans(
    monitors: Seq<(Seq<char>, MonitorConfig)>,
    devices: Seq<Option<DeviceView>>,
    n: nat,
) -> Seq<TaskPlan>
    decreases n,
{
    if n == 0 {
        Seq::empty()
    } else {
        let rest = monitor_plans(monitors, devices, (n - 1) as nat);
        let i = n - 1;
        if monitor_start_error(monitors[i].0, monitors[i].1, probe_at(devices, i)) is None {
            rest.push(TaskPlan::Monitor { id: monitors[i].0, config: monitors[i].1 })
        } else {
            rest
        }
    }
}

/// The displays among the first `n` whose loop is not started, in their
/// order, each with the reason.
pub open spec fn monitor_failures(
    monitors: Seq<(Seq<char>, MonitorConfig)>,
    devices: Seq<Option<DeviceView>>,
    n: nat,
) -> Seq<StartFailureView>
    decreases n,
{
    if n == 0 {
        Seq::empty()
    } else {
        let rest = monitor_failures(monitors, devices, (n - 1) as nat);
        let i = n - 1;
        match monitor_start_error(monitors[i].0, monitors[i].1, probe_at(devices, i)) {
            Some(error) => rest.push(StartFailureView { source_id: monitors[i].0, error }),
            None => rest,
        }
    }
}

/// The window task to start, if the window source is configured, enabled
/// and has a positive interval.
pub open spec fn window_plans(window_config: Option<WindowConfig>) -> Seq<TaskPlan> {
    match window_config {
        Some(config) => if config.enable && config.interval > 0 {
            seq![TaskPlan::Window { window_config: config }]
        } else {
            Seq::empty()
        },
        None => Seq::empty(),
    }
}

/// The failure of the window source, named `window`, if it is enabled with
/// a poll interval of zero.
pub open spec fn window_failures(window_config: Option<WindowConfig>) -> Seq<StartFailureView> {
    match window_config {
        Some(config) => if config.enable && config.interval == 0 {
            seq![
                StartFailureView { source_id: "window"@, error: CaptureError::ZeroInterval },
            ]
        } else {
            Seq::empty()
        },
        None => Seq::empty(),
    }
}

/// The tasks to start: one per display that starts, then the window task.
pub open spec fn planned_tasks(
    monitors: Seq<(Seq<char>, MonitorConfig)>,
    window_config: Option<WindowConfig>,
    devices: Seq<Option<DeviceView>>,
) -> Seq<TaskPlan> {
    monitor_plans(monitors, devices, monitors.len()) + window_plans(window_config)
}

/// The sources that are not started: the displays first, then the window.
pub open spec fn start_failures(
    monitors: Seq<(Seq<char>, MonitorConfig)>,
    window_config: Option<WindowConfig>,
    devices: Seq<Option<DeviceView>>,
) -> Seq<StartFailureView> {
    monitor_failures(monitors, devices, monitors.len()) + window_failures(window_config)
}

/// The views of the probes handed to `start_capture`.
pub open spec fn probe_views(devices: Seq<Option<DeviceInfo>>) -> Seq<Option<DeviceView>> {
    Seq::new(devices.len(), |i: int| probe_view(devices[i]))
}

/// The views of the failures that `start_capture` reports.
pub open spec fn failure_views(failures: Seq<StartFailure>) -> Seq<StartFailureView> {
    Seq::new(failures.len(), |i: int| failures[i]@)
}

/// Number of `true` among the first `n` entries of `joined`; an entry that
/// is missing counts as `false`.
pub open spec fn count_clean(joined: Seq<bool>, n: nat) -> nat
    decreases n,
{
    if n == 0 {
        0
    } else {
        count_clean(joined, (n - 1) as nat) + if n - 1 < joined.len() && joined[n - 1] {
            1nat
        } else {
            0nat
        }
    }
}

/// Mathematical content of a [`Capture`].
pub struct CaptureView {
    /// The enabled displays.
    pub monitor_configs: Seq<(Seq<char>, MonitorConfig)>,
    pub window_config: Option<WindowConfig>,
    /// Whether cancellation has been signalled to the loops.
    pub cancelled: bool,
    /// Number of loops that were started and are still counted; `None`
    /// before the start and after the shutdown.
    pub task_count: Option<nat>,
}

/// The set of sources and the account of their loops.
#[derive(Debug)]
pub struct Capture {
    monitor_configs: MonitorTable,
    window_config: Option<WindowConfig>,
    cancelled: bool,
    task_handles: Option<usize>,
}

impl View for Capture {
    type V = CaptureView;

    closed spec fn view(&self) -> CaptureView {
        CaptureView {
            monitor_configs: self.monitor_configs@,
            window_config: self.window_config,
            cancelled: self.cancelled,
            task_count: match self.task_handles {
                Some(n) => Some(n as nat),
                None => None,
            },
        }
    }
}

impl Capture {
    /// Takes the settings of all sources and keeps the enabled displays.
    /// Nothing is started yet.
    pub fn new(monitor_configs: MonitorTable, window_config: Option<WindowConfig>) -> (capture:
        Self)
        ensures
            capture@ == (CaptureView {
                monitor_configs: enabled_monitors(monitor_configs@, monitor_configs@.len()),
                window_config,
                cancelled: false,
                task_count: None,
            }),
    {
        let mut configs = MonitorTable::new();
        let n = monitor_configs.len();
        let ghost all = monitor_configs@;
        let mut i: usize = 0;
        while i < n
            invariant
                i <= n,
                n == all.len(),
                all == monitor_configs@,
                distinct_names(all),
                configs@ == enabled_monitors(all, i as nat),
            decreases n - i,
        {
            let config = monitor_configs.config_at(i);
            if config.enable {
                let name = String::from_str(monitor_configs.name_at(i));
                proof {
                    law_enabled_monitors_kept(all, i as nat);
                    lemma_position_from(configs@, name@, 0);
                    if position_of(configs@, name@) is Some {
                        let k = position_of(configs@, name@)->0;
                        let j = choose|j: int| 0 <= j < i && all[j] == configs@[k];
                        assert(all[j].0 == all[i as int].0);
                    }
                }
                configs.insert(name, config);
            }
            i = i + 1;
        }
        Self { monitor_configs: configs, window_config, cancelled: false, task_handles: None }
    }

    /// The enabled displays, in the order in which `start_capture` expects
    /// their probes.
    pub fn monitor_configs(&self) -> (configs: &MonitorTable)
        ensures
            configs@ == self@.monitor_configs,
    {
        &self.monitor_configs
    }

    /// The settings of the window source.
    pub fn window_config(&self) -> (config: Option<WindowConfig>)
        ensures
            config == self@.window_config,
    {
        self.window_config
    }

    /// Builds the tasks to start. `devices[i]` is the live device found for
    /// display `i` of `monitor_configs()`, or `None`. A display whose id
    /// does not parse, whose device is missing or does not fit its id, or
    /// whose poll interval is zero is left out and reported as a failure;
    /// the others start, and so does the window source if it is enabled. The
    /// tasks are handed to the caller to run, one concurrent task each, and
    /// their number is recorded.
    pub fn start_capture(&mut self, devices: &Vec<Option<DeviceInfo>>) -> (report: StartReport)
        ensures
            report.tasks@.len() == planned_tasks(
                old(self)@.monitor_configs,
                old(self)@.window_config,
                probe_views(devices@),
            ).len(),
            forall|i: int|
                0 <= i < report.tasks@.len() ==> (#[trigger] report.tasks@[i]).fresh_for(
                    planned_tasks(
                        old(self)@.monitor_configs,
                        old(self)@.window_config,
                        probe_views(devices@),
                    )[i],
                ),
            failure_views(report.failures@) == start_failures(
                old(self)@.monitor_configs,
                old(self)@.window_config,
                probe_views(devices@),
            ),
            final(self)@ == (CaptureView { task_count: Some(report.tasks@.len()), ..old(self)@ }),
    {
        let ghost monitors = self.monitor_configs@;
        let ghost probes = probe_views(devices@);
        let mut tasks: Vec<CaptureTask> = Vec::new();
        let mut failures: Vec<StartFailure> = Vec::new();
        let n = self.monitor_configs.len();
        let mut i: usize = 0;
        assert(failure_views(failures@) =~= monitor_failures(monitors, probes, 0));
        while i < n
            invariant
                i <= n,
                n == monitors.len(),
                monitors == self.monitor_configs@,
                probes == probe_views(devices@),
                tasks@.len() == monitor_plans(monitors, probes, i as nat).len(),
                forall|k: int|
                    0 <= k < tasks@.len() ==> (#[trigger] tasks@[k]).fresh_for(
                        monitor_plans(monitors, probes, i as nat)[k],
                    ),
                failure_views(failures@) == monitor_failures(monitors, probes, i as nat),
            decreases n - i,
        {
            let config = self.monitor_configs.config_at(i);
            let name = self.monitor_configs.name_at(i);
            let ghost plans_before = monitor_plans(monitors, probes, i as nat);
            let ghost failures_before = failure_views(failures@);
            let ghost verdict = monitor_start_error(name@, config, probe_at(probes, i as int));
            let mut error: Option<CaptureError> = None;
            match SafeMonitor::parse_id(name) {
                Err(_) => {
                    error = Some(CaptureError::InvalidSourceId);
                },
                Ok(_) => {
                    if i < devices.len() {
                        assert(probes[i as int] == probe_view(devices@[i as int]));
                        match &devices[i] {
                            Some(device) => {
                                match SafeMonitor::new(String::from_str(name), device) {
                                    Ok(monitor) => {
                                        match CaptureLoop::new(config.interval) {
                                            Some(control) => {
                                                tasks.push(
                                                    CaptureTask::Monitor(
                                                        MonitorTask { monitor, config, control },
                                                    ),
                                                );
                                            },
                                            None => {
                                                error = Some(CaptureError::ZeroInterval);
                                            },
                                        }
                                    },
                                    Err(e) => {
                                        error = Some(e);
                                    },
                                }
                            },
                            None => {
                                error = Some(CaptureError::SourceUnavailable);
                            },
                        }
                    } else {
                        error = Some(CaptureError::SourceUnavailable);
                    }
                },
            }
            assert(error == verdict);
            match error {
                Some(e) => {
                    failures.push(StartFailure { source_id: String::from_str(name), error: e });
                    assert(failure_views(failures@) =~= failures_before.push(
                        StartFailureView { source_id: name@, error: e },
                    ));
                },
                None => {
                    assert(forall|k: int|
                        0 <= k < plans_before.len() ==> monitor_plans(
                            monitors,
                            probes,
                            (i + 1) as nat,
                        )[k] == plans_before[k]);
                },
            }
            i = i + 1;
        }
        let ghost display_plans = monitor_plans(monitors, probes, n as nat);
        let ghost display_failures = failure_views(failures@);
        let ghost plans = planned_tasks(monitors, self.window_config, probes);
        if let Some(config) = self.window_config {
            if config.enable {
                match CaptureLoop::new(config.interval) {
                    Some(control) => {
                        tasks.push(
                            CaptureTask::Window(
                                WindowTask { window: SafeWindow::new(), config, control },
                            ),
                        );
                    },
                    None => {
                        failures.push(
                            StartFailure {
                                source_id: String::from_str("window"),
                                error: CaptureError::ZeroInterval,
                            },
                        );
                    },
                }
            }
        }
        assert(forall|k: int| 0 <= k < display_plans.len() ==> plans[k] == display_plans[k]);
        assert(failure_views(failures@) =~= display_failures + window_failures(
            self.window_config,
        ));
        self.task_handles = Some(tasks.len());
        StartReport { tasks, failures }
    }

    /// Signals cancellation and closes the account of the loops. `joined[i]`
    /// says whether task `i` was awaited and had ended cleanly. Returns how
    /// many tasks ended cleanly, and how many were counted.
    pub fn shutdown(&mut self, joined: &Vec<bool>) -> (report: (usize, usize))
        ensures
            report.1 == match old(self)@.task_count {
                Some(n) => n,
                None => 0,
            },
            report.0 == count_clean(joined@, report.1 as nat),
            report.0 <= report.1,
            final(self)@ == (CaptureView { cancelled: true, task_count: None, ..old(self)@ }),
    {
        self.cancelled = true;
        let total: usize = match self.task_handles {
            Some(n) => n,
            None => 0,
        };
        self.task_handles = None;
        let mut completed: usize = 0;
        let mut i: usize = 0;
        while i < total
            invariant
                i <= total,
                completed == count_clean(joined@, i as nat),
                completed <= i,
            decreases total - i,
        {
            if i < joined.len() && joined[i] {
                completed = completed + 1;
            }
            i = i + 1;
        }
        (completed, total)
    }

    /// Whether loops were started and are still counted.
    pub fn is_running(&self) -> (running: bool)
        ensures
            running == (self@.task_count matches Some(n) && n > 0),
    {
        match self.task_handles {
            Some(n) => n > 0,
            None => false,
        }
    }

    /// Number of loops that were started and are still counted.
    pub fn task_count(&self) -> (count: usize)
        ensures
            count == match self@.task_count {
                Some(n) => n,
                None => 0,
            },
    {
        match self.task_handles {
            Some(n) => n,
            None => 0,
        }
    }

    /// Whether cancellation has been signalled.
    pub fn is_cancelled(&self) -> (cancelled: bool)
        ensures
            cancelled == self@.cancelled,
    {
        self.cancelled
    }

    /// To be called when the orchestrator is discarded: signals
    /// cancellation if loops are still running, and says whether it did, so
    /// that no loop is left running behind.
    pub fn release(&mut self) -> (signalled: bool)
        ensures
            signalled == (old(self)@.task_count matches Some(n) && n > 0),
            final(self)@ == (CaptureView {
                cancelled: old(self)@.cancelled || signalled,
                ..old(self)@
            }),
    {
        if self.is_running() {
            self.cancelled = true;
            true
        } else {
            false
        }
    }
}

/// When every counted task was awaited and had ended cleanly, the number of
/// clean ends is the number of counted tasks.
pub proof fn law_all_clean(joined: Seq<bool>, total: nat)
    requires
        total <= joined.len(),
        forall|i: int| 0 <= i < total ==> joined[i],
    ensures
        count_clean(joined, total) == total,
    decreases total,
{
    if total > 0 {
        law_all_clean(joined, (total - 1) as nat);
    }
}

/// The number of clean ends never exceeds the number of counted tasks, and
/// falls short of it as soon as one task did not end cleanly.
pub proof fn law_clean_count_bounds(joined: Seq<bool>, total: nat, failed: int)
    requires
        0 <= failed < total,
        failed >= joined.len() || !joined[failed],
    ensures
        count_clean(joined, total) < total,
    decreases total,
{
    lemma_count_clean_bound(joined, (total - 1) as nat);
    if failed < total - 1 {
        law_clean_count_bounds(joined, (total - 1) as nat, failed);
    }
}

pub proof fn lemma_count_clean_bound(joined: Seq<bool>, n: nat)
    ensures
        count_clean(joined, n) <= n,
    decreases n,
{
    if n > 0 {
        lemma_count_clean_bound(joined, (n - 1) as nat);
    }
}

/// The displays that are kept are exactly the enabled ones: each kept entry
/// is an enabled entry of the table, and each enabled entry is kept.
pub proof fn law_enabled_monitors_kept(monitors: Seq<(Seq<char>, MonitorConfig)>, n: nat)
    requires
        n <= monitors.len(),
    ensures
        forall|k: int|
            0 <= k < enabled_monitors(monitors, n).len() ==> (#[trigger] enabled_monitors(
                monitors,
                n,
            )[k]).1.enable && exists|j: int|
                0 <= j < n && monitors[j] == enabled_monitors(monitors, n)[k],
        forall|j: int|
            0 <= j < n && (#[trigger] monitors[j]).1.enable ==> exists|k: int|
                0 <= k < enabled_monitors(monitors, n).len() && enabled_monitors(monitors, n)[k]
                    == monitors[j],
    decreases n,
{
    if n > 0 {
        law_enabled_monitors_kept(monitors, (n - 1) as nat);
        let rest = enabled_monitors(monitors, (n - 1) as nat);
        let all = enabled_monitors(monitors, n);
        assert forall|k: int| 0 <= k < all.len() implies (#[trigger] all[k]).1.enable && exists|
            j: int,
        |
            0 <= j < n && monitors[j] == all[k] by {
            if k < rest.len() {
                assert(all[k] == rest[k]);
                let j = choose|j: int| 0 <= j < n - 1 && monitors[j] == rest[k];
                assert(0 <= j < n && monitors[j] == all[k]);
            } else {
                assert(all[k] == monitors[n - 1]);
            }
        }
        assert forall|j: int| 0 <= j < n && (#[trigger] monitors[j]).1.enable implies exists|
            k: int,
        |
            0 <= k < all.len() && all[k] == monitors[j] by {
            if j < n - 1 {
                let k = choose|k: int| 0 <= k < rest.len() && rest[k] == monitors[j];
                assert(all[k] == monitors[j]);
            } else {
                assert(all[all.len() - 1] == monitors[j]);
            }
        }
    }
}

/// Every display of the orchestrator is either started or reported as a
/// failure, and so is the window source if it is enabled.
pub proof fn law_every_source_accounted(
    monitors: Seq<(Seq<char>, MonitorConfig)>,
    window_config: Option<WindowConfig>,
    devices: Seq<Option<DeviceView>>,
)
    ensures
        planned_tasks(monitors, window_config, devices).len() + start_failures(
            monitors,
            window_config,
            devices,
        ).len() == monitors.len() + if window_config matches Some(c) && c.enable {
            1nat
        } else {
            0nat
        },
{
    lemma_monitors_accounted(monitors, devices, monitors.len());
}

proof fn lemma_monitors_accounted(
    monitors: Seq<(Seq<char>, MonitorConfig)>,
    devices: Seq<Option<DeviceView>>,
    n: nat,
)
    ensures
        monitor_plans(monitors, devices, n).len() + monitor_failures(monitors, devices, n).len()
            == n,
    decreases n,
{
    if n > 0 {
        lemma_monitors_accounted(monitors, devices, (n - 1) as nat);
    }
}

} // verus!
