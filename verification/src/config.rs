//! The configuration of the watcher and its validation.
pub mod table;

pub use crate::config::table::{MonitorConfig, MonitorTable};
use crate::text::{decimal, push_decimal};
use vstd::prelude::*;
use vstd::string::*;

verus! {

/// The whole configuration.
#[derive(Debug, Clone)]
pub struct Config {
    pub activitywatch: ActivityWatchConfig,
    pub storage: StorageConfig,
    pub monitors: MonitorTable,
    pub window: WindowConfig,
    pub logging: LoggingConfig,
}

/// Where the ActivityWatch server listens.
#[derive(Debug, Clone)]
pub struct ActivityWatchConfig {
    pub host: String,
    pub port: u16,
}

/// Where captures are stored.
#[derive(Debug, Clone)]
pub struct StorageConfig {
    pub s3: S3Config,
    pub local: LocalConfig,
}

/// Storage in an S3 bucket.
#[derive(Debug, Clone)]
pub struct S3Config {
    pub enable: bool,
    pub bucket: String,
    pub region: String,
    pub endpoint: String,
    pub access_key: String,
    pub secret_key: String,
}

/// Storage in a local directory.
#[derive(Debug, Clone)]
pub struct LocalConfig {
    pub enable: bool,
    pub path: String,
}

/// Settings of the focused-window source.
#[derive(Debug, Clone, Copy, PartialEq, Eq, Structural)]
pub struct WindowConfig {
    pub enable: bool,
    /// Time between two polls, in milliseconds.
    pub interval: u64,
    /// Time after which a capture is forwarded even if nothing changed, in
    /// milliseconds.
    pub enforce_interval: u64,
    pub dhash_resolution: u32,
    /// Smallest fingerprint distance that counts as a change.
    pub dhash_threshold: u32,
    /// Reserved; has no effect.
    pub enable_ocr: bool,
}

/// Settings of the log output.
#[derive(Debug, Clone)]
pub struct LoggingConfig {
    pub level: String,
}

/// Why a configuration is refused.
#[derive(Debug)]
pub enum ConfigError {
    /// No display is configured.
    NoMonitors,
    /// The named display has a poll interval of zero.
    ZeroInterval(String),
    /// The named display has a threshold above 255.
    InvalidThreshold(String),
    /// No display is enabled.
    NoEnabledMonitor,
    /// Neither storage is enabled.
    NoStorage,
}

/// Mathematical content of a [`ConfigError`].
pub enum ConfigFault {
    NoMonitors,
    ZeroInterval(Seq<char>),
    InvalidThreshold(Seq<char>),
    NoEnabledMonitor,
    NoStorage,
}

impl View for ConfigError {
    type V = ConfigFault;

    open spec fn view(&self) -> ConfigFault {
        match self {
            ConfigError::NoMonitors => ConfigFault::NoMonitors,
            ConfigError::ZeroInterval(name) => ConfigFault::ZeroInterval(name@),
            ConfigError::InvalidThreshold(name) => ConfigFault::InvalidThreshold(name@),
            ConfigError::NoEnabledMonitor => ConfigFault::NoEnabledMonitor,
            ConfigError::NoStorage => ConfigFault::NoStorage,
        }
    }
}

/// Largest threshold that a display may have.
pub const MAX_DHASH_THRESHOLD: u32 = 255;

/// What is wrong with the settings of one display, if anything: a zero
/// interval before a threshold out of range.
pub open spec fn monitor_fault(name: Seq<char>, config: MonitorConfig) -> Option<ConfigFault> {
    if config.interval == 0 {
        Some(ConfigFault::ZeroInterval(name))
    } else if config.dhash_threshold > MAX_DHASH_THRESHOLD {
        Some(ConfigFault::InvalidThreshold(name))
    } else {
        None
    }
}

/// The fault of the first display, in the order of the table, that has one.
pub open spec fn first_fault(monitors: Seq<(Seq<char>, MonitorConfig)>) -> Option<ConfigFault>
    decreases monitors.len(),
{
    if monitors.len() == 0 {
        None
    } else {
        match monitor_fault(monitors[0].0, monitors[0].1) {
            Some(fault) => Some(fault),
            None => first_fault(monitors.drop_first()),
        }
    }
}

/// Whether some display is enabled.
pub open spec fn any_enabled(monitors: Seq<(Seq<char>, MonitorConfig)>) -> bool {
    exists|i: int| 0 <= i < monitors.len() && (#[trigger] monitors[i]).1.enable
}

/// The first reason, if any, for which a configuration is refused: no
/// display at all; a display with a fault; no display enabled; no storage
/// enabled.
pub open spec fn config_fault(
    monitors: Seq<(Seq<char>, MonitorConfig)>,
    s3_enabled: bool,
    local_enabled: bool,
) -> Option<ConfigFault> {
    if monitors.len() == 0 {
        Some(ConfigFault::NoMonitors)
    } else if first_fault(monitors) is Some {
        first_fault(monitors)
    } else if !any_enabled(monitors) {
        Some(ConfigFault::NoEnabledMonitor)
    } else if !s3_enabled && !local_enabled {
        Some(ConfigFault::NoStorage)
    } else {
        None
    }
}

/// The address of the ActivityWatch server: `http://`, the host, a colon,
/// and the port in decimal.
pub open spec fn server_url(host: Seq<char>, port: u16) -> Seq<char> {
    "http://"@ + host + ":"@ + decimal(port as nat)
}

/// The settings of a display in words.
pub open spec fn monitor_description(config: MonitorConfig) -> Seq<char> {
    "interval="@ + decimal(config.interval as nat) + "ms, enforce="@ + decimal(
        config.enforce_interval as nat,
    ) + "ms, resolution="@ + decimal(config.dhash_resolution as nat) + ", threshold="@ + decimal(
        config.dhash_threshold as nat,
    )
}

/// The settings of the window source in words.
pub open spec fn window_description(config: WindowConfig) -> Seq<char> {
    "interval="@ + decimal(config.interval as nat) + "ms, enforce="@ + decimal(
        config.enforce_interval as nat,
    ) + "ms, resolution="@ + decimal(config.dhash_resolution as nat) + ", threshold="@ + decimal(
        config.dhash_threshold as nat,
    ) + ", ocr="@ + if config.enable_ocr {
        "true"@
    } else {
        "false"@
    }
}

impl MonitorConfig {
    /// The settings in words, for log lines.
    pub fn describe(&self) -> (text: String)
        ensures
            text@ == monitor_description(*self),
    {
        let mut text = String::from_str("interval=");
        push_decimal(&mut text, self.interval);
        text.append("ms, enforce=");
        push_decimal(&mut text, self.enforce_interval);
        text.append("ms, resolution=");
        push_decimal(&mut text, self.dhash_resolution as u64);
        text.append(", threshold=");
        push_decimal(&mut text, self.dhash_threshold as u64);
        text
    }
}

impl WindowConfig {
    /// The settings in words, for log lines.
    pub fn describe(&self) -> (text: String)
        ensures
            text@ == window_description(*self),
    {
        let mut text = String::from_str("interval=");
        push_decimal(&mut text, self.interval);
        text.append("ms, enforce=");
        push_decimal(&mut text, self.enforce_interval);
        text.append("ms, resolution=");
        push_decimal(&mut text, self.dhash_resolution as u64);
        text.append(", threshold=");
        push_decimal(&mut text, self.dhash_threshold as u64);
        text.append(", ocr=");
        if self.enable_ocr {
            text.append("true");
        } else {
            text.append("false");
        }
        text
    }
}

proof fn lemma_first_fault_skip(monitors: Seq<(Seq<char>, MonitorConfig)>, i: int)
    requires
        0 <= i < monitors.len(),
        monitor_fault(monitors[i].0, monitors[i].1) is None,
    ensures
        first_fault(monitors.skip(i)) == first_fault(monitors.skip(i + 1)),
{
    assert(monitors.skip(i).drop_first() =~= monitors.skip(i + 1));
}

impl Config {
    /// Checks the configuration and names the first reason for refusing it.
    pub fn validate(&self) -> (checked: Result<(), ConfigError>)
        ensures
            match config_fault(self.monitors@, self.storage.s3.enable, self.storage.local.enable) {
                None => checked is Ok,
                Some(fault) => checked matches Err(e) && e@ == fault,
            },
    {
        let n = self.monitors.len();
        if n == 0 {
            return Err(ConfigError::NoMonitors);
        }
        let ghost monitors = self.monitors@;
        let mut enabled = false;
        let mut i: usize = 0;
        assert(monitors.skip(0) =~= monitors);
        while i < n
            invariant
                i <= n,
                n == monitors.len(),
                monitors == self.monitors@,
                first_fault(monitors) == first_fault(monitors.skip(i as int)),
                enabled == (exists|k: int| 0 <= k < i && (#[trigger] monitors[k]).1.enable),
            decreases n - i,
        {
            let monitor = self.monitors.config_at(i);
            assert(monitors.skip(i as int)[0] == monitors[i as int]);
            if monitor.interval == 0 {
                return Err(ConfigError::ZeroInterval(String::from_str(self.monitors.name_at(i))));
            }
            if monitor.dhash_threshold > MAX_DHASH_THRESHOLD {
                return Err(
                    ConfigError::InvalidThreshold(String::from_str(self.monitors.name_at(i))),
                );
            }
            if monitor.enable {
                enabled = true;
            }
            proof {
                lemma_first_fault_skip(monitors, i as int);
            }
            i = i + 1;
        }
        assert(first_fault(monitors.skip(n as int)) is None);
        if !enabled {
            return Err(ConfigError::NoEnabledMonitor);
        }
        if !self.storage.s3.enable && !self.storage.local.enable {
            return Err(ConfigError::NoStorage);
        }
        Ok(())
    }

    /// The address of the ActivityWatch server.
    pub fn activitywatch_url(&self) -> (url: String)
        ensures
            url@ == server_url(self.activitywatch.host@, self.activitywatch.port),
    {
        let mut url = String::from_str("http://");
        url.append(self.activitywatch.host.as_str());
        url.append(":");
        push_decimal(&mut url, self.activitywatch.port as u64);
        url
    }
}

/// The settings of the display `default` in a default configuration.
pub open spec fn default_monitor() -> MonitorConfig {
    MonitorConfig {
        enable: true,
        interval: 1000,
        enforce_interval: 30000,
        dhash_resolution: 16,
        dhash_threshold: 10,
    }
}

/// The settings of the window source in a default configuration.
pub open spec fn default_window() -> WindowConfig {
    WindowConfig {
        enable: false,
        interval: 1000,
        enforce_interval: 30000,
        dhash_resolution: 16,
        dhash_threshold: 10,
        enable_ocr: false,
    }
}

impl Default for Config {
    /// A configuration with one enabled display named `default`, local
    /// storage, and the window source switched off.
    fn default() -> (config: Self)
        ensures
            config.activitywatch.host@ == "localhost"@,
            config.activitywatch.port == 5600,
            !config.storage.s3.enable,
            config.storage.s3.bucket@ == "aw-screenshots"@,
            config.storage.s3.region@ == "us-east-1"@,
            config.storage.s3.endpoint@ == "https://s3.amazonaws.com"@,
            config.storage.s3.access_key@ == Seq::<char>::empty(),
            config.storage.s3.secret_key@ == Seq::<char>::empty(),
            config.storage.local.enable,
            config.storage.local.path@ == "/tmp/aw-screenshots"@,
            config.monitors@ == seq![("default"@, default_monitor())],
            config.window == default_window(),
            config.logging.level@ == "info"@,
            config_fault(
                config.monitors@,
                config.storage.s3.enable,
                config.storage.local.enable,
            ) is None,
    {
        let mut monitors = MonitorTable::new();
        monitors.insert(
            String::from_str("default"),
            MonitorConfig {
                enable: true,
                interval: 1000,
                enforce_interval: 30000,
                dhash_resolution: 16,
                dhash_threshold: 10,
            },
        );
        assert(monitors@ =~= seq![("default"@, default_monitor())]);
        assert(monitors@[0].1.enable);
        assert(monitors@.drop_first() =~= Seq::<(Seq<char>, MonitorConfig)>::empty());
        assert(first_fault(monitors@.drop_first()) is None);
        assert(first_fault(monitors@) is None);
        assert(any_enabled(monitors@));
        Self {
            activitywatch: ActivityWatchConfig { host: String::from_str("localhost"), port: 5600 },
            storage: StorageConfig {
                s3: S3Config {
                    enable: false,
                    bucket: String::from_str("aw-screenshots"),
                    region: String::from_str("us-east-1"),
                    endpoint: String::from_str("https://s3.amazonaws.com"),
                    access_key: String::new(),
                    secret_key: String::new(),
                },
                local: LocalConfig { enable: true, path: String::from_str("/tmp/aw-screenshots") },
            },
            monitors,
            window: WindowConfig {
                enable: false,
                interval: 1000,
                enforce_interval: 30000,
                dhash_resolution: 16,
                dhash_threshold: 10,
                enable_ocr: false,
            },
            logging: LoggingConfig { level: String::from_str("info") },
        }
    }
}

/// No display has a fault exactly when every display has a positive
/// interval and a threshold of at most `MAX_DHASH_THRESHOLD`.
pub proof fn lemma_no_fault(monitors: Seq<(Seq<char>, MonitorConfig)>)
    ensures
        first_fault(monitors) is None <==> forall|i: int|
            0 <= i < monitors.len() ==> (#[trigger] monitors[i]).1.interval > 0 && monitors[i].1.dhash_threshold
                <= MAX_DHASH_THRESHOLD,
    decreases monitors.len(),
{
    if monitors.len() > 0 {
        let rest = monitors.drop_first();
        lemma_no_fault(rest);
        if first_fault(monitors) is None {
            assert forall|i: int| 0 <= i < monitors.len() implies (#[trigger] monitors[i]).1.interval
                > 0 && monitors[i].1.dhash_threshold <= MAX_DHASH_THRESHOLD by {
                if i > 0 {
                    assert(monitors[i] == rest[i - 1]);
                }
            }
        } else if monitor_fault(monitors[0].0, monitors[0].1) is None {
            let k = choose|k: int|
                0 <= k < rest.len() && !((#[trigger] rest[k]).1.interval > 0
                    && rest[k].1.dhash_threshold <= MAX_DHASH_THRESHOLD);
            assert(monitors[k + 1] == rest[k]);
        }
    }
}

/// A configuration is accepted exactly when it has a display, every display
/// has a positive interval and a threshold of at most
/// `MAX_DHASH_THRESHOLD`, some display is enabled, and some storage is
/// enabled.
pub proof fn law_accepted_configuration(
    monitors: Seq<(Seq<char>, MonitorConfig)>,
    s3_enabled: bool,
    local_enabled: bool,
)
    ensures
        config_fault(monitors, s3_enabled, local_enabled) is None <==> {
            &&& monitors.len() > 0
            &&& forall|i: int|
                0 <= i < monitors.len() ==> (#[trigger] monitors[i]).1.interval > 0
                    && monitors[i].1.dhash_threshold <= MAX_DHASH_THRESHOLD
            &&& any_enabled(monitors)
            &&& (s3_enabled || local_enabled)
        },
{
    lemma_no_fault(monitors);
}

} // verus!
