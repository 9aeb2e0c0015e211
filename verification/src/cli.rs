//! The commands of the watcher and the bookkeeping of a capture run.
use crate::config::Config;
use crate::text::{decimal, push_decimal};
use vstd::prelude::*;
use vstd::string::*;

verus! {

/// The command line.
#[derive(Debug)]
pub struct Cli {
    pub command: Commands,
}

/// What the watcher is asked to do.
#[derive(Debug)]
pub enum Commands {
    /// List the ids of all displays that can be captured.
    ListMonitors,
    /// Capture until the limit is reached.
    Capture {
        /// Path of the configuration file.
        config: String,
        /// Number of captures after which to stop; 0 for no limit.
        max_count: usize,
        /// Log level: trace, debug, info, warn or error.
        log_level: Option<String>,
        /// Directory for local storage; switches local storage on.
        storage_path: Option<String>,
    },
}

/// The number of captures after which a run ends: `usize::MAX`, that is no
/// limit, for a requested maximum of 0.
pub open spec fn capture_limit(max_count: usize) -> usize {
    if max_count == 0 {
        usize::MAX
    } else {
        max_count
    }
}

/// The progress of a run in words: `[count]` for a run without limit,
/// `[count/limit]` otherwise.
pub open spec fn progress_text(count: usize, limit: usize) -> Seq<char> {
    if limit == usize::MAX {
        "["@ + decimal(count as nat) + "]"@
    } else {
        "["@ + decimal(count as nat) + "/"@ + decimal(limit as nat) + "]"@
    }
}

/// The number of captures after which a run ends.
pub fn count_limit(max_count: usize) -> (limit: usize)
    ensures
        limit == capture_limit(max_count),
        limit > 0,
{
    if max_count == 0 {
        usize::MAX
    } else {
        max_count
    }
}

/// The progress of a run in words.
pub fn progress_label(count: usize, limit: usize) -> (label: String)
    ensures
        label@ == progress_text(count, limit),
{
    let mut label = String::from_str("[");
    push_decimal(&mut label, count as u64);
    if limit != usize::MAX {
        label.append("/");
        push_decimal(&mut label, limit as u64);
    }
    label.append("]");
    label
}

/// The log level to use: the one asked for, or `info`.
pub fn effective_log_level(log_level: Option<String>) -> (level: String)
    ensures
        level@ == match log_level {
            Some(asked) => asked@,
            None => "info"@,
        },
{
    match log_level {
        Some(asked) => asked,
        None => String::from_str("info"),
    }
}

/// Applies a storage path given on the command line: local storage is
/// switched on and pointed to it. Without a path the configuration stays as
/// it is.
pub fn apply_storage_path(config: &mut Config, storage_path: Option<String>) -> (applied: bool)
    ensures
        applied == storage_path is Some,
        final(config).activitywatch == old(config).activitywatch,
        final(config).storage.s3 == old(config).storage.s3,
        final(config).monitors == old(config).monitors,
        final(config).window == old(config).window,
        final(config).logging == old(config).logging,
        match storage_path {
            Some(path) => final(config).storage.local.enable && final(config).storage.local.path@
                == path@,
            None => final(config).storage.local == old(config).storage.local,
        },
{
    match storage_path {
        Some(path) => {
            config.storage.local.enable = true;
            config.storage.local.path = path;
            true
        },
        None => false,
    }
}

} // verus!
