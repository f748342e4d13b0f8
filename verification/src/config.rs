//! What an operator can set, and the values used where nothing is set.

use vstd::prelude::*;

verus! {

/// Seconds a session may stay idle before its reaper releases it, unless
/// configured otherwise.
pub const DEFAULT_IDLE_TIMEOUT_SECS: u64 = 60;

/// Seconds to wait for the first output line of a freshly spawned tool. A
/// tool that stays silent for longer counts as a failed spawn.
pub const FIRST_LINE_WAIT_SECS: u64 = 30;

/// The configuration of a daemon.
#[derive(Clone, Debug, PartialEq, Eq)]
pub struct Config {
    /// Where requests are read.
    pub reader_pipe_path: String,
    /// Where responses are written.
    pub writer_pipe_path: String,
    /// Seconds a session may stay idle before its reaper releases it.
    pub idle_timeout_secs: u64,
}

impl Default for Config {
    fn default() -> (config: Config)
        ensures
            config.reader_pipe_path@ == "/tmp/sshx-host-runner-read"@,
            config.writer_pipe_path@ == "/tmp/sshx-host-runner-write"@,
            config.idle_timeout_secs == DEFAULT_IDLE_TIMEOUT_SECS,
    {
        Config {
            reader_pipe_path: "/tmp/sshx-host-runner-read".to_owned(),
            writer_pipe_path: "/tmp/sshx-host-runner-write".to_owned(),
            idle_timeout_secs: DEFAULT_IDLE_TIMEOUT_SECS,
        }
    }
}

} // verus!
