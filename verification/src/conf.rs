//! What a run is configured with.

use crate::error::Error;
use crate::hdfs::mirror::{invalid_pattern, start, Action, Filter, Walker};
use crate::krb5::Auth;
use vstd::prelude::*;

verus! {

/// Where the configuration file is looked for unless the command line says
/// otherwise.
pub const DEFAULT_CONF: &'static str = "config/rs-hdfs-report.toml";

/// What the command line gives: the path of the configuration file.
#[derive(Debug, PartialEq, Eq)]
pub struct ArgConfig {
    pub conf: String,
}

impl ArgConfig {
    /// The path of the configuration file.
    pub fn conf(&self) -> (r: &str)
        ensures
            r@ == self.conf@,
    {
        self.conf.as_str()
    }
}

impl Default for ArgConfig {
    fn default() -> (r: ArgConfig)
        ensures
            r.conf@ == DEFAULT_CONF@,
    {
        ArgConfig { conf: DEFAULT_CONF.to_owned() }
    }
}

/// How the process as a whole runs.
#[derive(Debug, PartialEq, Eq)]
pub struct GeneralConfig {
    /// The file whose lock keeps a second process from running.
    pub lock_file: String,
    /// The seconds to sleep between two cycles; `None` for a single cycle.
    pub repeat_delay: Option<u64>,
}

/// What to do when a cycle has ended.
#[derive(Clone, Copy, Debug, PartialEq, Eq, Structural)]
pub enum Next {
    /// Sleep for this many seconds, then run another cycle.
    Sleep(u64),
    /// Leave with this exit status.
    Exit(i32),
}

impl GeneralConfig {
    /// What to do when a cycle has ended. With a delay configured the next
    /// cycle follows after it, whether this one failed or not, without
    /// end. Without one the process leaves, with status 1 after a failure.
    pub fn after_cycle(&self, failed: bool) -> (r: Next)
        ensures
            r == match self.repeat_delay {
                Some(delay) => Next::Sleep(delay),
                None => Next::Exit(
                    if failed {
                        1i32
                    } else {
                        0i32
                    },
                ),
            },
    {
        match self.repeat_delay {
            Some(delay) => Next::Sleep(delay),
            None => Next::Exit(
                if failed {
                    1
                } else {
                    0
                },
            ),
        }
    }
}

/// What to mirror.
#[derive(Debug, PartialEq, Eq)]
pub struct HdfsConfig {
    /// The remote directory to walk.
    pub path: String,
    /// The local directory to copy into.
    pub copy_to: String,
    /// The patterns of the paths to copy.
    pub matches: Vec<String>,
}

impl HdfsConfig {
    /// Starts the walk that the configuration describes, or gives the
    /// error of its first invalid pattern.
    pub fn walker(self) -> (r: Result<(Walker, Action), Error>)
        ensures
            match r {
                Ok(begun) => invalid_pattern(self.matches.deep_view()) is None && (
                    begun.0@,
                    begun.1@,
                ) == start(self.path@, self.copy_to@, self.matches.deep_view()),
                Err(e) => invalid_pattern(self.matches.deep_view()) == Some(e@),
            },
    {
        let filter = Filter::new(self.matches)?;
        Ok(Walker::new(self.path.as_str(), self.copy_to.as_str(), filter))
    }
}

/// Who asks for a ticket, and how.
#[derive(Debug, PartialEq, Eq)]
pub struct KinitConfig {
    pub login: String,
    pub auth: Auth,
}

/// The configuration of a run.
#[derive(Debug, PartialEq, Eq)]
pub struct Config {
    pub general: GeneralConfig,
    pub hdfs: HdfsConfig,
    pub kinit: KinitConfig,
}

} // verus!
