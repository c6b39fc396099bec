use crate::matcher::{pattern_compiles, FlagMatcher};
use vstd::prelude::*;

verus! {

/// What the farm runs with: the flag pattern, the targets, the acceptance
/// service and the re-run interval in seconds.
pub struct Config {
    pub flag_re: String,
    pub addresses: Vec<String>,
    pub flagbot_address: String,
    pub interval: usize,
}

/// Why a configuration cannot be run.
#[derive(Debug, PartialEq, Eq, Structural)]
pub enum ConfigError {
    ZeroInterval,
    InvalidPattern,
}

impl Config {
    /// A configuration that can be run: a positive interval and a pattern
    /// that compiles.
    pub open spec fn wf(&self) -> bool {
        self.interval > 0 && pattern_compiles(self.flag_re@)
    }

    /// Checks the configuration and compiles its pattern.
    pub fn validate(&self) -> (r: Result<FlagMatcher, ConfigError>)
        ensures
            r is Ok == self.wf(),
            r matches Ok(m) ==> m@ == self.flag_re@,
            r == Err::<FlagMatcher, ConfigError>(ConfigError::ZeroInterval) <==> self.interval == 0,
            r == Err::<FlagMatcher, ConfigError>(ConfigError::InvalidPattern) <==> (self.interval > 0
                && !pattern_compiles(self.flag_re@)),
    {
        if self.interval == 0 {
            return Err(ConfigError::ZeroInterval);
        }
        match FlagMatcher::new(self.flag_re.as_str()) {
            Some(m) => Ok(m),
            None => Err(ConfigError::InvalidPattern),
        }
    }
}

} // verus!
