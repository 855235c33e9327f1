//! What is set before the game starts.

use vstd::prelude::*;

verus! {

/// The time between two firings of the cloud spawner's clock, unless set otherwise.
pub const CLOUD_SPAWN_PERIOD: u64 = 2_000_000;

/// The time between two firings of the pipe spawner's clock, unless set otherwise.
pub const PIPE_SPAWN_PERIOD: u64 = 5_000_000;

/// The settings of the two spawners.
#[derive(Clone, Copy, Debug, PartialEq, Eq, Structural)]
pub struct GameConfig {
    /// The time between two firings of the cloud spawner's clock.
    pub cloud_period: u64,
    /// The time between two firings of the pipe spawner's clock.
    pub pipe_period: u64,
    /// The chance of a cloud at each firing is `cloud_numerator` in `cloud_denominator`.
    pub cloud_numerator: u32,
    pub cloud_denominator: u32,
}

/// What is wrong with a configuration.
#[derive(Clone, Copy, Debug, PartialEq, Eq, Structural)]
pub enum ConfigError {
    /// The period of the cloud spawner is zero.
    CloudPeriod,
    /// The period of the pipe spawner is zero.
    PipePeriod,
    /// The chance of a cloud is no number between zero and one.
    CloudChance,
}

impl GameConfig {
    /// The settings that are used unless others are given: a chance of one
    /// in two for a cloud every two seconds, and a pair of pipes every five.
    pub open spec fn standard() -> GameConfig {
        GameConfig {
            cloud_period: CLOUD_SPAWN_PERIOD,
            pipe_period: PIPE_SPAWN_PERIOD,
            cloud_numerator: 1,
            cloud_denominator: 2,
        }
    }

    /// The first thing that is wrong with the configuration, if anything is.
    pub open spec fn fault(self) -> Option<ConfigError> {
        if self.cloud_period == 0 {
            Some(ConfigError::CloudPeriod)
        } else if self.pipe_period == 0 {
            Some(ConfigError::PipePeriod)
        } else if self.cloud_denominator == 0 || self.cloud_numerator > self.cloud_denominator {
            Some(ConfigError::CloudChance)
        } else {
            None
        }
    }

    /// Checks the configuration.
    pub fn validate(&self) -> (checked: Result<(), ConfigError>)
        ensures
            checked == match self.fault() {
                Some(error) => Err::<(), ConfigError>(error),
                None => Ok(()),
            },
    {
        if self.cloud_period == 0 {
            Err(ConfigError::CloudPeriod)
        } else if self.pipe_period == 0 {
            Err(ConfigError::PipePeriod)
        } else if self.cloud_denominator == 0 || self.cloud_numerator > self.cloud_denominator {
            Err(ConfigError::CloudChance)
        } else {
            Ok(())
        }
    }
}

impl Default for GameConfig {
    fn default() -> (config: GameConfig)
        ensures
            config == GameConfig::standard(),
            config.fault() is None,
    {
        GameConfig {
            cloud_period: CLOUD_SPAWN_PERIOD,
            pipe_period: PIPE_SPAWN_PERIOD,
            cloud_numerator: 1,
            cloud_denominator: 2,
        }
    }
}

} // verus!
