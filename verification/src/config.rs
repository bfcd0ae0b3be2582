use vstd::prelude::*;

verus! {

/// Minimum number of seconds that must elapse after a record's creation
/// before its deposit may be withdrawn.
pub const LOCK_DURATION_SECONDS: i64 = 10;

/// Amount of the reward credential minted to the submitter on a successful
/// withdrawal, in minor units (10 whole credentials at 6 decimal places).
pub const REWARD_AMOUNT: u64 = 10_000_000;

/// Protocol parameters, fixed when the system is initialized.
#[derive(Clone, Copy, Debug, PartialEq, Eq, Structural)]
pub struct Config {
    /// Seconds the deposit stays locked after a record's creation.
    pub lock_duration: i64,
    /// Credential minor-units minted on each successful withdrawal.
    pub reward_amount: u64,
}

impl Config {
    /// A configuration is well formed when its lock duration is not negative.
    pub open spec fn wf(self) -> bool {
        self.lock_duration >= 0
    }

    /// Builds a configuration; a negative lock duration is refused.
    pub fn new(lock_duration: i64, reward_amount: u64) -> (r: Option<Config>)
        ensures
            lock_duration >= 0 ==> r == Some(Config { lock_duration, reward_amount }),
            lock_duration < 0 ==> r is None,
    {
        if lock_duration >= 0 {
            Some(Config { lock_duration, reward_amount })
        } else {
            None
        }
    }

    /// The configuration with the protocol's standard constants.
    pub fn standard() -> (r: Config)
        ensures
            r == (Config { lock_duration: LOCK_DURATION_SECONDS, reward_amount: REWARD_AMOUNT }),
            r.wf(),
    {
        Config { lock_duration: LOCK_DURATION_SECONDS, reward_amount: REWARD_AMOUNT }
    }
}

} // verus!
