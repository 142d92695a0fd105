//! Health and version of the service.

use crate::utils::clock::unix_now;
use vstd::prelude::*;

verus! {

/// How a dependency answered when it was pinged.
#[derive(Clone, Copy, Debug, PartialEq, Eq, Structural)]
pub enum Probe {
    /// It answered in time.
    Answered,
    /// It answered with an error, or could not be reached.
    Failed,
    /// It did not answer within five seconds.
    TimedOut,
}

/// How long a dependency is given to answer, in seconds.
pub const PROBE_TIMEOUT_SECS: u64 = 5;

impl Probe {
    /// `up` for a dependency that answered, `down` for any other.
    pub open spec fn label(self) -> Seq<char> {
        match self {
            Probe::Answered => "up"@,
            _ => "down"@,
        }
    }

    /// `up` for a dependency that answered, `down` for any other.
    pub fn status(self) -> (text: &'static str)
        ensures
            text@ == self.label(),
    {
        match self {
            Probe::Answered => "up",
            _ => "down",
        }
    }
}

/// The state of the service and of what it depends on.
#[derive(Debug)]
pub struct Health {
    pub status: String,
    /// Seconds since the service started.
    pub uptime: u64,
    pub mongo: String,
    pub redis: String,
    /// The second at which the report was made.
    pub timestamp: i64,
}

/// The health report at the second `timestamp`. The service itself is `ok`
/// whenever it can answer at all.
pub fn get_health_at(uptime: u64, mongo: Probe, redis: Probe, timestamp: i64) -> (health: Health)
    ensures
        health.status@ == "ok"@,
        health.uptime == uptime,
        health.mongo@ == mongo.label(),
        health.redis@ == redis.label(),
        health.timestamp == timestamp,
{
    Health {
        status: "ok".to_owned(),
        uptime,
        mongo: mongo.status().to_owned(),
        redis: redis.status().to_owned(),
        timestamp,
    }
}

/// The health report now.
pub fn get_health(uptime: u64, mongo: Probe, redis: Probe) -> (health: Health)
    ensures
        health.status@ == "ok"@,
        health.uptime == uptime,
        health.mongo@ == mongo.label(),
        health.redis@ == redis.label(),
        health.timestamp >= 0,
{
    get_health_at(uptime, mongo, redis, unix_now())
}

/// The version of the service and the commit it was built from.
#[derive(Debug)]
pub struct Version {
    pub version: String,
    pub git_hash: String,
}

/// The version report; a build that does not know its commit says `unknown`.
pub fn get_version(version: &str, git_hash: Option<&str>) -> (report: Version)
    ensures
        report.version@ == version@,
        report.git_hash@ == (match git_hash {
            Some(hash) => hash@,
            None => "unknown"@,
        }),
{
    let hash = match git_hash {
        Some(hash) => hash,
        None => "unknown",
    };
    Version { version: version.to_owned(), git_hash: hash.to_owned() }
}

} // verus!
