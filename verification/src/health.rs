//! One of three health states, folded from what the storage probe and the
//! metrics collector say.

use vstd::prelude::*;
use crate::metrics::Metrics;

verus! {

/// Overall state of the service.
#[derive(Debug, Clone, Copy, PartialEq, Eq, Structural)]
pub enum HealthStatus {
    /// Storage and metrics are both fine.
    Healthy,
    /// Exactly one of the two is not.
    Degraded,
    /// Neither is.
    Unhealthy,
}

impl HealthStatus {
    /// The status that two probe results amount to.
    pub open spec fn of(database_healthy: bool, metrics_healthy: bool) -> HealthStatus {
        if database_healthy && metrics_healthy {
            HealthStatus::Healthy
        } else if database_healthy || metrics_healthy {
            HealthStatus::Degraded
        } else {
            HealthStatus::Unhealthy
        }
    }

    /// The status code that monitoring sees: 200 when healthy, 503 otherwise.
    pub open spec fn code(self) -> u16 {
        match self {
            HealthStatus::Healthy => 200,
            HealthStatus::Degraded => 503,
            HealthStatus::Unhealthy => 503,
        }
    }

    /// Whether the service still works, fully or in part.
    pub fn is_operational(&self) -> (operational: bool)
        ensures
            operational == (*self != HealthStatus::Unhealthy),
    {
        match self {
            HealthStatus::Healthy => true,
            HealthStatus::Degraded => true,
            HealthStatus::Unhealthy => false,
        }
    }

    /// The status code that monitoring sees.
    pub fn status_code(&self) -> (code: u16)
        ensures
            code == self.code(),
    {
        match self {
            HealthStatus::Healthy => 200,
            HealthStatus::Degraded => 503,
            HealthStatus::Unhealthy => 503,
        }
    }
}

/// Result of one health check.
#[derive(Debug, Clone)]
pub struct HealthCheck {
    /// Overall status.
    pub status: HealthStatus,
    /// Whether the storage probe succeeded.
    pub database_healthy: bool,
    /// Whether the metrics collector reported itself healthy.
    pub metrics_healthy: bool,
    /// Whether a content surface is available; true for as long as the
    /// process runs.
    pub webview_healthy: bool,
    /// The verdict in words.
    pub message: String,
}

/// The words that go with a verdict.
pub open spec fn verdict_message(database_healthy: bool, metrics_healthy: bool) -> Seq<char> {
    if database_healthy && metrics_healthy {
        "All systems operational"@
    } else if metrics_healthy {
        "Degraded: database unreachable"@
    } else if database_healthy {
        "Degraded: high error rate"@
    } else {
        "Multiple systems failing"@
    }
}

impl HealthCheck {
    /// Whether this is the check that the two probe results call for.
    pub open spec fn reports(self, database_healthy: bool, metrics_healthy: bool) -> bool {
        &&& self.status == HealthStatus::of(database_healthy, metrics_healthy)
        &&& self.database_healthy == database_healthy
        &&& self.metrics_healthy == metrics_healthy
        &&& self.webview_healthy
        &&& self.message@ == verdict_message(database_healthy, metrics_healthy)
    }

    /// Folds the two probe results into a verdict.
    pub fn assess(database_healthy: bool, metrics_healthy: bool) -> (check: HealthCheck)
        ensures
            check.reports(database_healthy, metrics_healthy),
    {
        let status = if database_healthy && metrics_healthy {
            HealthStatus::Healthy
        } else if database_healthy || metrics_healthy {
            HealthStatus::Degraded
        } else {
            HealthStatus::Unhealthy
        };
        let message = match status {
            HealthStatus::Healthy => "All systems operational".to_owned(),
            HealthStatus::Degraded => {
                if !database_healthy {
                    "Degraded: database unreachable".to_owned()
                } else {
                    "Degraded: high error rate".to_owned()
                }
            },
            HealthStatus::Unhealthy => "Multiple systems failing".to_owned(),
        };
        HealthCheck { status, database_healthy, metrics_healthy, webview_healthy: true, message }
    }

    /// Ready to take requests: the status is `Healthy`.
    pub fn is_ready(&self) -> (ready: bool)
        ensures
            ready == (self.status == HealthStatus::Healthy),
    {
        self.status == HealthStatus::Healthy
    }

    /// Alive: the status is `Healthy` or `Degraded`.
    pub fn is_alive(&self) -> (alive: bool)
        ensures
            alive == (self.status != HealthStatus::Unhealthy),
    {
        self.status.is_operational()
    }
}

/// Aggregates the storage probe and the metrics collector into a verdict. It
/// owns no state: the result of the probe and the collector are handed in.
#[derive(Debug, Clone, Copy)]
pub struct HealthChecker {}

impl HealthChecker {
    /// A health checker.
    pub fn new() -> (checker: Self) {
        HealthChecker {  }
    }

    /// The verdict at `now` on the collector's clock.
    pub fn check_health_at(&self, metrics: &Metrics, database_healthy: bool, now: u64) -> (check:
        HealthCheck)
        ensures
            check.reports(database_healthy, metrics@.healthy_at(now)),
    {
        HealthCheck::assess(database_healthy, metrics.is_healthy_at(now))
    }

    /// The verdict as of now.
    pub fn check_health(&self, metrics: &Metrics, database_healthy: bool) -> (check: HealthCheck)
        ensures
            exists|now: u64|
                check.reports(database_healthy, #[trigger] metrics@.healthy_at(now)),
    {
        let now = metrics.now();
        self.check_health_at(metrics, database_healthy, now)
    }

    /// Whether the process is alive. Whoever can ask is.
    pub fn check_liveness(&self) -> (alive: bool)
        ensures
            alive,
    {
        true
    }

    /// Whether requests can be handled at `now`: storage reachable and
    /// metrics healthy.
    pub fn check_readiness_at(&self, metrics: &Metrics, database_healthy: bool, now: u64) -> (ready:
        bool)
        ensures
            ready == (HealthStatus::of(database_healthy, metrics@.healthy_at(now))
                == HealthStatus::Healthy),
            ready == (database_healthy && metrics@.healthy_at(now)),
    {
        self.check_health_at(metrics, database_healthy, now).is_ready()
    }

    /// Whether requests can be handled now.
    pub fn check_readiness(&self, metrics: &Metrics, database_healthy: bool) -> (ready: bool)
        ensures
            exists|now: u64|
                ready == (HealthStatus::of(database_healthy, #[trigger] metrics@.healthy_at(now))
                    == HealthStatus::Healthy),
    {
        let now = metrics.now();
        self.check_readiness_at(metrics, database_healthy, now)
    }

    /// The status code of the verdict at `now`.
    pub fn get_status_code_at(&self, metrics: &Metrics, database_healthy: bool, now: u64) -> (code:
        u16)
        ensures
            code == HealthStatus::of(database_healthy, metrics@.healthy_at(now)).code(),
    {
        self.check_health_at(metrics, database_healthy, now).status.status_code()
    }

    /// The status code of the verdict as of now.
    pub fn get_status_code(&self, metrics: &Metrics, database_healthy: bool) -> (code: u16)
        ensures
            exists|now: u64|
                code == HealthStatus::of(
                    database_healthy,
                    #[trigger] metrics@.healthy_at(now),
                ).code(),
    {
        let now = metrics.now();
        self.get_status_code_at(metrics, database_healthy, now)
    }
}

} // verus!
