//! The health endpoint: what the service says of the two stores it depends on.

use vstd::prelude::*;

verus! {

/// The state of one store.
#[derive(Debug, Clone, PartialEq, Eq)]
pub struct ServiceHealth {
    pub status: String,
    pub latency_ms: Option<u64>,
    pub error: Option<String>,
}

/// The state of the service.
#[derive(Debug, Clone, PartialEq, Eq)]
pub struct HealthResponse {
    pub status: String,
    pub clickhouse: ServiceHealth,
    pub redis: ServiceHealth,
    pub version: String,
}

impl ServiceHealth {
    /// Whether this is the state of a store whose check came to `outcome`: connected with
    /// the latency where it answered, in error with the message where it did not.
    pub open spec fn describes(self, outcome: Result<u64, String>) -> bool {
        match outcome {
            Ok(latency_ms) => {
                &&& self.status@ == "connected"@
                &&& self.latency_ms == Some(latency_ms)
                &&& self.error is None
            },
            Err(message) => {
                &&& self.status@ == "error"@
                &&& self.latency_ms is None
                &&& self.error == Some(message)
            },
        }
    }

    /// The state of a store by what its check came to.
    pub fn from_check(outcome: Result<u64, String>) -> (health: ServiceHealth)
        ensures
            health.describes(outcome),
    {
        match outcome {
            Ok(latency_ms) => ServiceHealth {
                status: "connected".to_owned(),
                latency_ms: Some(latency_ms),
                error: None,
            },
            Err(message) => ServiceHealth {
                status: "error".to_owned(),
                latency_ms: None,
                error: Some(message),
            },
        }
    }
}

/// The status of the answer: 200 where both stores answered, 503 otherwise.
pub open spec fn health_status(healthy: bool) -> u16 {
    if healthy {
        200
    } else {
        503
    }
}

/// The state of the service by the checks of its two stores: healthy where both answered,
/// degraded otherwise.
pub fn report(
    clickhouse: Result<u64, String>,
    redis: Result<u64, String>,
    version: &str,
) -> (result: (u16, HealthResponse))
    ensures
        result.0 == health_status(clickhouse is Ok && redis is Ok),
        result.1.status@ == (if clickhouse is Ok && redis is Ok {
            "healthy"@
        } else {
            "degraded"@
        }),
        result.1.clickhouse.describes(clickhouse),
        result.1.redis.describes(redis),
        result.1.version@ == version@,
{
    let healthy = clickhouse.is_ok() && redis.is_ok();
    let response = HealthResponse {
        status: if healthy {
            "healthy".to_owned()
        } else {
            "degraded".to_owned()
        },
        clickhouse: ServiceHealth::from_check(clickhouse),
        redis: ServiceHealth::from_check(redis),
        version: version.to_owned(),
    };
    (if healthy {
        200
    } else {
        503
    }, response)
}

} // verus!
