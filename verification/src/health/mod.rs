//! What the service reports of its own health, given what a probe of the
//! document store found.

use vstd::prelude::*;
use vstd::string::StringExecFns;

verus! {

/// What a probe found of the document store.
#[derive(Debug)]
pub struct DatabaseStatus {
    pub connected: bool,
    pub database_name: String,
    pub ping_response_time_ms: Option<u64>,
    pub error: Option<String>,
}

/// The health of the service.
#[derive(Debug)]
pub struct HealthStatus {
    pub status: String,
    pub database: DatabaseStatus,
    pub timestamp: String,
    pub version: String,
}

/// The text that reports a failed probe.
pub open spec fn connection_error(failure: Seq<char>) -> Seq<char> {
    "Database connection error: "@ + failure
}

/// The status code of a service that is up.
pub const OK: u16 = 200;

/// The status code of a service that cannot serve.
pub const SERVICE_UNAVAILABLE: u16 = 503;

impl DatabaseStatus {
    /// The status after a probe, given the text of the probe's failure where
    /// it failed. The time that the probe took is filled in by
    /// `HealthStatus::assemble`.
    pub fn after_ping(database_name: String, failure: Option<String>) -> (status: DatabaseStatus)
        ensures
            status.connected == (failure is None),
            status.database_name == database_name,
            status.ping_response_time_ms is None,
            failure is None ==> status.error is None,
            failure matches Some(text) ==> status.error matches Some(error) && error@
                == connection_error(text@),
    {
        match failure {
            None => DatabaseStatus {
                connected: true,
                database_name,
                ping_response_time_ms: None,
                error: None,
            },
            Some(text) => DatabaseStatus {
                connected: false,
                database_name,
                ping_response_time_ms: None,
                error: Some("Database connection error: ".to_owned().concat(text.as_str())),
            },
        }
    }
}

impl HealthStatus {
    /// The health of the service after a probe that took `elapsed_ms`
    /// milliseconds: healthy exactly if the store answered, and only then
    /// with the time that the probe took.
    pub fn assemble(
        database: DatabaseStatus,
        elapsed_ms: u64,
        timestamp: String,
        version: String,
    ) -> (health: HealthStatus)
        ensures
            health.status@ == (if database.connected {
                "healthy"@
            } else {
                "unhealthy"@
            }),
            health.database.connected == database.connected,
            health.database.database_name == database.database_name,
            health.database.ping_response_time_ms == (if database.connected {
                Some(elapsed_ms)
            } else {
                None
            }),
            health.database.error == database.error,
            health.timestamp == timestamp,
            health.version == version,
    {
        let ping_time = if database.connected {
            Some(elapsed_ms)
        } else {
            None
        };
        let overall_status = if database.connected {
            "healthy"
        } else {
            "unhealthy"
        };
        HealthStatus {
            status: overall_status.to_owned(),
            database: DatabaseStatus {
                connected: database.connected,
                database_name: database.database_name,
                ping_response_time_ms: ping_time,
                error: database.error,
            },
            timestamp,
            version,
        }
    }

    /// The status code under which the health is reported.
    pub fn status_code(&self) -> (code: u16)
        ensures
            code == (if self.status@ == "healthy"@ {
                OK
            } else {
                SERVICE_UNAVAILABLE
            }),
    {
        let healthy: String = "healthy".to_owned();
        if self.status == healthy {
            OK
        } else {
            SERVICE_UNAVAILABLE
        }
    }

    /// The status code under which readiness is reported: ready exactly if
    /// the store answered.
    pub fn readiness_status_code(&self) -> (code: u16)
        ensures
            code == (if self.database.connected {
                OK
            } else {
                SERVICE_UNAVAILABLE
            }),
    {
        if self.database.connected {
            OK
        } else {
            SERVICE_UNAVAILABLE
        }
    }
}

} // verus!
