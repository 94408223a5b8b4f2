//! What the health endpoints report.

use vstd::prelude::*;

verus! {

/// The name the service reports for itself.
pub const SERVICE_NAME: &'static str = "finstack-api";

/// A health report: the overall state, the state of the database where it
/// was probed, and the status of the response.
#[derive(Clone, Debug, PartialEq, Eq)]
pub struct HealthReport {
    pub status: String,
    pub database: Option<String>,
    pub http_status: u16,
}

/// A `HealthReport` as contracts see it.
pub struct HealthReportView {
    pub status: Seq<char>,
    pub database: Option<Seq<char>>,
    pub http_status: u16,
}

impl View for HealthReport {
    type V = HealthReportView;

    open spec fn view(&self) -> HealthReportView {
        HealthReportView {
            status: self.status@,
            database: match self.database {
                Some(state) => Some(state@),
                None => None,
            },
            http_status: self.http_status,
        }
    }
}

/// The word for a state.
pub open spec fn state_word(healthy: bool) -> Seq<char> {
    if healthy {
        "healthy"@
    } else {
        "unhealthy"@
    }
}

/// The report of the plain probe: the service answers, so it is healthy.
pub open spec fn plain_report() -> HealthReportView {
    HealthReportView { status: state_word(true), database: None, http_status: 200 }
}

/// The report of the detailed probe: the service is as healthy as its
/// database is reachable, and answers 503 when it is not.
pub open spec fn detailed_report(database_reachable: bool) -> HealthReportView {
    HealthReportView {
        status: state_word(database_reachable),
        database: Some(state_word(database_reachable)),
        http_status: if database_reachable {
            200
        } else {
            503
        },
    }
}

fn word(healthy: bool) -> (text: String)
    ensures
        text@ == state_word(healthy),
{
    if healthy {
        "healthy".to_owned()
    } else {
        "unhealthy".to_owned()
    }
}

/// The report of the plain probe.
pub fn health_check() -> (report: HealthReport)
    ensures
        report@ == plain_report(),
{
    HealthReport { status: word(true), database: None, http_status: 200 }
}

/// The report of the detailed probe, given whether a connection to the
/// database could be had.
pub fn health_check_detailed(database_reachable: bool) -> (report: HealthReport)
    ensures
        report@ == detailed_report(database_reachable),
{
    HealthReport {
        status: word(database_reachable),
        database: Some(word(database_reachable)),
        http_status: if database_reachable {
            200
        } else {
            503
        },
    }
}

} // verus!
