//! One fetch, one report.
//!
//! Each function here stands for one of the program's commands. It asks the
//! caller's `fetch` for what one endpoint returns, once, and computes what
//! is shown for the answer. How the fetch is made, and where the lines go,
//! is the caller's business.

use vstd::prelude::*;

use crate::endpoint::Endpoint;
use crate::line::{Line, LineView};
use crate::model::{ComponentInfo, IncidentInfo, MaintenanceInfo, StatusInfo, SummaryInfo};
use crate::outcome::{present, presented, FetchError};
use crate::render::Renderable;

verus! {

/// Whether `fetch` can be asked for what `endpoint` returns.
pub open spec fn can_fetch<T, F>(endpoint: Endpoint, fetch: F) -> bool where
    F: FnOnce(String) -> Result<T, FetchError>,
 {
    forall|url: String| url@ == endpoint.url_text() ==> call_requires(fetch, (url,))
}

/// Whether `out` is what is shown once `fetch` has been asked for what
/// `endpoint` returns: `fetch` was handed the endpoint's address, and `out`
/// is what is shown for its answer.
pub open spec fn shown_for<T, F>(endpoint: Endpoint, fetch: F, out: Seq<LineView>) -> bool where
    T: Renderable,
    F: FnOnce(String) -> Result<T, FetchError>,
 {
    exists|url: String, fetched: Result<T, FetchError>|
        url@ == endpoint.url_text() && #[trigger] call_ensures(fetch, (url,), fetched) && out
            == presented(fetched)
}

/// Asks `fetch` for what `endpoint` returns and computes what is shown for
/// the answer: the report of the payload, or the failure line alone.
pub fn report_on<T, F>(endpoint: Endpoint, fetch: F) -> (out: Vec<Line>) where
    T: Renderable,
    F: FnOnce(String) -> Result<T, FetchError>,

    requires
        can_fetch(endpoint, fetch),
    ensures
        shown_for(endpoint, fetch, out.deep_view()),
{
    let url = endpoint.url();
    let fetched = fetch(url);
    present(&fetched)
}

impl ComponentInfo {
    /// What is shown for the state of each component.
    pub fn print_info<F>(fetch: F) -> (out: Vec<Line>) where
        F: FnOnce(String) -> Result<ComponentInfo, FetchError>,

        requires
            can_fetch(Endpoint::Components, fetch),
        ensures
            shown_for(Endpoint::Components, fetch, out.deep_view()),
    {
        report_on(Endpoint::Components, fetch)
    }
}

impl MaintenanceInfo {
    /// What is shown for the maintenances that are under way.
    pub fn print_activate<F>(fetch: F) -> (out: Vec<Line>) where
        F: FnOnce(String) -> Result<MaintenanceInfo, FetchError>,

        requires
            can_fetch(Endpoint::ActiveMaintenance, fetch),
        ensures
            shown_for(Endpoint::ActiveMaintenance, fetch, out.deep_view()),
    {
        report_on(Endpoint::ActiveMaintenance, fetch)
    }

    /// What is shown for the most recent scheduled maintenances.
    pub fn print_all<F>(fetch: F) -> (out: Vec<Line>) where
        F: FnOnce(String) -> Result<MaintenanceInfo, FetchError>,

        requires
            can_fetch(Endpoint::AllMaintenance, fetch),
        ensures
            shown_for(Endpoint::AllMaintenance, fetch, out.deep_view()),
    {
        report_on(Endpoint::AllMaintenance, fetch)
    }

    /// What is shown for the maintenances to come.
    pub fn print_upcoming<F>(fetch: F) -> (out: Vec<Line>) where
        F: FnOnce(String) -> Result<MaintenanceInfo, FetchError>,

        requires
            can_fetch(Endpoint::UpcomingMaintenance, fetch),
        ensures
            shown_for(Endpoint::UpcomingMaintenance, fetch, out.deep_view()),
    {
        report_on(Endpoint::UpcomingMaintenance, fetch)
    }
}

impl StatusInfo {
    /// What is shown for the aggregate status.
    pub fn print_info<F>(fetch: F) -> (out: Vec<Line>) where
        F: FnOnce(String) -> Result<StatusInfo, FetchError>,

        requires
            can_fetch(Endpoint::Status, fetch),
        ensures
            shown_for(Endpoint::Status, fetch, out.deep_view()),
    {
        report_on(Endpoint::Status, fetch)
    }
}

impl SummaryInfo {
    /// What is shown for the summary.
    pub fn print_info<F>(fetch: F) -> (out: Vec<Line>) where
        F: FnOnce(String) -> Result<SummaryInfo, FetchError>,

        requires
            can_fetch(Endpoint::Summary, fetch),
        ensures
            shown_for(Endpoint::Summary, fetch, out.deep_view()),
    {
        report_on(Endpoint::Summary, fetch)
    }
}

impl IncidentInfo {
    /// What is shown for all incidents.
    pub fn print_all<F>(fetch: F) -> (out: Vec<Line>) where
        F: FnOnce(String) -> Result<IncidentInfo, FetchError>,

        requires
            can_fetch(Endpoint::AllIncidents, fetch),
        ensures
            shown_for(Endpoint::AllIncidents, fetch, out.deep_view()),
    {
        report_on(Endpoint::AllIncidents, fetch)
    }

    /// What is shown for the incidents that are not resolved.
    pub fn print_unresolved<F>(fetch: F) -> (out: Vec<Line>) where
        F: FnOnce(String) -> Result<IncidentInfo, FetchError>,

        requires
            can_fetch(Endpoint::UnresolvedIncidents, fetch),
        ensures
            shown_for(Endpoint::UnresolvedIncidents, fetch, out.deep_view()),
    {
        report_on(Endpoint::UnresolvedIncidents, fetch)
    }
}

} // verus!
