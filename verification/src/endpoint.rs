//! The endpoints of the status page.

use vstd::prelude::*;
use vstd::string::*;

use crate::line::Text;

verus! {

/// One of the page's JSON endpoints. Each is a fixed address that takes no
/// parameters.
#[derive(Clone, Copy, Debug, PartialEq, Eq, Structural)]
pub enum Endpoint {
    Status,
    Summary,
    Components,
    AllIncidents,
    UnresolvedIncidents,
    ActiveMaintenance,
    AllMaintenance,
    UpcomingMaintenance,
}

/// Where the status page lives.
pub open spec fn site() -> Text {
    "https://www.githubstatus.com"@
}

impl Endpoint {
    /// The endpoint's path below the site.
    pub open spec fn path_text(self) -> Text {
        match self {
            Endpoint::Status => "/api/v2/status.json"@,
            Endpoint::Summary => "/api/v2/summary.json"@,
            Endpoint::Components => "/api/v2/components.json"@,
            Endpoint::AllIncidents => "/api/v2/incidents.json"@,
            Endpoint::UnresolvedIncidents => "/api/v2/incidents/unresolved.json"@,
            Endpoint::ActiveMaintenance => "/api/v2/scheduled-maintenances/active.json"@,
            Endpoint::AllMaintenance => "/api/v2/scheduled-maintenances.json"@,
            Endpoint::UpcomingMaintenance => "/api/v2/scheduled-maintenances/upcoming.json"@,
        }
    }

    /// The endpoint's full address.
    pub open spec fn url_text(self) -> Text {
        site() + self.path_text()
    }

    /// The endpoint's path below the site.
    pub fn path(&self) -> (path: &'static str)
        ensures
            path@ == self.path_text(),
    {
        match self {
            Endpoint::Status => "/api/v2/status.json",
            Endpoint::Summary => "/api/v2/summary.json",
            Endpoint::Components => "/api/v2/components.json",
            Endpoint::AllIncidents => "/api/v2/incidents.json",
            Endpoint::UnresolvedIncidents => "/api/v2/incidents/unresolved.json",
            Endpoint::ActiveMaintenance => "/api/v2/scheduled-maintenances/active.json",
            Endpoint::AllMaintenance => "/api/v2/scheduled-maintenances.json",
            Endpoint::UpcomingMaintenance => "/api/v2/scheduled-maintenances/upcoming.json",
        }
    }

    /// The endpoint's full address: what a fetch is sent to.
    pub fn url(&self) -> (url: String)
        ensures
            url@ == self.url_text(),
    {
        let mut url = String::from_str("https://www.githubstatus.com");
        url.append(self.path());
        url
    }
}

/// How long each endpoint's path is.
pub proof fn lemma_path_lengths()
    ensures
        Endpoint::Status.path_text().len() == 19,
        Endpoint::Summary.path_text().len() == 20,
        Endpoint::Components.path_text().len() == 23,
        Endpoint::AllIncidents.path_text().len() == 22,
        Endpoint::UnresolvedIncidents.path_text().len() == 33,
        Endpoint::ActiveMaintenance.path_text().len() == 42,
        Endpoint::AllMaintenance.path_text().len() == 35,
        Endpoint::UpcomingMaintenance.path_text().len() == 44,
{
    reveal_strlit("/api/v2/status.json");
    reveal_strlit("/api/v2/summary.json");
    reveal_strlit("/api/v2/components.json");
    reveal_strlit("/api/v2/incidents.json");
    reveal_strlit("/api/v2/incidents/unresolved.json");
    reveal_strlit("/api/v2/scheduled-maintenances/active.json");
    reveal_strlit("/api/v2/scheduled-maintenances.json");
    reveal_strlit("/api/v2/scheduled-maintenances/upcoming.json");
}

/// No two endpoints share an address.
pub proof fn lemma_addresses_differ(a: Endpoint, b: Endpoint)
    requires
        a != b,
    ensures
        a.path_text() != b.path_text(),
        a.url_text() != b.url_text(),
{
    lemma_path_lengths();
    assert(a.path_text().len() != b.path_text().len());
    assert(a.url_text().len() == site().len() + a.path_text().len());
    assert(b.url_text().len() == site().len() + b.path_text().len());
}

} // verus!
