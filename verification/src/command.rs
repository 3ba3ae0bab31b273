//! What the program was asked to do, and what that comes to.

use vstd::prelude::*;

use crate::endpoint::Endpoint;
use crate::watch::WatchConfig;

verus! {

/// The program's arguments.
#[derive(Clone, Copy, Debug, PartialEq, Eq)]
pub struct Options {
    pub command: Command,
}

/// What the program was asked to do.
#[derive(Clone, Copy, Debug, PartialEq, Eq, Structural)]
pub enum Command {
    /// List the maintenances that are under way.
    ActiveMaintenance { pager: bool },
    /// List all incidents.
    AllIncidents { pager: bool },
    /// List the most recent scheduled maintenances.
    AllScheduledMaintenances { pager: bool },
    /// Show the state of each component.
    Component { pager: bool },
    /// Show the aggregate status.
    Status { pager: bool },
    /// Show the summary.
    Summary { pager: bool },
    /// List the incidents that are not resolved.
    UnresolvedIncidents { pager: bool },
    /// List the maintenances to come.
    UpcomingMaintenance { pager: bool },
    /// Keep showing the summary, with a pause of `duration` minutes before
    /// each fetch.
    Watch { duration: u64, cancel_when_operational: bool },
}

/// What a command comes to.
#[derive(Clone, Copy, Debug, PartialEq, Eq, Structural)]
pub enum Plan {
    /// Fetch one endpoint once and show its report, through a pager if
    /// asked to.
    Show { endpoint: Endpoint, pager: bool },
    /// Run the polling loop on the summary.
    Watch { config: WatchConfig },
}

impl Command {
    /// The endpoint that the command reads. The polling loop reads the
    /// summary.
    pub open spec fn endpoint_of(self) -> Endpoint {
        match self {
            Command::ActiveMaintenance { .. } => Endpoint::ActiveMaintenance,
            Command::AllIncidents { .. } => Endpoint::AllIncidents,
            Command::AllScheduledMaintenances { .. } => Endpoint::AllMaintenance,
            Command::Component { .. } => Endpoint::Components,
            Command::Status { .. } => Endpoint::Status,
            Command::Summary { .. } => Endpoint::Summary,
            Command::UnresolvedIncidents { .. } => Endpoint::UnresolvedIncidents,
            Command::UpcomingMaintenance { .. } => Endpoint::UpcomingMaintenance,
            Command::Watch { .. } => Endpoint::Summary,
        }
    }

    /// What the command comes to, where it comes to anything: a polling
    /// loop whose pause in seconds does not fit in 64 bits has no plan.
    pub open spec fn plan_of(self) -> Option<Plan> {
        match self {
            Command::ActiveMaintenance { pager }
            | Command::AllIncidents { pager }
            | Command::AllScheduledMaintenances { pager }
            | Command::Component { pager }
            | Command::Status { pager }
            | Command::Summary { pager }
            | Command::UnresolvedIncidents { pager }
            | Command::UpcomingMaintenance { pager } => Some(
                Plan::Show { endpoint: self.endpoint_of(), pager },
            ),
            Command::Watch { duration, cancel_when_operational } => if duration * 60 <= u64::MAX {
                Some(
                    Plan::Watch {
                        config: WatchConfig {
                            interval_secs: (duration * 60) as u64,
                            stop_on_operational: cancel_when_operational,
                        },
                    },
                )
            } else {
                None
            },
        }
    }

    /// The endpoint that the command reads.
    pub fn endpoint(&self) -> (endpoint: Endpoint)
        ensures
            endpoint == self.endpoint_of(),
    {
        match self {
            Command::ActiveMaintenance { .. } => Endpoint::ActiveMaintenance,
            Command::AllIncidents { .. } => Endpoint::AllIncidents,
            Command::AllScheduledMaintenances { .. } => Endpoint::AllMaintenance,
            Command::Component { .. } => Endpoint::Components,
            Command::Status { .. } => Endpoint::Status,
            Command::Summary { .. } => Endpoint::Summary,
            Command::UnresolvedIncidents { .. } => Endpoint::UnresolvedIncidents,
            Command::UpcomingMaintenance { .. } => Endpoint::UpcomingMaintenance,
            Command::Watch { .. } => Endpoint::Summary,
        }
    }

    /// What the command comes to.
    pub fn plan(&self) -> (plan: Option<Plan>)
        ensures
            plan == self.plan_of(),
    {
        match self {
            Command::Watch { duration, cancel_when_operational } => {
                match WatchConfig::from_minutes(*duration, *cancel_when_operational) {
                    Some(config) => Some(Plan::Watch { config }),
                    None => None,
                }
            },
            Command::ActiveMaintenance { pager }
            | Command::AllIncidents { pager }
            | Command::AllScheduledMaintenances { pager }
            | Command::Component { pager }
            | Command::Status { pager }
            | Command::Summary { pager }
            | Command::UnresolvedIncidents { pager }
            | Command::UpcomingMaintenance { pager } => Some(
                Plan::Show { endpoint: self.endpoint(), pager: *pager },
            ),
        }
    }
}

} // verus!
