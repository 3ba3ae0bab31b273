//! The payloads of the status page, as they arrive from its endpoints.
//!
//! Each type holds the fields of one JSON object; a field that the page may
//! leave out is an `Option`. Nothing here is checked beyond its shape: a
//! severity word that the page invents tomorrow is kept as it came.

use vstd::prelude::*;

use crate::line::Text;

verus! {

/// The status page itself. Every envelope carries exactly one.
#[derive(Clone, Debug, PartialEq, Eq)]
pub struct Page {
    pub id: String,
    pub name: String,
    pub url: String,
    pub updated_at: Option<String>,
}

/// The value of a [`Page`].
pub struct PageView {
    pub id: Text,
    pub name: Text,
    pub url: Text,
    pub updated_at: Option<Text>,
}

impl View for Page {
    type V = PageView;

    open spec fn view(&self) -> PageView {
        PageView {
            id: self.id@,
            name: self.name@,
            url: self.url@,
            updated_at: self.updated_at.deep_view(),
        }
    }
}

impl DeepView for Page {
    type V = PageView;

    open spec fn deep_view(&self) -> PageView {
        self@
    }
}

/// The aggregate state of the service.
#[derive(Clone, Debug, PartialEq, Eq)]
pub struct Status {
    pub description: String,
    /// One of `none`, `minor`, `major`, `critical`, or a word not known here.
    pub indicator: String,
}

/// The value of a [`Status`].
pub struct StatusView {
    pub description: Text,
    pub indicator: Text,
}

impl View for Status {
    type V = StatusView;

    open spec fn view(&self) -> StatusView {
        StatusView { description: self.description@, indicator: self.indicator@ }
    }
}

impl DeepView for Status {
    type V = StatusView;

    open spec fn deep_view(&self) -> StatusView {
        self@
    }
}

/// One part of the service.
#[derive(Clone, Debug, PartialEq, Eq)]
pub struct Component {
    pub created_at: Option<String>,
    /// A component without a description is not shown.
    pub description: Option<String>,
    pub id: String,
    pub name: String,
    pub page_id: String,
    pub position: u8,
    /// One of `operational`, `degraded_performance`, `partial_outage`,
    /// `major_outage`, or a word not known here.
    pub status: String,
    pub updated_at: Option<String>,
}

/// The value of a [`Component`].
pub struct ComponentView {
    pub created_at: Option<Text>,
    pub description: Option<Text>,
    pub id: Text,
    pub name: Text,
    pub page_id: Text,
    pub position: nat,
    pub status: Text,
    pub updated_at: Option<Text>,
}

impl View for Component {
    type V = ComponentView;

    open spec fn view(&self) -> ComponentView {
        ComponentView {
            created_at: self.created_at.deep_view(),
            description: self.description.deep_view(),
            id: self.id@,
            name: self.name@,
            page_id: self.page_id@,
            position: self.position as nat,
            status: self.status@,
            updated_at: self.updated_at.deep_view(),
        }
    }
}

impl DeepView for Component {
    type V = ComponentView;

    open spec fn deep_view(&self) -> ComponentView {
        self@
    }
}

/// One entry in the history of an incident or a maintenance.
#[derive(Clone, Debug, PartialEq, Eq)]
pub struct IncidentUpdate {
    pub body: String,
    pub created_at: Option<String>,
    pub display_at: Option<String>,
    pub id: String,
    pub incident_id: String,
    pub status: String,
    pub updated_at: Option<String>,
}

/// The value of an [`IncidentUpdate`].
pub struct IncidentUpdateView {
    pub body: Text,
    pub created_at: Option<Text>,
    pub display_at: Option<Text>,
    pub id: Text,
    pub incident_id: Text,
    pub status: Text,
    pub updated_at: Option<Text>,
}

impl View for IncidentUpdate {
    type V = IncidentUpdateView;

    open spec fn view(&self) -> IncidentUpdateView {
        IncidentUpdateView {
            body: self.body@,
            created_at: self.created_at.deep_view(),
            display_at: self.display_at.deep_view(),
            id: self.id@,
            incident_id: self.incident_id@,
            status: self.status@,
            updated_at: self.updated_at.deep_view(),
        }
    }
}

impl DeepView for IncidentUpdate {
    type V = IncidentUpdateView;

    open spec fn deep_view(&self) -> IncidentUpdateView {
        self@
    }
}

/// Something that went wrong.
#[derive(Clone, Debug, PartialEq, Eq)]
pub struct Incident {
    pub created_at: Option<String>,
    pub id: String,
    /// One of `none`, `minor`, `major`, `critical`, or a word not known here.
    pub impact: String,
    /// The history, in the order in which the page gave it.
    pub incident_updates: Option<Vec<IncidentUpdate>>,
    pub monitoring_at: Option<String>,
    pub name: String,
    pub page_id: String,
    pub resolved_at: Option<String>,
    pub shortlink: String,
    pub status: String,
    pub updated_at: Option<String>,
}

/// The value of an [`Incident`].
pub struct IncidentView {
    pub created_at: Option<Text>,
    pub id: Text,
    pub impact: Text,
    pub incident_updates: Option<Seq<IncidentUpdateView>>,
    pub monitoring_at: Option<Text>,
    pub name: Text,
    pub page_id: Text,
    pub resolved_at: Option<Text>,
    pub shortlink: Text,
    pub status: Text,
    pub updated_at: Option<Text>,
}

impl View for Incident {
    type V = IncidentView;

    open spec fn view(&self) -> IncidentView {
        IncidentView {
            created_at: self.created_at.deep_view(),
            id: self.id@,
            impact: self.impact@,
            incident_updates: self.incident_updates.deep_view(),
            monitoring_at: self.monitoring_at.deep_view(),
            name: self.name@,
            page_id: self.page_id@,
            resolved_at: self.resolved_at.deep_view(),
            shortlink: self.shortlink@,
            status: self.status@,
            updated_at: self.updated_at.deep_view(),
        }
    }
}

impl DeepView for Incident {
    type V = IncidentView;

    open spec fn deep_view(&self) -> IncidentView {
        self@
    }
}

/// A planned interruption: an incident with a time window.
#[derive(Clone, Debug, PartialEq, Eq)]
pub struct ScheduledMaintenance {
    pub created_at: Option<String>,
    pub id: String,
    pub impact: String,
    pub incident_updates: Option<Vec<IncidentUpdate>>,
    pub monitoring_at: Option<String>,
    pub name: String,
    pub page_id: String,
    pub resolved_at: Option<String>,
    pub scheduled_for: String,
    pub scheduled_until: String,
    pub shortlink: String,
    pub status: String,
    pub updated_at: Option<String>,
}

/// The value of a [`ScheduledMaintenance`].
pub struct ScheduledMaintenanceView {
    pub created_at: Option<Text>,
    pub id: Text,
    pub impact: Text,
    pub incident_updates: Option<Seq<IncidentUpdateView>>,
    pub monitoring_at: Option<Text>,
    pub name: Text,
    pub page_id: Text,
    pub resolved_at: Option<Text>,
    pub scheduled_for: Text,
    pub scheduled_until: Text,
    pub shortlink: Text,
    pub status: Text,
    pub updated_at: Option<Text>,
}

impl ScheduledMaintenanceView {
    /// The maintenance without its time window.
    pub open spec fn as_incident(self) -> IncidentView {
        IncidentView {
            created_at: self.created_at,
            id: self.id,
            impact: self.impact,
            incident_updates: self.incident_updates,
            monitoring_at: self.monitoring_at,
            name: self.name,
            page_id: self.page_id,
            resolved_at: self.resolved_at,
            shortlink: self.shortlink,
            status: self.status,
            updated_at: self.updated_at,
        }
    }
}

impl View for ScheduledMaintenance {
    type V = ScheduledMaintenanceView;

    open spec fn view(&self) -> ScheduledMaintenanceView {
        ScheduledMaintenanceView {
            created_at: self.created_at.deep_view(),
            id: self.id@,
            impact: self.impact@,
            incident_updates: self.incident_updates.deep_view(),
            monitoring_at: self.monitoring_at.deep_view(),
            name: self.name@,
            page_id: self.page_id@,
            resolved_at: self.resolved_at.deep_view(),
            scheduled_for: self.scheduled_for@,
            scheduled_until: self.scheduled_until@,
            shortlink: self.shortlink@,
            status: self.status@,
            updated_at: self.updated_at.deep_view(),
        }
    }
}

impl DeepView for ScheduledMaintenance {
    type V = ScheduledMaintenanceView;

    open spec fn deep_view(&self) -> ScheduledMaintenanceView {
        self@
    }
}

/// What the status endpoint returns.
#[derive(Clone, Debug, PartialEq, Eq)]
pub struct StatusInfo {
    pub page: Page,
    pub status: Status,
}

/// The value of a [`StatusInfo`].
pub struct StatusInfoView {
    pub page: PageView,
    pub status: StatusView,
}

impl View for StatusInfo {
    type V = StatusInfoView;

    open spec fn view(&self) -> StatusInfoView {
        StatusInfoView { page: self.page@, status: self.status@ }
    }
}

impl DeepView for StatusInfo {
    type V = StatusInfoView;

    open spec fn deep_view(&self) -> StatusInfoView {
        self@
    }
}

/// What the components endpoint returns.
#[derive(Clone, Debug, PartialEq, Eq)]
pub struct ComponentInfo {
    pub page: Page,
    pub components: Vec<Component>,
}

/// The value of a [`ComponentInfo`].
pub struct ComponentInfoView {
    pub page: PageView,
    pub components: Seq<ComponentView>,
}

impl View for ComponentInfo {
    type V = ComponentInfoView;

    open spec fn view(&self) -> ComponentInfoView {
        ComponentInfoView { page: self.page@, components: self.components.deep_view() }
    }
}

impl DeepView for ComponentInfo {
    type V = ComponentInfoView;

    open spec fn deep_view(&self) -> ComponentInfoView {
        self@
    }
}

/// What the incident endpoints return.
#[derive(Clone, Debug, PartialEq, Eq)]
pub struct IncidentInfo {
    pub page: Page,
    pub incidents: Vec<Incident>,
}

/// The value of an [`IncidentInfo`].
pub struct IncidentInfoView {
    pub page: PageView,
    pub incidents: Seq<IncidentView>,
}

impl View for IncidentInfo {
    type V = IncidentInfoView;

    open spec fn view(&self) -> IncidentInfoView {
        IncidentInfoView { page: self.page@, incidents: self.incidents.deep_view() }
    }
}

impl DeepView for IncidentInfo {
    type V = IncidentInfoView;

    open spec fn deep_view(&self) -> IncidentInfoView {
        self@
    }
}

/// What the maintenance endpoints return.
#[derive(Clone, Debug, PartialEq, Eq)]
pub struct MaintenanceInfo {
    pub page: Page,
    pub scheduled_maintenances: Vec<ScheduledMaintenance>,
}

/// The value of a [`MaintenanceInfo`].
pub struct MaintenanceInfoView {
    pub page: PageView,
    pub scheduled_maintenances: Seq<ScheduledMaintenanceView>,
}

impl View for MaintenanceInfo {
    type V = MaintenanceInfoView;

    open spec fn view(&self) -> MaintenanceInfoView {
        MaintenanceInfoView {
            page: self.page@,
            scheduled_maintenances: self.scheduled_maintenances.deep_view(),
        }
    }
}

impl DeepView for MaintenanceInfo {
    type V = MaintenanceInfoView;

    open spec fn deep_view(&self) -> MaintenanceInfoView {
        self@
    }
}

/// What the summary endpoint returns: everything at once.
#[derive(Clone, Debug, PartialEq, Eq)]
pub struct SummaryInfo {
    pub page: Page,
    pub status: Status,
    pub components: Vec<Component>,
    pub incidents: Vec<Incident>,
    pub scheduled_maintenances: Vec<ScheduledMaintenance>,
}

/// The value of a [`SummaryInfo`].
pub struct SummaryInfoView {
    pub page: PageView,
    pub status: StatusView,
    pub components: Seq<ComponentView>,
    pub incidents: Seq<IncidentView>,
    pub scheduled_maintenances: Seq<ScheduledMaintenanceView>,
}

impl View for SummaryInfo {
    type V = SummaryInfoView;

    open spec fn view(&self) -> SummaryInfoView {
        SummaryInfoView {
            page: self.page@,
            status: self.status@,
            components: self.components.deep_view(),
            incidents: self.incidents.deep_view(),
            scheduled_maintenances: self.scheduled_maintenances.deep_view(),
        }
    }
}

impl DeepView for SummaryInfo {
    type V = SummaryInfoView;

    open spec fn deep_view(&self) -> SummaryInfoView {
        self@
    }
}

} // verus!
