//! A client-side model of a hosted status page: the typed payloads of its
//! JSON endpoints, the rules that turn each payload into display lines, the
//! table of endpoints, and the decisions of the polling loop.
//!
//! Every report is computed as data first: a sequence of [`Line`]s, each
//! carrying its text and the [`Marker`] that says how severe its subject is.
//! Fetching payloads, parsing arguments and writing to the terminal are left
//! to the program around this library.

pub mod command;
pub mod endpoint;
pub mod fetch;
pub mod laws;
pub mod line;
pub mod model;
pub mod outcome;
pub mod paint;
pub mod render;
pub mod severity;
pub mod watch;

pub use command::{Command, Options, Plan};
pub use endpoint::Endpoint;
pub use fetch::report_on;
pub use line::{Line, LineView, Marker, Text};
pub use model::{
    Component, ComponentInfo, Incident, IncidentInfo, IncidentUpdate, MaintenanceInfo, Page,
    ScheduledMaintenance, Status, StatusInfo, SummaryInfo,
};
pub use outcome::{present, FetchError};
pub use render::Renderable;
pub use watch::{Next, WatchConfig, WatchStep};
