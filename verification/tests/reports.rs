//! The rules of the reports, on small payloads.

use statuspage::{
    Component, ComponentInfo, Incident, IncidentInfo, IncidentUpdate, Line, MaintenanceInfo,
    Marker, Page, Renderable, ScheduledMaintenance, Status, StatusInfo, SummaryInfo,
};

fn page(updated_at: Option<&str>) -> Page {
    Page {
        id: "page".to_string(),
        name: "Service".to_string(),
        url: "https://status.example".to_string(),
        updated_at: updated_at.map(str::to_string),
    }
}

fn component(name: &str, status: &str, description: Option<&str>, updated: Option<&str>) -> Component {
    Component {
        created_at: None,
        description: description.map(str::to_string),
        id: format!("id-{}", name),
        name: name.to_string(),
        page_id: "page".to_string(),
        position: 1,
        status: status.to_string(),
        updated_at: updated.map(str::to_string),
    }
}

fn update(body: &str, created_at: Option<&str>, updated_at: Option<&str>) -> IncidentUpdate {
    IncidentUpdate {
        body: body.to_string(),
        created_at: created_at.map(str::to_string),
        display_at: None,
        id: "u".to_string(),
        incident_id: "i".to_string(),
        status: "investigating".to_string(),
        updated_at: updated_at.map(str::to_string),
    }
}

fn incident(name: &str, impact: &str, updates: Option<Vec<IncidentUpdate>>) -> Incident {
    Incident {
        created_at: None,
        id: "i".to_string(),
        impact: impact.to_string(),
        incident_updates: updates,
        monitoring_at: None,
        name: name.to_string(),
        page_id: "page".to_string(),
        resolved_at: None,
        shortlink: "http://short/1".to_string(),
        status: "investigating".to_string(),
        updated_at: None,
    }
}

fn maintenance(name: &str, impact: &str) -> ScheduledMaintenance {
    ScheduledMaintenance {
        created_at: Some("2024-01-01".to_string()),
        id: "m".to_string(),
        impact: impact.to_string(),
        incident_updates: None,
        monitoring_at: None,
        name: name.to_string(),
        page_id: "page".to_string(),
        resolved_at: None,
        scheduled_for: "2024-01-02".to_string(),
        scheduled_until: "2024-01-03".to_string(),
        shortlink: "http://short/2".to_string(),
        status: "scheduled".to_string(),
        updated_at: Some("2024-01-01T12:00".to_string()),
    }
}

fn plain(text: &str) -> Line {
    Line { prefix: String::new(), text: text.to_string(), marker: Marker::Plain }
}

fn marked(text: &str, marker: Marker) -> Line {
    Line { prefix: String::new(), text: text.to_string(), marker }
}

fn named(name: &str, state: &str, marker: Marker) -> Line {
    Line { prefix: format!("{}: ", name), text: state.to_string(), marker }
}

fn contents(lines: &[Line]) -> Vec<String> {
    lines.iter().map(Line::content).collect()
}

#[test]
fn status_report_without_page_date_leaves_the_line_out() {
    let info = StatusInfo {
        page: page(None),
        status: Status { description: "All Systems Operational".to_string(), indicator: "none".to_string() },
    };
    assert_eq!(
        info.render(),
        vec![
            marked("All Systems Operational", Marker::Success),
            plain(""),
            plain("More info: https://status.example"),
        ]
    );
}

#[test]
fn status_report_marks_each_indicator() {
    for (indicator, marker) in [
        ("none", Marker::Success),
        ("minor", Marker::Warning),
        ("major", Marker::Alert),
        ("critical", Marker::Severe),
        ("maintenance", Marker::Plain),
        ("", Marker::Plain),
        ("None", Marker::Plain),
    ] {
        let info = StatusInfo {
            page: page(Some("now")),
            status: Status { description: "State".to_string(), indicator: indicator.to_string() },
        };
        let lines = info.render();
        assert_eq!(lines[0], marked("State", marker));
        assert_eq!(contents(&lines), vec!["State", "", "Last update: now", "More info: https://status.example"]);
    }
}

#[test]
fn every_report_ends_with_more_info() {
    let last = plain("More info: https://status.example");
    let status = StatusInfo {
        page: page(None),
        status: Status { description: "d".to_string(), indicator: "x".to_string() },
    };
    let components = ComponentInfo { page: page(Some("t")), components: vec![] };
    let incidents = IncidentInfo { page: page(Some("t")), incidents: vec![incident("a", "none", None)] };
    let maintenances = MaintenanceInfo { page: page(None), scheduled_maintenances: vec![] };
    let summary = SummaryInfo {
        page: page(Some("t")),
        status: Status { description: "d".to_string(), indicator: "minor".to_string() },
        components: vec![component("api", "operational", Some("d"), None)],
        incidents: vec![],
        scheduled_maintenances: vec![],
    };
    assert_eq!(status.render().last(), Some(&last));
    assert_eq!(components.render().last(), Some(&last));
    assert_eq!(incidents.render().last(), Some(&last));
    assert_eq!(maintenances.render().last(), Some(&last));
    assert_eq!(summary.render().last(), Some(&last));
}

#[test]
fn component_listing_shows_described_components_in_order() {
    let info = ComponentInfo {
        page: page(Some("2024-05-05")),
        components: vec![
            component("Git", "operational", Some("git"), Some("2024-01-01")),
            component("Hidden", "major_outage", None, Some("2024-01-02")),
            component("API", "degraded_performance", Some("api"), None),
            component("Pages", "partial_outage", Some(""), Some("2024-01-03")),
            component("Actions", "major_outage", Some("ci"), None),
            component("Other", "under_maintenance", Some("x"), None),
        ],
    };
    assert_eq!(
        info.render(),
        vec![
            named("Git", "operational", Marker::Success),
            plain("    Last Updated At: 2024-01-01"),
            plain(""),
            named("API", "degraded_performance", Marker::Warning),
            plain(""),
            named("Pages", "partial_outage", Marker::Alert),
            plain("    Last Updated At: 2024-01-03"),
            plain(""),
            named("Actions", "major_outage", Marker::Severe),
            plain(""),
            named("Other", "under_maintenance", Marker::Plain),
            plain(""),
            plain("More info: https://status.example"),
        ]
    );
    assert_eq!(info.render()[0].content(), "Git: operational");
}

#[test]
fn component_without_description_adds_no_line() {
    let shown = component("API", "operational", Some("api"), Some("t"));
    let hidden = component("Hidden", "major_outage", None, Some("t"));
    let with = ComponentInfo {
        page: page(None),
        components: vec![shown.clone(), hidden.clone(), shown.clone()],
    };
    let without = ComponentInfo { page: page(None), components: vec![shown.clone(), shown.clone()] };
    assert_eq!(with.render(), without.render());
    assert_eq!(with.render().len(), 7);

    let status = Status { description: "d".to_string(), indicator: "none".to_string() };
    let with = SummaryInfo {
        page: page(None),
        status: status.clone(),
        components: vec![hidden.clone(), shown.clone(), hidden],
        incidents: vec![],
        scheduled_maintenances: vec![],
    };
    let without = SummaryInfo {
        page: page(None),
        status,
        components: vec![shown],
        incidents: vec![],
        scheduled_maintenances: vec![],
    };
    assert_eq!(with.render(), without.render());
    assert_eq!(with.render().len(), 5);
}

#[test]
fn empty_incident_listing_says_so() {
    let info = IncidentInfo { page: page(Some("2024-05-05")), incidents: vec![] };
    assert_eq!(
        info.render(),
        vec![
            plain("No unresolved incidents reported"),
            plain(""),
            plain("Last update: 2024-05-05"),
            plain("More info: https://status.example"),
        ]
    );
    let info = IncidentInfo { page: page(None), incidents: vec![] };
    assert_eq!(
        info.render(),
        vec![
            plain("No unresolved incidents reported"),
            plain(""),
            plain("More info: https://status.example"),
        ]
    );
}

#[test]
fn empty_maintenance_listing_uses_the_same_words() {
    let info = MaintenanceInfo { page: page(Some("2024-05-05")), scheduled_maintenances: vec![] };
    assert_eq!(
        info.render(),
        vec![
            plain("No unresolved incidents reported"),
            plain(""),
            plain("Last update: 2024-05-05"),
            plain("More info: https://status.example"),
        ]
    );
}

#[test]
fn incident_without_optional_fields_shows_link_and_status_only() {
    let info = IncidentInfo { page: page(None), incidents: vec![incident("Outage", "weird", None)] };
    assert_eq!(
        info.render(),
        vec![
            marked("Outage", Marker::Plain),
            plain("    Short Link: http://short/1"),
            plain("    Status: investigating"),
            plain(""),
            plain("More info: https://status.example"),
        ]
    );
}

#[test]
fn incident_with_empty_history_shows_no_heading() {
    let info = IncidentInfo {
        page: page(None),
        incidents: vec![incident("Outage", "critical", Some(vec![]))],
    };
    assert_eq!(
        info.render(),
        vec![
            marked("Outage", Marker::Severe),
            plain("    Short Link: http://short/1"),
            plain("    Status: investigating"),
            plain(""),
            plain("More info: https://status.example"),
        ]
    );
}

#[test]
fn incident_updates_keep_the_order_given() {
    let later = update("second thing said", Some("2024-02-02"), None);
    let earlier = update("first thing said", Some("2024-01-01"), Some("2024-01-05"));
    let info = IncidentInfo {
        page: page(None),
        incidents: vec![incident("Outage", "major", Some(vec![later.clone(), earlier.clone()]))],
    };
    assert_eq!(
        info.render(),
        vec![
            marked("Outage", Marker::Alert),
            plain("    Short Link: http://short/1"),
            plain("    Status: investigating"),
            plain("    Updates:"),
            plain("        Update: second thing said"),
            plain("        created_at: 2024-02-02"),
            plain("        status: investigating"),
            plain("        Update: first thing said"),
            plain("        created_at: 2024-01-01"),
            plain("        status: investigating"),
            plain("        Updated At: 2024-01-05"),
            plain(""),
            plain("More info: https://status.example"),
        ]
    );

    let swapped = IncidentInfo {
        page: page(None),
        incidents: vec![incident("Outage", "major", Some(vec![earlier, later]))],
    };
    let bodies: Vec<String> = contents(&swapped.render())
        .into_iter()
        .filter(|line| line.starts_with("        Update: "))
        .collect();
    assert_eq!(bodies, vec!["        Update: first thing said", "        Update: second thing said"]);
}

#[test]
fn incidents_keep_the_order_given() {
    let info = IncidentInfo {
        page: page(None),
        incidents: vec![incident("B", "minor", None), incident("A", "none", None)],
    };
    let lines = info.render();
    assert_eq!(lines[0], marked("B", Marker::Warning));
    assert_eq!(lines[4], marked("A", Marker::Success));
    assert_eq!(lines.len(), 9);
}

#[test]
fn maintenance_is_shown_without_its_window() {
    let info = MaintenanceInfo {
        page: page(None),
        scheduled_maintenances: vec![maintenance("Upgrade", "minor")],
    };
    assert_eq!(
        info.render(),
        vec![
            marked("Upgrade", Marker::Warning),
            plain("    Created At: 2024-01-01"),
            plain("    Short Link: http://short/2"),
            plain("    Status: scheduled"),
            plain("    Updated At: 2024-01-01T12:00"),
            plain(""),
            plain("More info: https://status.example"),
        ]
    );
}

#[test]
fn summary_shows_status_and_components_only() {
    let info = SummaryInfo {
        page: page(Some("2024-05-05")),
        status: Status { description: "Minor Service Outage".to_string(), indicator: "minor".to_string() },
        components: vec![
            component("Git", "operational", Some("git"), Some("2024-01-01")),
            component("Hidden", "major_outage", None, None),
            component("API", "partial_outage", Some("api"), None),
            component("Other", "odd", Some("x"), None),
        ],
        incidents: vec![incident("Outage", "critical", Some(vec![update("b", None, None)]))],
        scheduled_maintenances: vec![maintenance("Upgrade", "none")],
    };
    assert_eq!(
        info.render(),
        vec![
            marked("Minor Service Outage", Marker::Warning),
            plain(""),
            named("Git", "operational", Marker::Success),
            named("API", "partial_outage", Marker::Alert),
            named("Other", "odd", Marker::Plain),
            plain(""),
            plain("Last Updated At: 2024-05-05"),
            plain("More info: https://status.example"),
        ]
    );
}

#[test]
fn line_builders_agree_with_the_fields() {
    assert_eq!(Line::plain("Label: ", "value"), plain("Label: value"));
    assert_eq!(Line::blank(), plain(""));
    assert_eq!(Line::marked("text", Marker::Alert), marked("text", Marker::Alert));
    assert_eq!(Line::named("API", "operational", Marker::Success), named("API", "operational", Marker::Success));
    assert_eq!(Line::named("API", "operational", Marker::Success).content(), "API: operational");
}
