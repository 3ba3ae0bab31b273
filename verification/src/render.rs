//! From a payload to the lines of its report.
//!
//! What each report reads is laid down by the spec functions of this module;
//! the executable renderers are proved to produce exactly those lines.

use vstd::prelude::*;

use crate::line::{
    blank, marked, named, optional, plain, push_line, push_optional, Line, LineView, Marker,
};
use crate::model::{
    Component, ComponentInfo, ComponentInfoView, ComponentView, Incident, IncidentInfo,
    IncidentInfoView, IncidentUpdate, IncidentUpdateView, IncidentView, MaintenanceInfo,
    MaintenanceInfoView, Page, PageView, ScheduledMaintenance, ScheduledMaintenanceView, Status,
    StatusInfo, StatusInfoView, StatusView, SummaryInfo, SummaryInfoView,
};
use crate::severity::{component_marker, severity_marker};

verus! {

/// The line that closes every report: where to read more.
pub open spec fn more_info(page: PageView) -> LineView {
    plain("More info: "@ + page.url)
}

/// The lines about the page that close a report: when the page last
/// changed, where that is known, and where to read more.
pub open spec fn page_trailer(page: PageView) -> Seq<LineView> {
    optional("Last update: "@, page.updated_at) + seq![more_info(page)]
}

/// The line that states the aggregate status, marked by its indicator.
pub open spec fn status_line(status: StatusView) -> LineView {
    marked(status.description, severity_marker(status.indicator))
}

/// The report of the aggregate status.
pub open spec fn status_report(info: StatusInfoView) -> Seq<LineView> {
    seq![status_line(info.status), blank()] + page_trailer(info.page)
}

/// A payload that can be shown as a report.
pub trait Renderable {
    /// The page that the payload belongs to.
    spec fn page(&self) -> PageView;

    /// The lines of the report, in order.
    spec fn report(&self) -> Seq<LineView>;

    /// Computes the report. Never fails: a field that is absent leaves out
    /// its line, and an empty list has a report of its own.
    fn render(&self) -> (out: Vec<Line>)
        ensures
            out.deep_view() == self.report(),
    ;

    /// Every report ends with the line that says where to read more, and
    /// that line is not empty.
    proof fn lemma_ends_with_more_info(&self)
        ensures
            self.report().len() > 0,
            self.report().last() == more_info(self.page()),
            more_info(self.page()).content().len() > 0,
    ;
}

/// The line that closes every report reads `More info: ` and the page's
/// address, so it is never empty.
pub proof fn lemma_more_info_reads(page: PageView)
    ensures
        more_info(page).content() == "More info: "@ + page.url,
        more_info(page).content().len() >= 11,
        more_info(page).marker == Marker::Plain,
{
    reveal_strlit("More info: ");
    assert(more_info(page).content() =~= "More info: "@ + page.url);
}

/// Appends the status line to `out`.
fn push_status(out: &mut Vec<Line>, status: &Status)
    ensures
        final(out).deep_view() == old(out).deep_view().push(status_line(status@)),
{
    let marker = Marker::for_severity(status.indicator.as_str());
    push_line(out, Line::marked(status.description.as_str(), marker));
}

/// Appends the closing line to `out`.
fn push_more_info(out: &mut Vec<Line>, page: &Page)
    ensures
        final(out).deep_view() == old(out).deep_view().push(more_info(page@)),
{
    push_line(out, Line::plain("More info: ", page.url.as_str()));
}

/// Appends the lines about the page to `out`.
fn push_page_trailer(out: &mut Vec<Line>, page: &Page)
    ensures
        final(out).deep_view() == old(out).deep_view() + page_trailer(page@),
{
    push_optional(out, "Last update: ", &page.updated_at);
    push_more_info(out, page);
    assert(out.deep_view() =~= old(out).deep_view() + page_trailer(page@));
}

impl Renderable for StatusInfo {
    open spec fn page(&self) -> PageView {
        self.page@
    }

    open spec fn report(&self) -> Seq<LineView> {
        status_report(self@)
    }

    fn render(&self) -> (out: Vec<Line>) {
        let mut out: Vec<Line> = Vec::new();
        push_status(&mut out, &self.status);
        push_line(&mut out, Line::blank());
        push_page_trailer(&mut out, &self.page);
        assert(out.deep_view() =~= status_report(self@));
        out
    }

    proof fn lemma_ends_with_more_info(&self) {
        lemma_more_info_reads(self.page@);
    }
}

/// The lines of one component in the component listing: its name and
/// state, when it last changed, where that is known, and an empty line.
/// A component without a description adds nothing at all.
pub open spec fn component_block(c: ComponentView) -> Seq<LineView> {
    if c.description is None {
        Seq::empty()
    } else {
        seq![named(c.name, c.status, component_marker(c.status))] + optional(
            "    Last Updated At: "@,
            c.updated_at,
        ) + seq![blank()]
    }
}

/// The blocks of the components, one after the other in the list's order.
pub open spec fn component_blocks(cs: Seq<ComponentView>) -> Seq<LineView>
    decreases cs.len(),
{
    if cs.len() == 0 {
        Seq::empty()
    } else {
        component_blocks(cs.drop_last()) + component_block(cs.last())
    }
}

/// The component listing.
pub open spec fn component_report(info: ComponentInfoView) -> Seq<LineView> {
    component_blocks(info.components) + seq![more_info(info.page)]
}

/// Appends the block of one component to `out`.
fn push_component_block(out: &mut Vec<Line>, c: &Component)
    ensures
        final(out).deep_view() == old(out).deep_view() + component_block(c@),
{
    if c.description.is_some() {
        let marker = Marker::for_component(c.status.as_str());
        push_line(out, Line::named(c.name.as_str(), c.status.as_str(), marker));
        push_optional(out, "    Last Updated At: ", &c.updated_at);
        push_line(out, Line::blank());
    }
    assert(out.deep_view() =~= old(out).deep_view() + component_block(c@));
}

impl Renderable for ComponentInfo {
    open spec fn page(&self) -> PageView {
        self.page@
    }

    open spec fn report(&self) -> Seq<LineView> {
        component_report(self@)
    }

    fn render(&self) -> (out: Vec<Line>) {
        let mut out: Vec<Line> = Vec::new();
        let ghost cs = self.components.deep_view();
        let mut i: usize = 0;
        while i < self.components.len()
            invariant
                i <= self.components.len(),
                cs == self.components.deep_view(),
                out.deep_view() == component_blocks(cs.take(i as int)),
            decreases self.components.len() - i,
        {
            push_component_block(&mut out, &self.components[i]);
            proof {
                assert(cs.take(i + 1).drop_last() =~= cs.take(i as int));
                assert(cs.take(i + 1).last() == self.components[i as int]@);
            }
            i += 1;
        }
        proof {
            assert(cs.take(i as int) =~= cs);
        }
        push_more_info(&mut out, &self.page);
        out
    }

    proof fn lemma_ends_with_more_info(&self) {
        lemma_more_info_reads(self.page@);
    }
}

/// The lines of one entry of a history: what was said, when it was written,
/// where that is known, the state it reports, and when it was last changed,
/// where that is known.
pub open spec fn update_block(u: IncidentUpdateView) -> Seq<LineView> {
    seq![plain("        Update: "@ + u.body)] + optional("        created_at: "@, u.created_at)
        + seq![plain("        status: "@ + u.status)] + optional(
        "        Updated At: "@,
        u.updated_at,
    )
}

/// The blocks of the entries, one after the other in the history's order:
/// the order in which the page gave them, never sorted anew.
pub open spec fn update_blocks(us: Seq<IncidentUpdateView>) -> Seq<LineView>
    decreases us.len(),
{
    if us.len() == 0 {
        Seq::empty()
    } else {
        update_blocks(us.drop_last()) + update_block(us.last())
    }
}

/// The history of an event under its heading. A history that is absent or
/// empty adds nothing, not even the heading.
pub open spec fn updates_section(us: Option<Seq<IncidentUpdateView>>) -> Seq<LineView> {
    match us {
        Some(us) => if us.len() > 0 {
            seq![plain("    Updates:"@)] + update_blocks(us)
        } else {
            Seq::empty()
        },
        None => Seq::empty(),
    }
}

/// The lines of one event, be it an incident or a maintenance: its name
/// marked by its impact, its dates where they are known, its link and state,
/// its history, and an empty line.
pub open spec fn event_block(
    name: Seq<char>,
    impact: Seq<char>,
    created_at: Option<Seq<char>>,
    shortlink: Seq<char>,
    status: Seq<char>,
    updated_at: Option<Seq<char>>,
    updates: Option<Seq<IncidentUpdateView>>,
) -> Seq<LineView> {
    seq![marked(name, severity_marker(impact))] + optional("    Created At: "@, created_at)
        + seq![plain("    Short Link: "@ + shortlink), plain("    Status: "@ + status)] + optional(
        "    Updated At: "@,
        updated_at,
    ) + updates_section(updates) + seq![blank()]
}

/// The lines of one incident.
pub open spec fn incident_block(i: IncidentView) -> Seq<LineView> {
    event_block(
        i.name,
        i.impact,
        i.created_at,
        i.shortlink,
        i.status,
        i.updated_at,
        i.incident_updates,
    )
}

/// The blocks of the incidents, one after the other in the list's order.
pub open spec fn incident_blocks(is: Seq<IncidentView>) -> Seq<LineView>
    decreases is.len(),
{
    if is.len() == 0 {
        Seq::empty()
    } else {
        incident_blocks(is.drop_last()) + incident_block(is.last())
    }
}

/// The blocks of the maintenances, one after the other in the list's
/// order. A maintenance is shown as the incident it is; its time window is
/// not.
pub open spec fn maintenance_blocks(ms: Seq<ScheduledMaintenanceView>) -> Seq<LineView>
    decreases ms.len(),
{
    if ms.len() == 0 {
        Seq::empty()
    } else {
        maintenance_blocks(ms.drop_last()) + incident_block(ms.last().as_incident())
    }
}

/// What a listing reads when there is nothing to list. The same words
/// serve for incidents and for maintenances.
pub open spec fn nothing_reported() -> Seq<LineView> {
    seq![plain("No unresolved incidents reported"@), blank()]
}

/// The incident listing.
pub open spec fn incident_report(info: IncidentInfoView) -> Seq<LineView> {
    (if info.incidents.len() == 0 {
        nothing_reported()
    } else {
        incident_blocks(info.incidents)
    }) + page_trailer(info.page)
}

/// The maintenance listing.
pub open spec fn maintenance_report(info: MaintenanceInfoView) -> Seq<LineView> {
    (if info.scheduled_maintenances.len() == 0 {
        nothing_reported()
    } else {
        maintenance_blocks(info.scheduled_maintenances)
    }) + page_trailer(info.page)
}

/// Appends a line of unmarked `text` to `out`.
fn push_text(out: &mut Vec<Line>, text: &str)
    ensures
        final(out).deep_view() == old(out).deep_view().push(plain(text@)),
{
    push_line(out, Line::plain(text, ""));
    proof {
        reveal_strlit("");
        assert(text@ + ""@ =~= text@);
    }
}

/// Appends the block of one history entry to `out`.
fn push_update_block(out: &mut Vec<Line>, u: &IncidentUpdate)
    ensures
        final(out).deep_view() == old(out).deep_view() + update_block(u@),
{
    push_line(out, Line::plain("        Update: ", u.body.as_str()));
    push_optional(out, "        created_at: ", &u.created_at);
    push_line(out, Line::plain("        status: ", u.status.as_str()));
    push_optional(out, "        Updated At: ", &u.updated_at);
    assert(out.deep_view() =~= old(out).deep_view() + update_block(u@));
}

/// Appends the history of an event to `out`.
fn push_updates_section(out: &mut Vec<Line>, updates: &Option<Vec<IncidentUpdate>>)
    ensures
        final(out).deep_view() == old(out).deep_view() + updates_section(updates.deep_view()),
{
    match updates {
        Some(list) => {
            if list.len() > 0 {
                let ghost us = list.deep_view();
                push_text(out, "    Updates:");
                let mut i: usize = 0;
                while i < list.len()
                    invariant
                        i <= list.len(),
                        us == list.deep_view(),
                        out.deep_view() == old(out).deep_view() + (seq![plain("    Updates:"@)]
                            + update_blocks(us.take(i as int))),
                    decreases list.len() - i,
                {
                    push_update_block(out, &list[i]);
                    proof {
                        assert(us.take(i + 1).drop_last() =~= us.take(i as int));
                        assert(us.take(i + 1).last() == list[i as int]@);
                        assert(out.deep_view() =~= old(out).deep_view() + (seq![
                            plain("    Updates:"@),
                        ] + update_blocks(us.take(i + 1))));
                    }
                    i += 1;
                }
                proof {
                    assert(us.take(i as int) =~= us);
                }
            } else {
                assert(out.deep_view() =~= old(out).deep_view() + updates_section(
                    updates.deep_view(),
                ));
            }
        },
        None => {
            assert(out.deep_view() =~= old(out).deep_view() + updates_section(updates.deep_view()));
        },
    }
}

/// Appends the block of one event to `out`.
fn push_event_block(
    out: &mut Vec<Line>,
    name: &String,
    impact: &String,
    created_at: &Option<String>,
    shortlink: &String,
    status: &String,
    updated_at: &Option<String>,
    updates: &Option<Vec<IncidentUpdate>>,
)
    ensures
        final(out).deep_view() == old(out).deep_view() + event_block(
            name@,
            impact@,
            created_at.deep_view(),
            shortlink@,
            status@,
            updated_at.deep_view(),
            updates.deep_view(),
        ),
{
    let marker = Marker::for_severity(impact.as_str());
    push_line(out, Line::marked(name.as_str(), marker));
    push_optional(out, "    Created At: ", created_at);
    push_line(out, Line::plain("    Short Link: ", shortlink.as_str()));
    push_line(out, Line::plain("    Status: ", status.as_str()));
    push_optional(out, "    Updated At: ", updated_at);
    push_updates_section(out, updates);
    push_line(out, Line::blank());
    assert(out.deep_view() =~= old(out).deep_view() + event_block(
        name@,
        impact@,
        created_at.deep_view(),
        shortlink@,
        status@,
        updated_at.deep_view(),
        updates.deep_view(),
    ));
}

/// Appends the block of one incident to `out`.
fn push_incident_block(out: &mut Vec<Line>, incident: &Incident)
    ensures
        final(out).deep_view() == old(out).deep_view() + incident_block(incident@),
{
    push_event_block(
        out,
        &incident.name,
        &incident.impact,
        &incident.created_at,
        &incident.shortlink,
        &incident.status,
        &incident.updated_at,
        &incident.incident_updates,
    );
}

/// Appends the block of one maintenance to `out`.
fn push_maintenance_block(out: &mut Vec<Line>, maintenance: &ScheduledMaintenance)
    ensures
        final(out).deep_view() == old(out).deep_view() + incident_block(
            maintenance@.as_incident(),
        ),
{
    push_event_block(
        out,
        &maintenance.name,
        &maintenance.impact,
        &maintenance.created_at,
        &maintenance.shortlink,
        &maintenance.status,
        &maintenance.updated_at,
        &maintenance.incident_updates,
    );
}

/// Appends to `out` what a listing reads when there is nothing to list.
fn push_nothing_reported(out: &mut Vec<Line>)
    ensures
        final(out).deep_view() == old(out).deep_view() + nothing_reported(),
{
    push_text(out, "No unresolved incidents reported");
    push_line(out, Line::blank());
    assert(out.deep_view() =~= old(out).deep_view() + nothing_reported());
}

impl Renderable for IncidentInfo {
    open spec fn page(&self) -> PageView {
        self.page@
    }

    open spec fn report(&self) -> Seq<LineView> {
        incident_report(self@)
    }

    fn render(&self) -> (out: Vec<Line>) {
        let mut out: Vec<Line> = Vec::new();
        let ghost is = self.incidents.deep_view();
        if self.incidents.len() == 0 {
            push_nothing_reported(&mut out);
            assert(out.deep_view() =~= nothing_reported());
        } else {
            let mut i: usize = 0;
            while i < self.incidents.len()
                invariant
                    i <= self.incidents.len(),
                    is == self.incidents.deep_view(),
                    out.deep_view() == incident_blocks(is.take(i as int)),
                decreases self.incidents.len() - i,
            {
                push_incident_block(&mut out, &self.incidents[i]);
                proof {
                    assert(is.take(i + 1).drop_last() =~= is.take(i as int));
                    assert(is.take(i + 1).last() == self.incidents[i as int]@);
                }
                i += 1;
            }
            proof {
                assert(is.take(i as int) =~= is);
            }
        }
        push_page_trailer(&mut out, &self.page);
        out
    }

    proof fn lemma_ends_with_more_info(&self) {
        lemma_more_info_reads(self.page@);
    }
}

impl Renderable for MaintenanceInfo {
    open spec fn page(&self) -> PageView {
        self.page@
    }

    open spec fn report(&self) -> Seq<LineView> {
        maintenance_report(self@)
    }

    fn render(&self) -> (out: Vec<Line>) {
        let mut out: Vec<Line> = Vec::new();
        let ghost ms = self.scheduled_maintenances.deep_view();
        if self.scheduled_maintenances.len() == 0 {
            push_nothing_reported(&mut out);
            assert(out.deep_view() =~= nothing_reported());
        } else {
            let mut i: usize = 0;
            while i < self.scheduled_maintenances.len()
                invariant
                    i <= self.scheduled_maintenances.len(),
                    ms == self.scheduled_maintenances.deep_view(),
                    out.deep_view() == maintenance_blocks(ms.take(i as int)),
                decreases self.scheduled_maintenances.len() - i,
            {
                push_maintenance_block(&mut out, &self.scheduled_maintenances[i]);
                proof {
                    assert(ms.take(i + 1).drop_last() =~= ms.take(i as int));
                    assert(ms.take(i + 1).last() == self.scheduled_maintenances[i as int]@);
                }
                i += 1;
            }
            proof {
                assert(ms.take(i as int) =~= ms);
            }
        }
        push_page_trailer(&mut out, &self.page);
        out
    }

    proof fn lemma_ends_with_more_info(&self) {
        lemma_more_info_reads(self.page@);
    }
}

/// The line of one component in the summary: its name and state, with no
/// date and no empty line after it. A component without a description adds
/// nothing at all.
pub open spec fn summary_component_block(c: ComponentView) -> Seq<LineView> {
    if c.description is None {
        Seq::empty()
    } else {
        seq![named(c.name, c.status, component_marker(c.status))]
    }
}

/// The lines of the components in the summary, in the list's order.
pub open spec fn summary_component_blocks(cs: Seq<ComponentView>) -> Seq<LineView>
    decreases cs.len(),
{
    if cs.len() == 0 {
        Seq::empty()
    } else {
        summary_component_blocks(cs.drop_last()) + summary_component_block(cs.last())
    }
}

/// The summary: the aggregate status and the state of each component. The
/// incidents and maintenances that the payload carries are not part of it.
pub open spec fn summary_report(info: SummaryInfoView) -> Seq<LineView> {
    seq![status_line(info.status), blank()] + summary_component_blocks(info.components) + seq![
        blank(),
    ] + optional("Last Updated At: "@, info.page.updated_at) + seq![more_info(info.page)]
}

/// Appends the summary line of one component to `out`.
fn push_summary_component_block(out: &mut Vec<Line>, c: &Component)
    ensures
        final(out).deep_view() == old(out).deep_view() + summary_component_block(c@),
{
    if c.description.is_some() {
        let marker = Marker::for_component(c.status.as_str());
        push_line(out, Line::named(c.name.as_str(), c.status.as_str(), marker));
    }
    assert(out.deep_view() =~= old(out).deep_view() + summary_component_block(c@));
}

impl Renderable for SummaryInfo {
    open spec fn page(&self) -> PageView {
        self.page@
    }

    open spec fn report(&self) -> Seq<LineView> {
        summary_report(self@)
    }

    fn render(&self) -> (out: Vec<Line>) {
        let mut out: Vec<Line> = Vec::new();
        let ghost cs = self.components.deep_view();
        push_status(&mut out, &self.status);
        push_line(&mut out, Line::blank());
        let ghost head = out.deep_view();
        assert(head =~= seq![status_line(self.status@), blank()]);
        let mut i: usize = 0;
        while i < self.components.len()
            invariant
                i <= self.components.len(),
                cs == self.components.deep_view(),
                out.deep_view() == head + summary_component_blocks(cs.take(i as int)),
            decreases self.components.len() - i,
        {
            push_summary_component_block(&mut out, &self.components[i]);
            proof {
                assert(cs.take(i + 1).drop_last() =~= cs.take(i as int));
                assert(cs.take(i + 1).last() == self.components[i as int]@);
                assert(out.deep_view() =~= head + summary_component_blocks(cs.take(i + 1)));
            }
            i += 1;
        }
        proof {
            assert(cs.take(i as int) =~= cs);
        }
        push_line(&mut out, Line::blank());
        push_optional(&mut out, "Last Updated At: ", &self.page.updated_at);
        push_more_info(&mut out, &self.page);
        out
    }

    proof fn lemma_ends_with_more_info(&self) {
        lemma_more_info_reads(self.page@);
    }
}

} // verus!
