//! What holds of every report, stated over the spec functions that define
//! the reports.

use vstd::prelude::*;

use crate::line::{blank, plain, LineView};
use crate::model::{
    ComponentInfoView, ComponentView, IncidentInfoView, IncidentUpdateView, IncidentView,
    MaintenanceInfoView, SummaryInfoView,
};
use crate::render::{
    component_block, component_blocks, component_report, incident_block, incident_blocks,
    incident_report, maintenance_report, page_trailer, summary_component_block,
    summary_component_blocks, summary_report, update_block, update_blocks, updates_section,
};

verus! {

/// A listing with no incidents reads the words for an empty listing, an
/// empty line, and the lines about the page: nothing else.
pub proof fn lemma_empty_incident_listing(info: IncidentInfoView)
    requires
        info.incidents.len() == 0,
    ensures
        incident_report(info) == seq![plain("No unresolved incidents reported"@), blank()]
            + page_trailer(info.page),
{
}

/// A listing with no maintenances reads the same words as one with no
/// incidents.
pub proof fn lemma_empty_maintenance_listing(info: MaintenanceInfoView)
    requires
        info.scheduled_maintenances.len() == 0,
    ensures
        maintenance_report(info) == seq![plain("No unresolved incidents reported"@), blank()]
            + page_trailer(info.page),
{
}

/// The blocks of two lists of components, put together, are the blocks of
/// the two lists put together.
pub proof fn lemma_component_blocks_concat(a: Seq<ComponentView>, b: Seq<ComponentView>)
    ensures
        component_blocks(a + b) == component_blocks(a) + component_blocks(b),
    decreases b.len(),
{
    if b.len() == 0 {
        assert(a + b =~= a);
        assert(component_blocks(a) + component_blocks(b) =~= component_blocks(a));
    } else {
        lemma_component_blocks_concat(a, b.drop_last());
        assert((a + b).drop_last() =~= a + b.drop_last());
        assert((a + b).last() == b.last());
        assert(component_blocks(a + b) =~= component_blocks(a) + component_blocks(b));
    }
}

/// The summary lines of two lists of components, put together, are the
/// summary lines of the two lists put together.
pub proof fn lemma_summary_component_blocks_concat(a: Seq<ComponentView>, b: Seq<ComponentView>)
    ensures
        summary_component_blocks(a + b) == summary_component_blocks(a) + summary_component_blocks(
            b,
        ),
    decreases b.len(),
{
    if b.len() == 0 {
        assert(a + b =~= a);
        assert(summary_component_blocks(a) + summary_component_blocks(b)
            =~= summary_component_blocks(a));
    } else {
        lemma_summary_component_blocks_concat(a, b.drop_last());
        assert((a + b).drop_last() =~= a + b.drop_last());
        assert((a + b).last() == b.last());
        assert(summary_component_blocks(a + b) =~= summary_component_blocks(a)
            + summary_component_blocks(b));
    }
}

/// A component without a description adds no line to the component listing
/// and none to the summary: both read as if the component were not in the
/// list.
pub proof fn lemma_undescribed_component_is_skipped(cs: Seq<ComponentView>, i: int)
    requires
        0 <= i < cs.len(),
        cs[i].description is None,
    ensures
        component_block(cs[i]).len() == 0,
        summary_component_block(cs[i]).len() == 0,
        component_blocks(cs) == component_blocks(cs.remove(i)),
        summary_component_blocks(cs) == summary_component_blocks(cs.remove(i)),
{
    let head = cs.take(i);
    let one = seq![cs[i]];
    let rest = cs.skip(i + 1);
    assert(cs =~= (head + one) + rest);
    assert(cs.remove(i) =~= head + rest);
    assert(one.drop_last() =~= Seq::<ComponentView>::empty());
    assert(one.last() == cs[i]);

    lemma_component_blocks_concat(head + one, rest);
    lemma_component_blocks_concat(head, one);
    lemma_component_blocks_concat(head, rest);
    assert(component_blocks(one) =~= Seq::<LineView>::empty()) by {
        reveal_with_fuel(component_blocks, 2);
    }
    assert(component_blocks(head + one) =~= component_blocks(head));

    lemma_summary_component_blocks_concat(head + one, rest);
    lemma_summary_component_blocks_concat(head, one);
    lemma_summary_component_blocks_concat(head, rest);
    assert(summary_component_blocks(one) =~= Seq::<LineView>::empty()) by {
        reveal_with_fuel(summary_component_blocks, 2);
    }
    assert(summary_component_blocks(head + one) =~= summary_component_blocks(head));
}

/// The component listing and the summary of a payload do not change when a
/// component without a description is taken out of it.
pub proof fn lemma_reports_skip_undescribed_component(
    listing: ComponentInfoView,
    summary: SummaryInfoView,
    i: int,
    j: int,
)
    requires
        0 <= i < listing.components.len(),
        listing.components[i].description is None,
        0 <= j < summary.components.len(),
        summary.components[j].description is None,
    ensures
        component_report(listing) == component_report(
            ComponentInfoView { components: listing.components.remove(i), ..listing },
        ),
        summary_report(summary) == summary_report(
            SummaryInfoView { components: summary.components.remove(j), ..summary },
        ),
{
    lemma_undescribed_component_is_skipped(listing.components, i);
    lemma_undescribed_component_is_skipped(summary.components, j);
}

/// The blocks of two histories, put together, are the blocks of the two
/// histories put together.
pub proof fn lemma_update_blocks_concat(a: Seq<IncidentUpdateView>, b: Seq<IncidentUpdateView>)
    ensures
        update_blocks(a + b) == update_blocks(a) + update_blocks(b),
    decreases b.len(),
{
    if b.len() == 0 {
        assert(a + b =~= a);
        assert(update_blocks(a) + update_blocks(b) =~= update_blocks(a));
    } else {
        lemma_update_blocks_concat(a, b.drop_last());
        assert((a + b).drop_last() =~= a + b.drop_last());
        assert((a + b).last() == b.last());
        assert(update_blocks(a + b) =~= update_blocks(a) + update_blocks(b));
    }
}

/// A history is shown in the order in which it was given: the block of each
/// entry stands after the blocks of all entries before it and before the
/// blocks of all entries after it.
pub proof fn lemma_updates_keep_their_order(us: Seq<IncidentUpdateView>, k: int)
    requires
        0 <= k < us.len(),
    ensures
        update_blocks(us) == update_blocks(us.take(k)) + update_block(us[k]) + update_blocks(
            us.skip(k + 1),
        ),
{
    let head = us.take(k);
    let one = seq![us[k]];
    let rest = us.skip(k + 1);
    assert(us =~= (head + one) + rest);
    assert(one.drop_last() =~= Seq::<IncidentUpdateView>::empty());
    assert(one.last() == us[k]);
    assert(update_blocks(one) =~= update_block(us[k])) by {
        reveal_with_fuel(update_blocks, 2);
    }
    lemma_update_blocks_concat(head + one, rest);
    lemma_update_blocks_concat(head, one);
}

/// Where the line that opens the block of entry `k` stands among the lines
/// of a history: after the blocks of the entries before it.
pub open spec fn update_line_index(us: Seq<IncidentUpdateView>, k: int) -> int {
    update_blocks(us.take(k)).len() as int
}

/// The lines that say what each entry said stand in the order of the
/// entries: the line of entry `k` reads `Update: ` and the entry's body, and
/// it stands below the line of every entry before it.
pub proof fn lemma_update_lines_in_order(us: Seq<IncidentUpdateView>, j: int, k: int)
    requires
        0 <= j < k < us.len(),
    ensures
        0 <= update_line_index(us, j) < update_line_index(us, k) < update_blocks(us).len(),
        update_blocks(us)[update_line_index(us, j)] == plain("        Update: "@ + us[j].body),
        update_blocks(us)[update_line_index(us, k)] == plain("        Update: "@ + us[k].body),
{
    lemma_updates_keep_their_order(us, j);
    lemma_updates_keep_their_order(us, k);
    let upto = us.take(k);
    assert(upto.take(j) =~= us.take(j));
    assert(upto[j] == us[j]);
    lemma_updates_keep_their_order(upto, j);
    assert(update_block(us[j]).len() >= 2);
    assert(update_block(us[k]).len() >= 2);
    assert(update_block(us[j])[0] == plain("        Update: "@ + us[j].body));
    assert(update_block(us[k])[0] == plain("        Update: "@ + us[k].body));
}

/// An event with a history of two entries shows the first entry's block,
/// then the second's, under the heading.
pub proof fn lemma_two_updates_in_order(first: IncidentUpdateView, second: IncidentUpdateView)
    ensures
        updates_section(Some(seq![first, second])) == seq![plain("    Updates:"@)] + update_block(
            first,
        ) + update_block(second),
{
    let us = seq![first, second];
    lemma_updates_keep_their_order(us, 0);
    assert(us.take(0) =~= Seq::<IncidentUpdateView>::empty());
    assert(us.skip(1) =~= seq![second]);
    assert(seq![second].drop_last() =~= Seq::<IncidentUpdateView>::empty());
    assert(update_blocks(seq![second]) =~= update_block(second)) by {
        reveal_with_fuel(update_blocks, 2);
    }
    assert(update_blocks(us) =~= update_block(first) + update_block(second));
    assert(updates_section(Some(us)) =~= seq![plain("    Updates:"@)] + update_block(first)
        + update_block(second));
}

/// The blocks of two lists of incidents, put together, are the blocks of the
/// two lists put together: incidents are shown in the order of the list.
pub proof fn lemma_incident_blocks_concat(a: Seq<IncidentView>, b: Seq<IncidentView>)
    ensures
        incident_blocks(a + b) == incident_blocks(a) + incident_blocks(b),
    decreases b.len(),
{
    if b.len() == 0 {
        assert(a + b =~= a);
        assert(incident_blocks(a) + incident_blocks(b) =~= incident_blocks(a));
    } else {
        lemma_incident_blocks_concat(a, b.drop_last());
        assert((a + b).drop_last() =~= a + b.drop_last());
        assert((a + b).last() == b.last());
        assert(incident_blocks(a + b) =~= incident_blocks(a) + incident_blocks(b));
    }
}

/// The summary reads the same whatever incidents and maintenances the
/// payload carries.
pub proof fn lemma_summary_leaves_out_events(a: SummaryInfoView, b: SummaryInfoView)
    requires
        a.page == b.page,
        a.status == b.status,
        a.components == b.components,
    ensures
        summary_report(a) == summary_report(b),
{
}

/// An incident's block opens with its name and closes with an empty line.
pub proof fn lemma_incident_block_frame(i: IncidentView)
    ensures
        incident_block(i).len() >= 4,
        incident_block(i).first().content() == i.name,
        incident_block(i).last() == blank(),
{
    assert(incident_block(i).first().content() =~= i.name);
}

} // verus!
