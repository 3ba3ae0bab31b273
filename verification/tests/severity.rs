//! The two vocabularies and their markers.

use statuspage::Marker;

#[test]
fn severity_words_have_their_markers() {
    assert_eq!(Marker::for_severity("none"), Marker::Success);
    assert_eq!(Marker::for_severity("minor"), Marker::Warning);
    assert_eq!(Marker::for_severity("major"), Marker::Alert);
    assert_eq!(Marker::for_severity("critical"), Marker::Severe);
}

#[test]
fn component_words_have_their_markers() {
    assert_eq!(Marker::for_component("operational"), Marker::Success);
    assert_eq!(Marker::for_component("degraded_performance"), Marker::Warning);
    assert_eq!(Marker::for_component("partial_outage"), Marker::Alert);
    assert_eq!(Marker::for_component("major_outage"), Marker::Severe);
}

#[test]
fn other_words_are_unmarked() {
    for word in ["", "NONE", "none ", " minor", "majors", "operational", "partial_outge", "\u{e9}t\u{e9}"] {
        assert_eq!(Marker::for_severity(word), Marker::Plain);
    }
    for word in ["", "Operational", "none", "critical", "partial_outge", "major outage", "under_maintenance"] {
        assert_eq!(Marker::for_component(word), Marker::Plain);
    }
}

#[test]
fn vocabularies_do_not_mix() {
    assert_eq!(Marker::for_component("major"), Marker::Plain);
    assert_eq!(Marker::for_severity("major_outage"), Marker::Plain);
}
