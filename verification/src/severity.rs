//! From the page's severity words to markers.
//!
//! The page speaks two vocabularies: one for the aggregate indicator and the
//! impact of an incident, one for the state of a component. Both map onto the
//! same four markers, and any other word is shown unmarked.

use vstd::prelude::*;
use vstd::string::*;

use crate::line::{Marker, Text};

verus! {

/// The marker of an indicator or impact word.
pub open spec fn severity_marker(word: Text) -> Marker {
    if word == "none"@ {
        Marker::Success
    } else if word == "minor"@ {
        Marker::Warning
    } else if word == "major"@ {
        Marker::Alert
    } else if word == "critical"@ {
        Marker::Severe
    } else {
        Marker::Plain
    }
}

/// The marker of a component's state word.
pub open spec fn component_marker(word: Text) -> Marker {
    if word == "operational"@ {
        Marker::Success
    } else if word == "degraded_performance"@ {
        Marker::Warning
    } else if word == "partial_outage"@ {
        Marker::Alert
    } else if word == "major_outage"@ {
        Marker::Severe
    } else {
        Marker::Plain
    }
}

/// Whether `text` reads exactly `word`.
fn reads(text: &str, word: &str) -> (same: bool)
    ensures
        same == (text@ == word@),
{
    let a = String::from_str(text);
    let b = String::from_str(word);
    a == b
}

impl Marker {
    /// The marker of an indicator or impact word. Never fails: a word that
    /// is not known gets [`Marker::Plain`].
    pub fn for_severity(word: &str) -> (marker: Marker)
        ensures
            marker == severity_marker(word@),
    {
        if reads(word, "none") {
            Marker::Success
        } else if reads(word, "minor") {
            Marker::Warning
        } else if reads(word, "major") {
            Marker::Alert
        } else if reads(word, "critical") {
            Marker::Severe
        } else {
            Marker::Plain
        }
    }

    /// The marker of a component's state word. Never fails: a word that is
    /// not known gets [`Marker::Plain`].
    pub fn for_component(word: &str) -> (marker: Marker)
        ensures
            marker == component_marker(word@),
    {
        if reads(word, "operational") {
            Marker::Success
        } else if reads(word, "degraded_performance") {
            Marker::Warning
        } else if reads(word, "partial_outage") {
            Marker::Alert
        } else if reads(word, "major_outage") {
            Marker::Severe
        } else {
            Marker::Plain
        }
    }
}

/// The four severity words are four different words.
pub proof fn lemma_severity_words_differ()
    ensures
        "none"@ != "minor"@,
        "none"@ != "major"@,
        "none"@ != "critical"@,
        "minor"@ != "major"@,
        "minor"@ != "critical"@,
        "major"@ != "critical"@,
{
    reveal_strlit("none");
    reveal_strlit("minor");
    reveal_strlit("major");
    reveal_strlit("critical");
    assert("none"@.len() == 4);
    assert("minor"@.len() == 5);
    assert("major"@.len() == 5);
    assert("critical"@.len() == 8);
    assert("minor"@[1] == 'i' && "major"@[1] == 'a');
}

/// The four component words are four different words.
pub proof fn lemma_component_words_differ()
    ensures
        "operational"@ != "degraded_performance"@,
        "operational"@ != "partial_outage"@,
        "operational"@ != "major_outage"@,
        "degraded_performance"@ != "partial_outage"@,
        "degraded_performance"@ != "major_outage"@,
        "partial_outage"@ != "major_outage"@,
{
    reveal_strlit("operational");
    reveal_strlit("degraded_performance");
    reveal_strlit("partial_outage");
    reveal_strlit("major_outage");
    assert("operational"@.len() == 11);
    assert("degraded_performance"@.len() == 20);
    assert("partial_outage"@.len() == 14);
    assert("major_outage"@.len() == 12);
}

/// Each severity word has its own marker, whatever the order in which the
/// words are tried, and every other word is unmarked.
pub proof fn lemma_severity_table(word: Text)
    ensures
        severity_marker(word) == Marker::Success <==> word == "none"@,
        severity_marker(word) == Marker::Warning <==> word == "minor"@,
        severity_marker(word) == Marker::Alert <==> word == "major"@,
        severity_marker(word) == Marker::Severe <==> word == "critical"@,
        severity_marker(word) == Marker::Plain <==> (word != "none"@ && word != "minor"@ && word
            != "major"@ && word != "critical"@),
{
    lemma_severity_words_differ();
}

/// Each component word has its own marker, whatever the order in which the
/// words are tried, and every other word is unmarked.
pub proof fn lemma_component_table(word: Text)
    ensures
        component_marker(word) == Marker::Success <==> word == "operational"@,
        component_marker(word) == Marker::Warning <==> word == "degraded_performance"@,
        component_marker(word) == Marker::Alert <==> word == "partial_outage"@,
        component_marker(word) == Marker::Severe <==> word == "major_outage"@,
        component_marker(word) == Marker::Plain <==> (word != "operational"@ && word
            != "degraded_performance"@ && word != "partial_outage"@ && word != "major_outage"@),
{
    lemma_component_words_differ();
}

/// The two vocabularies name the same four markers, word for word.
pub proof fn lemma_vocabularies_agree()
    ensures
        severity_marker("none"@) == component_marker("operational"@),
        severity_marker("minor"@) == component_marker("degraded_performance"@),
        severity_marker("major"@) == component_marker("partial_outage"@),
        severity_marker("critical"@) == component_marker("major_outage"@),
{
    lemma_severity_words_differ();
    lemma_component_words_differ();
}

} // verus!
