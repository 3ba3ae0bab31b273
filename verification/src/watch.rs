//! The decisions of the polling loop.
//!
//! The loop itself belongs to the program: it sleeps, fetches the summary
//! and prints. After each fetch it asks [`WatchConfig::step`] what to print
//! and whether to go on.

use vstd::prelude::*;

use crate::line::{Line, Marker};
use crate::model::{SummaryInfo, SummaryInfoView};
use crate::outcome::{present, presented, FetchError};
use crate::severity::severity_marker;

verus! {

/// How the loop was asked to run.
#[derive(Clone, Copy, Debug, PartialEq, Eq, Structural)]
pub struct WatchConfig {
    /// The pause before each fetch, in seconds.
    pub interval_secs: u64,
    /// Whether the loop ends once the service is operational.
    pub stop_on_operational: bool,
}

/// What the loop does next.
#[derive(Clone, Copy, Debug, PartialEq, Eq, Structural)]
pub enum Next {
    /// Sleep for so many seconds, then fetch again.
    Poll { after_secs: u64 },
    /// End the loop.
    Finish,
}

/// What one fetch leads to.
#[derive(Clone, Debug, PartialEq, Eq)]
pub struct WatchStep {
    /// What is printed for the fetch.
    pub lines: Vec<Line>,
    /// What the loop does after printing.
    pub next: Next,
}

/// What a fetch of the summary brought, as a value.
pub type Outcome = Result<SummaryInfoView, FetchError>;

/// The value of what a fetch of the summary brought.
pub open spec fn outcome_of(fetched: Result<SummaryInfo, FetchError>) -> Outcome {
    match fetched {
        Ok(info) => Ok(info@),
        Err(error) => Err(error),
    }
}

/// Whether the summary says that the service is operational: its indicator
/// is the word that gets the success marker.
pub open spec fn is_operational(info: SummaryInfoView) -> bool {
    severity_marker(info.status.indicator) == Marker::Success
}

impl WatchConfig {
    /// Whether the loop ends after a fetch that brought `outcome`. It ends
    /// only if it was asked to and the service is operational; a failed
    /// fetch never ends it.
    pub open spec fn halts(self, outcome: Outcome) -> bool {
        self.stop_on_operational && match outcome {
            Ok(info) => is_operational(info),
            Err(_) => false,
        }
    }

    /// What follows a fetch that brought `outcome`.
    pub open spec fn next_after(self, outcome: Outcome) -> Next {
        if self.halts(outcome) {
            Next::Finish
        } else {
            Next::Poll { after_secs: self.interval_secs }
        }
    }

    /// How many fetches the loop makes when its fetches bring `outcomes` in
    /// turn and nothing interrupts it from outside.
    pub open spec fn polls(self, outcomes: Seq<Outcome>) -> nat
        decreases outcomes.len(),
    {
        if outcomes.len() == 0 {
            0
        } else if self.halts(outcomes.first()) {
            1
        } else {
            1 + self.polls(outcomes.drop_first())
        }
    }

    /// The configuration for a pause of `minutes` minutes. There is none
    /// where the pause in seconds does not fit in 64 bits.
    pub fn from_minutes(minutes: u64, stop_on_operational: bool) -> (config: Option<WatchConfig>)
        ensures
            minutes * 60 <= u64::MAX ==> config == Some(
                WatchConfig { interval_secs: (minutes * 60) as u64, stop_on_operational },
            ),
            minutes * 60 > u64::MAX ==> config is None,
    {
        if minutes <= u64::MAX / 60 {
            Some(WatchConfig { interval_secs: minutes * 60, stop_on_operational })
        } else {
            None
        }
    }

    /// How the loop begins: with a pause, then the first fetch.
    pub fn start(&self) -> (next: Next)
        ensures
            next == (Next::Poll { after_secs: self.interval_secs }),
    {
        Next::Poll { after_secs: self.interval_secs }
    }

    /// What a fetch leads to: the lines to print, which are the summary or
    /// the failure line, and whether the loop goes on.
    pub fn step(&self, fetched: &Result<SummaryInfo, FetchError>) -> (step: WatchStep)
        ensures
            step.lines.deep_view() == presented(*fetched),
            step.next == self.next_after(outcome_of(*fetched)),
    {
        let lines = present(fetched);
        let halt = self.stop_on_operational && match fetched {
            Ok(info) => match Marker::for_severity(info.status.indicator.as_str()) {
                Marker::Success => true,
                _ => false,
            },
            Err(_) => false,
        };
        let next = if halt {
            Next::Finish
        } else {
            Next::Poll { after_secs: self.interval_secs }
        };
        WatchStep { lines, next }
    }
}

/// The loop never makes more fetches than there are outcomes to bring.
pub proof fn lemma_polls_bounded(config: WatchConfig, outcomes: Seq<Outcome>)
    ensures
        config.polls(outcomes) <= outcomes.len(),
    decreases outcomes.len(),
{
    if outcomes.len() > 0 && !config.halts(outcomes.first()) {
        lemma_polls_bounded(config, outcomes.drop_first());
    }
}

/// The loop goes on as long as no outcome ends it: where none of the
/// outcomes does, it makes a fetch for each of them.
pub proof fn lemma_polls_all_without_halt(config: WatchConfig, outcomes: Seq<Outcome>)
    requires
        forall|i: int| 0 <= i < outcomes.len() ==> !config.halts(#[trigger] outcomes[i]),
    ensures
        config.polls(outcomes) == outcomes.len(),
    decreases outcomes.len(),
{
    if outcomes.len() > 0 {
        let rest = outcomes.drop_first();
        assert forall|i: int| 0 <= i < rest.len() implies !config.halts(#[trigger] rest[i]) by {
            assert(rest[i] == outcomes[i + 1]);
        }
        lemma_polls_all_without_halt(config, rest);
    }
}

/// A loop that was not asked to end when the service is operational never
/// ends by itself, whatever its fetches bring.
pub proof fn lemma_unconditional_watch_never_halts(config: WatchConfig, outcomes: Seq<Outcome>)
    requires
        !config.stop_on_operational,
    ensures
        config.polls(outcomes) == outcomes.len(),
{
    lemma_polls_all_without_halt(config, outcomes);
}

/// Failed fetches do not end the loop.
pub proof fn lemma_failures_do_not_halt(config: WatchConfig, outcomes: Seq<Outcome>)
    requires
        forall|i: int| 0 <= i < outcomes.len() ==> (#[trigger] outcomes[i]) is Err,
    ensures
        config.polls(outcomes) == outcomes.len(),
{
    lemma_polls_all_without_halt(config, outcomes);
}

/// The loop ends with the first fetch that ends it: where the outcome at
/// `k` is the first to do so, the loop makes `k + 1` fetches, whatever the
/// outcomes after it would have been.
pub proof fn lemma_polls_until_first_halt(config: WatchConfig, outcomes: Seq<Outcome>, k: int)
    requires
        0 <= k < outcomes.len(),
        config.halts(outcomes[k]),
        forall|i: int| 0 <= i < k ==> !config.halts(#[trigger] outcomes[i]),
    ensures
        config.polls(outcomes) == k + 1,
    decreases k,
{
    if k > 0 {
        let rest = outcomes.drop_first();
        assert(rest[k - 1] == outcomes[k]);
        assert forall|i: int| 0 <= i < k - 1 implies !config.halts(#[trigger] rest[i]) by {
            assert(rest[i] == outcomes[i + 1]);
        }
        lemma_polls_until_first_halt(config, rest, k - 1);
    }
}

} // verus!
