//! What is shown for a fetch, whether it brought a payload or not.

use vstd::prelude::*;

use crate::line::{marked, push_line, Line, LineView, Marker};
use crate::render::Renderable;

verus! {

/// Why a fetch brought no payload.
#[derive(Clone, Copy, Debug, PartialEq, Eq, Structural)]
pub enum FetchError {
    /// The page could not be reached, or did not answer as a page does.
    Network,
    /// The answer was not a payload of the expected shape.
    Parse,
}

/// The one line that is shown when a fetch brought no payload. It does not
/// say why.
pub open spec fn failure_line() -> LineView {
    marked("Error retrieving information"@, Marker::Severe)
}

/// What is shown for a fetch: the payload's report, or the failure line
/// alone.
pub open spec fn presented<T: Renderable>(fetched: Result<T, FetchError>) -> Seq<LineView> {
    match fetched {
        Ok(payload) => payload.report(),
        Err(_) => seq![failure_line()],
    }
}

/// Computes what is shown for a fetch. There is no report in between: the
/// whole report of the payload, or the failure line and nothing else.
pub fn present<T: Renderable>(fetched: &Result<T, FetchError>) -> (out: Vec<Line>)
    ensures
        out.deep_view() == presented(*fetched),
{
    match fetched {
        Ok(payload) => payload.render(),
        Err(_) => {
            let mut out: Vec<Line> = Vec::new();
            push_line(&mut out, Line::marked("Error retrieving information", Marker::Severe));
            assert(out.deep_view() =~= seq![failure_line()]);
            out
        },
    }
}

/// A failed fetch shows exactly one line, the same whatever the failure
/// was.
pub proof fn lemma_failure_shows_one_line<T: Renderable>(error: FetchError)
    ensures
        presented::<T>(Err(error)).len() == 1,
        presented::<T>(Err(error))[0].content() == "Error retrieving information"@,
        presented::<T>(Err(error)) == presented::<T>(Err(FetchError::Network)),
{
    assert(failure_line().content() =~= "Error retrieving information"@);
}

} // verus!
