//! The blocking view of a poll sequence: only its final outcome.

use crate::poll::element_view;
use crate::poll::elements_view;
use crate::poll::Element;
use crate::response::ClientError;
use crate::response::GraphResponse;
use crate::response::GraphResponseView;
use crate::status::GraphResponseStatuses;
use vstd::prelude::*;

verus! {

/// The outcome reported for a sequence that emitted nothing: a generic error
/// without graph or progress.
pub open spec fn unknown_outcome() -> GraphResponseView {
    GraphResponseView { status: GraphResponseStatuses::Error, graph_json: None, progress: None }
}

/// The outcome after one more element: a failure, once seen, stays; until
/// then the newest element counts.
pub open spec fn settle(current: Element, element: Element) -> Element {
    match current {
        Ok(_) => element,
        Err(_) => current,
    }
}

/// The final outcome of a sequence of elements: its first failure if it has
/// one, else its last element, else the unknown outcome.
pub open spec fn final_outcome(elements: Seq<Element>) -> Element
    decreases elements.len(),
{
    if elements.len() == 0 {
        Ok(unknown_outcome())
    } else {
        settle(final_outcome(elements.drop_last()), elements.last())
    }
}

/// The final outcome of a sequence without failure is its last element.
pub proof fn lemma_final_outcome_without_failure(elements: Seq<Element>)
    requires
        elements.len() > 0,
        forall|i: int| 0 <= i < elements.len() ==> elements[i] is Ok,
    ensures
        final_outcome(elements) == elements.last(),
    decreases elements.len(),
{
    let earlier = elements.drop_last();
    if earlier.len() > 0 {
        lemma_final_outcome_without_failure(earlier);
        assert(earlier.last() == elements[elements.len() - 2]);
    } else {
        assert(final_outcome(earlier) is Ok);
    }
}

/// The final outcome of a sequence with a failure is its first failure.
pub proof fn lemma_final_outcome_with_failure(elements: Seq<Element>, first: int)
    requires
        0 <= first < elements.len(),
        elements[first] is Err,
        forall|i: int| 0 <= i < first ==> elements[i] is Ok,
    ensures
        final_outcome(elements) == elements[first],
    decreases elements.len(),
{
    if first == elements.len() - 1 {
        if first > 0 {
            lemma_final_outcome_without_failure(elements.drop_last());
        }
    } else {
        lemma_final_outcome_with_failure(elements.drop_last(), first);
    }
}

/// Follows a poll sequence and keeps what its final outcome is so far.
#[derive(Debug)]
pub struct Aggregate {
    current: Result<GraphResponse, ClientError>,
}

impl View for Aggregate {
    type V = Element;

    closed spec fn view(&self) -> Element {
        element_view(self.current)
    }
}

impl Aggregate {
    /// Nothing seen yet.
    pub fn new() -> (aggregate: Aggregate)
        ensures
            aggregate@ == final_outcome(Seq::empty()),
    {
        Aggregate { current: Ok(GraphResponse::unknown()) }
    }

    /// Takes in the next element of the sequence.
    pub fn accept(&mut self, element: Result<GraphResponse, ClientError>)
        ensures
            final(self)@ == settle(old(self)@, element_view(element)),
    {
        if self.current.is_ok() {
            self.current = element;
        }
    }

    /// Whether a failure has been seen.
    pub fn has_failed(&self) -> (failed: bool)
        ensures
            failed == (self@ is Err),
    {
        self.current.is_err()
    }

    /// The final outcome of what was seen.
    pub fn finish(self) -> (outcome: Result<GraphResponse, ClientError>)
        ensures
            element_view(outcome) == self@,
    {
        self.current
    }
}

/// The final outcome of a whole sequence.
pub fn aggregate(elements: Vec<Result<GraphResponse, ClientError>>) -> (outcome: Result<
    GraphResponse,
    ClientError,
>)
    ensures
        element_view(outcome) == final_outcome(elements_view(elements@)),
{
    let ghost all = elements_view(elements@);
    let mut aggregate = Aggregate::new();
    for element in iter: elements
        invariant
            all == elements_view(iter.seq()),
            aggregate@ == final_outcome(all.take(iter.index() as int)),
    {
        proof {
            let done = iter.index() as int;
            assert(all.take(done + 1).drop_last() =~= all.take(done));
            assert(all.take(done + 1).last() == element_view(element));
        }
        aggregate.accept(element);
    }
    proof {
        assert(all.take(all.len() as int) =~= all);
    }
    aggregate.finish()
}

} // verus!
