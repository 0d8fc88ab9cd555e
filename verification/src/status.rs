//! The status taxonomy of a graph response and its wire spelling.

use crate::text::str_eq;
use vstd::prelude::*;

verus! {

/// What the service says about the graph of the requested paper.
#[derive(Clone, Copy, Debug, PartialEq, Eq, Structural, Hash)]
pub enum GraphResponseStatuses {
    /// The paper identifier is unknown or invalid.
    BadId,
    /// Generic failure; also what an unknown or missing status is read as.
    Error,
    /// The paper is not indexed.
    NotInDb,
    /// A graph exists but is outdated.
    OldGraph,
    /// The graph is up to date.
    FreshGraph,
    /// The graph is being computed.
    InProgress,
    /// The computation is waiting to start.
    Queued,
    /// The credential was rejected.
    BadToken,
    /// The request was malformed.
    BadRequest,
    /// The usage limit is spent.
    OutOfRequests,
}

/// A status after which polling again is pointless: every status but the
/// three that announce more to come.
pub open spec fn is_terminal(status: GraphResponseStatuses) -> bool {
    !(status is OldGraph || status is InProgress || status is Queued)
}

/// The place of a status in declaration order.
pub open spec fn ordinal(status: GraphResponseStatuses) -> int {
    match status {
        GraphResponseStatuses::BadId => 0,
        GraphResponseStatuses::Error => 1,
        GraphResponseStatuses::NotInDb => 2,
        GraphResponseStatuses::OldGraph => 3,
        GraphResponseStatuses::FreshGraph => 4,
        GraphResponseStatuses::InProgress => 5,
        GraphResponseStatuses::Queued => 6,
        GraphResponseStatuses::BadToken => 7,
        GraphResponseStatuses::BadRequest => 8,
        GraphResponseStatuses::OutOfRequests => 9,
    }
}

/// The spelling of a status in a response body: its name in upper case with
/// underscores between the words. The characters are written out one by one
/// so that a proof about a given text needs nothing revealed but that text.
pub open spec fn wire_name(status: GraphResponseStatuses) -> Seq<char> {
    match status {
        // BAD_ID
        GraphResponseStatuses::BadId => seq!['B', 'A', 'D', '_', 'I', 'D'],
        // ERROR
        GraphResponseStatuses::Error => seq!['E', 'R', 'R', 'O', 'R'],
        // NOT_IN_DB
        GraphResponseStatuses::NotInDb => seq!['N', 'O', 'T', '_', 'I', 'N', '_', 'D', 'B'],
        // OLD_GRAPH
        GraphResponseStatuses::OldGraph => seq!['O', 'L', 'D', '_', 'G', 'R', 'A', 'P', 'H'],
        // FRESH_GRAPH
        GraphResponseStatuses::FreshGraph => seq![
            'F', 'R', 'E', 'S', 'H', '_', 'G', 'R', 'A', 'P', 'H',
        ],
        // IN_PROGRESS
        GraphResponseStatuses::InProgress => seq![
            'I', 'N', '_', 'P', 'R', 'O', 'G', 'R', 'E', 'S', 'S',
        ],
        // QUEUED
        GraphResponseStatuses::Queued => seq!['Q', 'U', 'E', 'U', 'E', 'D'],
        // BAD_TOKEN
        GraphResponseStatuses::BadToken => seq!['B', 'A', 'D', '_', 'T', 'O', 'K', 'E', 'N'],
        // BAD_REQUEST
        GraphResponseStatuses::BadRequest => seq![
            'B', 'A', 'D', '_', 'R', 'E', 'Q', 'U', 'E', 'S', 'T',
        ],
        // OUT_OF_REQUESTS
        GraphResponseStatuses::OutOfRequests => seq![
            'O', 'U', 'T', '_', 'O', 'F', '_', 'R', 'E', 'Q', 'U', 'E', 'S', 'T', 'S',
        ],
    }
}

/// The status spelled `text`, if there is one.
pub open spec fn status_named(text: Seq<char>) -> Option<GraphResponseStatuses> {
    if text =~= wire_name(GraphResponseStatuses::BadId) {
        Some(GraphResponseStatuses::BadId)
    } else if text =~= wire_name(GraphResponseStatuses::Error) {
        Some(GraphResponseStatuses::Error)
    } else if text =~= wire_name(GraphResponseStatuses::NotInDb) {
        Some(GraphResponseStatuses::NotInDb)
    } else if text =~= wire_name(GraphResponseStatuses::OldGraph) {
        Some(GraphResponseStatuses::OldGraph)
    } else if text =~= wire_name(GraphResponseStatuses::FreshGraph) {
        Some(GraphResponseStatuses::FreshGraph)
    } else if text =~= wire_name(GraphResponseStatuses::InProgress) {
        Some(GraphResponseStatuses::InProgress)
    } else if text =~= wire_name(GraphResponseStatuses::Queued) {
        Some(GraphResponseStatuses::Queued)
    } else if text =~= wire_name(GraphResponseStatuses::BadToken) {
        Some(GraphResponseStatuses::BadToken)
    } else if text =~= wire_name(GraphResponseStatuses::BadRequest) {
        Some(GraphResponseStatuses::BadRequest)
    } else if text =~= wire_name(GraphResponseStatuses::OutOfRequests) {
        Some(GraphResponseStatuses::OutOfRequests)
    } else {
        None
    }
}

/// Whether some status is spelled `text`.
pub open spec fn is_wire_name(text: Seq<char>) -> bool {
    status_named(text) is Some
}

/// The status a response is given when its status field holds `field`: the
/// status spelled that way, and `Error` when the field is missing or spells
/// no status.
pub open spec fn status_of_field(field: Option<Seq<char>>) -> GraphResponseStatuses {
    match field {
        Some(text) => match status_named(text) {
            Some(status) => status,
            None => GraphResponseStatuses::Error,
        },
        None => GraphResponseStatuses::Error,
    }
}

/// A text names a status exactly when it is the spelling of that status. In
/// particular no two statuses share a spelling, and reading back the
/// spelling of a status gives that status.
pub proof fn lemma_status_named(text: Seq<char>, status: GraphResponseStatuses)
    ensures
        status_named(text) == Some(status) <==> text == wire_name(status),
        status_named(wire_name(status)) == Some(status),
        status_of_field(Some(wire_name(status))) == status,
{
}

/// Whether `status` ends a polling sequence.
pub fn is_end_status(status: &GraphResponseStatuses) -> (end: bool)
    ensures
        end == is_terminal(*status),
{
    matches!(
        status,
        GraphResponseStatuses::BadId
            | GraphResponseStatuses::Error
            | GraphResponseStatuses::NotInDb
            | GraphResponseStatuses::FreshGraph
            | GraphResponseStatuses::BadToken
            | GraphResponseStatuses::BadRequest
            | GraphResponseStatuses::OutOfRequests
    )
}

impl GraphResponseStatuses {
    /// Every status, in declaration order.
    pub fn all() -> (list: [GraphResponseStatuses; 10])
        ensures
            forall|status: GraphResponseStatuses| #[trigger] list@[ordinal(status)] == status,
    {
        [
            GraphResponseStatuses::BadId,
            GraphResponseStatuses::Error,
            GraphResponseStatuses::NotInDb,
            GraphResponseStatuses::OldGraph,
            GraphResponseStatuses::FreshGraph,
            GraphResponseStatuses::InProgress,
            GraphResponseStatuses::Queued,
            GraphResponseStatuses::BadToken,
            GraphResponseStatuses::BadRequest,
            GraphResponseStatuses::OutOfRequests,
        ]
    }

    /// The spelling of this status in a response body.
    pub fn as_wire(&self) -> (name: &'static str)
        ensures
            name@ == wire_name(*self),
    {
        proof {
            reveal_strlit("BAD_ID");
            reveal_strlit("ERROR");
            reveal_strlit("NOT_IN_DB");
            reveal_strlit("OLD_GRAPH");
            reveal_strlit("FRESH_GRAPH");
            reveal_strlit("IN_PROGRESS");
            reveal_strlit("QUEUED");
            reveal_strlit("BAD_TOKEN");
            reveal_strlit("BAD_REQUEST");
            reveal_strlit("OUT_OF_REQUESTS");
        }
        let name = match self {
            GraphResponseStatuses::BadId => "BAD_ID",
            GraphResponseStatuses::Error => "ERROR",
            GraphResponseStatuses::NotInDb => "NOT_IN_DB",
            GraphResponseStatuses::OldGraph => "OLD_GRAPH",
            GraphResponseStatuses::FreshGraph => "FRESH_GRAPH",
            GraphResponseStatuses::InProgress => "IN_PROGRESS",
            GraphResponseStatuses::Queued => "QUEUED",
            GraphResponseStatuses::BadToken => "BAD_TOKEN",
            GraphResponseStatuses::BadRequest => "BAD_REQUEST",
            GraphResponseStatuses::OutOfRequests => "OUT_OF_REQUESTS",
        };
        assert(name@ =~= wire_name(*self));
        name
    }

    /// The status spelled `text`, if there is one.
    pub fn from_wire(text: &str) -> (found: Option<GraphResponseStatuses>)
        ensures
            found == status_named(text@),
    {
        let list = GraphResponseStatuses::all();
        let mut i: usize = 0;
        while i < 10
            invariant
                i <= 10,
                forall|status: GraphResponseStatuses| #[trigger] list@[ordinal(status)] == status,
                forall|k: int| 0 <= k < i ==> wire_name(#[trigger] list@[k]) != text@,
            decreases 10 - i,
        {
            let candidate = list[i];
            if str_eq(candidate.as_wire(), text) {
                proof {
                    lemma_status_named(text@, candidate);
                }
                return Some(candidate);
            }
            i += 1;
        }
        proof {
            assert forall|status: GraphResponseStatuses| wire_name(status) != text@ by {
                assert(wire_name(list@[ordinal(status)]) != text@);
            }
        }
        None
    }

    /// The status of a response whose status field holds `field`; a missing
    /// or unknown spelling is read as `Error` instead of being refused.
    pub fn from_field(field: Option<&str>) -> (status: GraphResponseStatuses)
        ensures
            status == status_of_field(
                match field {
                    Some(text) => Some(text@),
                    None => None,
                },
            ),
    {
        match field {
            Some(text) => match GraphResponseStatuses::from_wire(text) {
                Some(status) => status,
                None => GraphResponseStatuses::Error,
            },
            None => GraphResponseStatuses::Error,
        }
    }
}

} // verus!
