//! The polling state machine.
//!
//! One poll sequence answers one request for a graph. The caller performs
//! the GETs and the waiting; after every GET it hands the reply to
//! [`GraphPoll::on_reply`], which decides whether an outcome is emitted and
//! whether polling goes on. [`step`] and [`emission`] say what that decision
//! is, and [`run`] says what a whole exchange amounts to.

use crate::json::Json;
use crate::response::decoded_bytes;
use crate::response::graph_view;
use crate::response::is_success;
use crate::response::status_is_success;
use crate::response::ClientError;
use crate::response::ClientErrorView;
use crate::response::GraphResponse;
use crate::response::GraphResponseView;
use crate::response::GraphSnapshot;
use crate::response::TransportReply;
use crate::response::TransportReplyView;
use crate::status::is_end_status;
use crate::status::is_terminal;
use crate::status::GraphResponseStatuses;
use vstd::prelude::*;

verus! {

/// Failed attempts that a poll sequence tolerates by default.
pub const RETRY_BUDGET: u32 = 3;

/// Default pause between two routine polls, in milliseconds.
pub const SLEEP_TIME_BETWEEN_CHECKS: u64 = 1000;

/// Default pause before a failed attempt is repeated, in milliseconds.
pub const SLEEP_TIME_AFTER_ERROR: u64 = 5000;

/// The knobs of a poll sequence.
#[derive(Clone, Copy, Debug, PartialEq, Eq, Structural)]
pub struct PollConfig {
    /// Failed attempts after which the sequence gives up.
    pub retry_budget: u32,
    /// Pause after an intermediate outcome, in milliseconds.
    pub poll_interval_ms: u64,
    /// Pause after a failed attempt, in milliseconds.
    pub error_backoff_ms: u64,
}

/// The knobs of a poll sequence unless others are chosen.
pub open spec fn default_config() -> PollConfig {
    PollConfig {
        retry_budget: RETRY_BUDGET,
        poll_interval_ms: SLEEP_TIME_BETWEEN_CHECKS,
        error_backoff_ms: SLEEP_TIME_AFTER_ERROR,
    }
}

impl Default for PollConfig {
    fn default() -> (config: PollConfig)
        ensures
            config == default_config(),
    {
        PollConfig {
            retry_budget: RETRY_BUDGET,
            poll_interval_ms: SLEEP_TIME_BETWEEN_CHECKS,
            error_backoff_ms: SLEEP_TIME_AFTER_ERROR,
        }
    }
}

/// What stays the same for the whole of a poll sequence.
#[derive(Clone, Copy, Debug, PartialEq, Eq, Structural)]
pub struct PollRules {
    pub config: PollConfig,
    /// Whether polling goes on until the status is terminal. Without it the
    /// first decoded response ends the sequence.
    pub loop_until_fresh: bool,
}

/// What changes from one attempt to the next.
pub struct PollState {
    /// Failed attempts still tolerated. Only a failed attempt lowers it.
    pub retries_remaining: u32,
    /// Whether a response has ended the sequence.
    pub stopped: bool,
    /// The newest graph that any response has carried so far.
    pub last_known_graph: Option<Json>,
    /// The flag that the next request carries.
    pub fresh_only: bool,
    /// The pause owed before the next request, in milliseconds.
    pub wait_ms: u64,
}

/// One element of a poll sequence, and also one attempt as it is judged: a
/// decoded response or the failure to get one.
pub type Element = Result<GraphResponseView, ClientErrorView>;

/// What the caller is to do next.
#[derive(Clone, Copy, Debug, PartialEq, Eq, Structural)]
pub enum PollAction {
    /// Nothing: the sequence has ended.
    Done,
    /// Let this many milliseconds pass, then report it with `waited`.
    Wait(u64),
    /// Send one GET for the graph with this flag and report the reply.
    Request { fresh_only: bool },
}

/// The state in which a sequence starts.
pub open spec fn initial_state(rules: PollRules, fresh_only: bool) -> PollState {
    PollState {
        retries_remaining: rules.config.retry_budget,
        stopped: false,
        last_known_graph: None,
        fresh_only,
        wait_ms: 0,
    }
}

/// Whether the sequence has ended: a response has stopped it, or no failed
/// attempt is tolerated any more.
pub open spec fn finished(state: PollState) -> bool {
    state.stopped || state.retries_remaining == 0
}

/// What the caller is to do in `state`.
pub open spec fn action(state: PollState) -> PollAction {
    if finished(state) {
        PollAction::Done
    } else if state.wait_ms > 0 {
        PollAction::Wait(state.wait_ms)
    } else {
        PollAction::Request { fresh_only: state.fresh_only }
    }
}

/// A decoded response as it is emitted: with its own graph where it has
/// one, and with the newest graph seen before where it has none.
pub open spec fn carried(state: PollState, response: GraphResponseView) -> GraphResponseView {
    GraphResponseView {
        status: response.status,
        graph_json: if response.graph_json is Some {
            response.graph_json
        } else {
            state.last_known_graph
        },
        progress: response.progress,
    }
}

/// Whether a response with `status` ends the sequence.
pub open spec fn stops(rules: PollRules, status: GraphResponseStatuses) -> bool {
    is_terminal(status) || !rules.loop_until_fresh
}

/// The state after `attempt` has been judged in `state`. An ended sequence
/// stays as it is.
pub open spec fn step(rules: PollRules, state: PollState, attempt: Element) -> PollState {
    if finished(state) {
        state
    } else {
        match attempt {
            Ok(response) => PollState {
                retries_remaining: state.retries_remaining,
                stopped: stops(rules, response.status),
                last_known_graph: carried(state, response).graph_json,
                fresh_only: true,
                wait_ms: if stops(rules, response.status) {
                    0
                } else {
                    rules.config.poll_interval_ms
                },
            },
            Err(_) => PollState {
                retries_remaining: (state.retries_remaining - 1) as u32,
                stopped: false,
                last_known_graph: state.last_known_graph,
                fresh_only: true,
                wait_ms: if state.retries_remaining == 1 {
                    0
                } else {
                    rules.config.error_backoff_ms
                },
            },
        }
    }
}

/// The element that judging `attempt` in `state` adds to the sequence, if
/// any: every decoded response, and the failure that spends the last retry.
pub open spec fn emission(rules: PollRules, state: PollState, attempt: Element) -> Option<
    Element,
> {
    if finished(state) {
        None
    } else {
        match attempt {
            Ok(response) => Some(Ok(carried(state, response))),
            Err(failure) => if state.retries_remaining == 1 {
                Some(Err(failure))
            } else {
                None
            },
        }
    }
}

/// How a reply to a poll is judged: a missing reply and an HTTP status that
/// reports no success are failures, and so is a body that cannot be decoded.
pub open spec fn attempt_of(reply: TransportReplyView) -> Element {
    match reply {
        TransportReplyView::Failed(detail) => Err(ClientErrorView::TransportFailure(detail)),
        TransportReplyView::Response { status, body } => if !is_success(status) {
            Err(ClientErrorView::BadHttpStatus(status))
        } else {
            match decoded_bytes(body) {
                Some(response) => Ok(response),
                None => Err(ClientErrorView::DecodeFailure),
            }
        },
    }
}

/// What an exchange amounts to.
pub struct Trace {
    /// The state in which the exchange leaves the sequence.
    pub state: PollState,
    /// The elements emitted, in order.
    pub emitted: Seq<Element>,
    /// How many requests were made.
    pub requests: nat,
}

/// The exchange in which the requests are answered by `attempts`, in order,
/// starting in `start`. Attempts that are left when the sequence ends are
/// never made.
pub open spec fn run(rules: PollRules, start: PollState, attempts: Seq<Element>) -> Trace
    decreases attempts.len(),
{
    if attempts.len() == 0 {
        Trace { state: start, emitted: Seq::empty(), requests: 0 }
    } else {
        let before = run(rules, start, attempts.drop_last());
        if finished(before.state) {
            before
        } else {
            Trace {
                state: step(rules, before.state, attempts.last()),
                emitted: match emission(rules, before.state, attempts.last()) {
                    Some(element) => before.emitted.push(element),
                    None => before.emitted,
                },
                requests: before.requests + 1,
            }
        }
    }
}

/// An attempt or element as a mathematical value.
pub open spec fn element_view(element: Result<GraphResponse, ClientError>) -> Element {
    match element {
        Ok(response) => Ok(response@),
        Err(failure) => Err(failure@),
    }
}

/// An element that may be absent, as a mathematical value.
pub open spec fn emitted_view(emitted: Option<Result<GraphResponse, ClientError>>) -> Option<
    Element,
> {
    match emitted {
        Some(element) => Some(element_view(element)),
        None => None,
    }
}

/// A list of elements as a sequence of mathematical values.
pub open spec fn elements_view(elements: Seq<Result<GraphResponse, ClientError>>) -> Seq<Element> {
    elements.map_values(|element: Result<GraphResponse, ClientError>| element_view(element))
}

/// How each of `replies` is judged.
pub open spec fn attempts_of(replies: Seq<TransportReply>) -> Seq<Element> {
    replies.map_values(|reply: TransportReply| attempt_of(reply@))
}

/// Once a sequence has ended, further attempts change nothing.
pub proof fn lemma_run_stays_finished(
    rules: PollRules,
    start: PollState,
    attempts: Seq<Element>,
    made: int,
)
    requires
        0 <= made <= attempts.len(),
        finished(run(rules, start, attempts.take(made)).state),
    ensures
        run(rules, start, attempts) == run(rules, start, attempts.take(made)),
    decreases attempts.len(),
{
    if made == attempts.len() {
        assert(attempts.take(made) =~= attempts);
    } else {
        assert(attempts.drop_last().take(made) =~= attempts.take(made));
        lemma_run_stays_finished(rules, start, attempts.drop_last(), made);
    }
}

/// A poll sequence in progress.
#[derive(Debug)]
pub struct GraphPoll {
    paper_id: String,
    rules: PollRules,
    retries_remaining: u32,
    stopped: bool,
    last_known_graph: Option<GraphSnapshot>,
    fresh_only: bool,
    wait_ms: u64,
}

impl View for GraphPoll {
    type V = PollState;

    closed spec fn view(&self) -> PollState {
        PollState {
            retries_remaining: self.retries_remaining,
            stopped: self.stopped,
            last_known_graph: graph_view(self.last_known_graph),
            fresh_only: self.fresh_only,
            wait_ms: self.wait_ms,
        }
    }
}

/// What a poll sequence has emitted and how many requests that took.
#[derive(Debug, PartialEq)]
pub struct Transcript {
    pub emitted: Vec<Result<GraphResponse, ClientError>>,
    pub requests: usize,
}

/// Judges one reply to a poll.
pub fn classify(reply: &TransportReply) -> (attempt: Result<GraphResponse, ClientError>)
    ensures
        element_view(attempt) == attempt_of(reply@),
{
    match reply {
        TransportReply::Failed(detail) => Err(ClientError::TransportFailure(detail.clone())),
        TransportReply::Response { status, body } => {
            if !status_is_success(*status) {
                Err(ClientError::BadHttpStatus(*status))
            } else {
                GraphResponse::decode(body.as_slice())
            }
        },
    }
}

impl GraphPoll {
    /// The paper whose graph is asked for.
    pub closed spec fn spec_paper_id(&self) -> Seq<char> {
        self.paper_id@
    }

    /// What stays the same for the whole of this sequence.
    pub closed spec fn spec_rules(&self) -> PollRules {
        self.rules
    }

    /// Starts a sequence for the graph of `paper_id`. The first request
    /// carries `initial_fresh_only`.
    pub fn new(
        paper_id: String,
        initial_fresh_only: bool,
        loop_until_fresh: bool,
        config: PollConfig,
    ) -> (poll: GraphPoll)
        ensures
            poll.spec_paper_id() == paper_id@,
            poll.spec_rules() == (PollRules { config, loop_until_fresh }),
            poll@ == initial_state(poll.spec_rules(), initial_fresh_only),
    {
        GraphPoll {
            paper_id,
            rules: PollRules { config, loop_until_fresh },
            retries_remaining: config.retry_budget,
            stopped: false,
            last_known_graph: None,
            fresh_only: initial_fresh_only,
            wait_ms: 0,
        }
    }

    /// What the caller is to do next.
    pub fn next_action(&self) -> (next: PollAction)
        ensures
            next == action(self@),
    {
        if self.is_finished() {
            PollAction::Done
        } else if self.wait_ms > 0 {
            PollAction::Wait(self.wait_ms)
        } else {
            PollAction::Request { fresh_only: self.fresh_only }
        }
    }

    /// Records that the pause owed has passed.
    pub fn waited(&mut self)
        ensures
            final(self)@ == (PollState { wait_ms: 0, ..old(self)@ }),
            final(self).spec_rules() == old(self).spec_rules(),
            final(self).spec_paper_id() == old(self).spec_paper_id(),
    {
        self.wait_ms = 0;
    }

    /// Judges one attempt: moves to the next state and hands out the element
    /// that the attempt adds to the sequence, if it adds one.
    pub fn advance(&mut self, attempt: Result<GraphResponse, ClientError>) -> (emitted: Option<
        Result<GraphResponse, ClientError>,
    >)
        ensures
            final(self)@ == step(old(self).spec_rules(), old(self)@, element_view(attempt)),
            emitted_view(emitted) == emission(
                old(self).spec_rules(),
                old(self)@,
                element_view(attempt),
            ),
            final(self).spec_rules() == old(self).spec_rules(),
            final(self).spec_paper_id() == old(self).spec_paper_id(),
    {
        if self.is_finished() {
            return None;
        }
        self.fresh_only = true;
        match attempt {
            Ok(response) => {
                let mut outcome = response;
                match &outcome.graph_json {
                    Some(graph) => {
                        self.last_known_graph = Some(graph.clone());
                    },
                    None => {
                        outcome.graph_json = match &self.last_known_graph {
                            Some(graph) => Some(graph.clone()),
                            None => None,
                        };
                    },
                }
                if is_end_status(&outcome.status) || !self.rules.loop_until_fresh {
                    self.stopped = true;
                    self.wait_ms = 0;
                } else {
                    self.wait_ms = self.rules.config.poll_interval_ms;
                }
                Some(Ok(outcome))
            },
            Err(failure) => {
                self.retries_remaining = self.retries_remaining - 1;
                if self.retries_remaining == 0 {
                    self.wait_ms = 0;
                    Some(Err(failure))
                } else {
                    self.wait_ms = self.rules.config.error_backoff_ms;
                    None
                }
            },
        }
    }

    /// Judges the reply to the request just made.
    pub fn on_reply(&mut self, reply: &TransportReply) -> (emitted: Option<
        Result<GraphResponse, ClientError>,
    >)
        ensures
            final(self)@ == step(old(self).spec_rules(), old(self)@, attempt_of(reply@)),
            emitted_view(emitted) == emission(
                old(self).spec_rules(),
                old(self)@,
                attempt_of(reply@),
            ),
            final(self).spec_rules() == old(self).spec_rules(),
            final(self).spec_paper_id() == old(self).spec_paper_id(),
    {
        if self.is_finished() {
            return None;
        }
        let attempt = classify(reply);
        self.advance(attempt)
    }

    /// Plays a recorded exchange: the replies answer, in order, the requests
    /// that this sequence makes, without any pause. Replies that are left
    /// when the sequence ends are not looked at.
    pub fn replay(&mut self, replies: &Vec<TransportReply>) -> (transcript: Transcript)
        ensures
            final(self)@ == run(old(self).spec_rules(), old(self)@, attempts_of(replies@)).state,
            elements_view(transcript.emitted@) == run(
                old(self).spec_rules(),
                old(self)@,
                attempts_of(replies@),
            ).emitted,
            transcript.requests == run(
                old(self).spec_rules(),
                old(self)@,
                attempts_of(replies@),
            ).requests,
            final(self).spec_rules() == old(self).spec_rules(),
            final(self).spec_paper_id() == old(self).spec_paper_id(),
    {
        let ghost rules = self.spec_rules();
        let ghost start = self@;
        let ghost attempts = attempts_of(replies@);
        let mut emitted: Vec<Result<GraphResponse, ClientError>> = Vec::new();
        let mut requests: usize = 0;
        let mut i: usize = 0;
        assert(elements_view(emitted@) =~= Seq::<Element>::empty());
        while i < replies.len() && !self.is_finished()
            invariant
                i <= replies.len(),
                requests <= i,
                attempts == attempts_of(replies@),
                self.spec_rules() == rules,
                self.spec_paper_id() == old(self).spec_paper_id(),
                self@ == run(rules, start, attempts.take(i as int)).state,
                elements_view(emitted@) == run(rules, start, attempts.take(i as int)).emitted,
                requests == run(rules, start, attempts.take(i as int)).requests,
            decreases replies.len() - i,
        {
            let ghost before = run(rules, start, attempts.take(i as int));
            let ghost shown = elements_view(emitted@);
            proof {
                assert(attempts.take(i + 1).drop_last() =~= attempts.take(i as int));
                assert(attempts.take(i + 1).last() == attempt_of(replies@[i as int]@));
            }
            match self.on_reply(&replies[i]) {
                Some(element) => {
                    emitted.push(element);
                    assert(elements_view(emitted@) =~= shown.push(element_view(element)));
                },
                None => {},
            }
            requests = requests + 1;
            i = i + 1;
        }
        proof {
            if i < replies.len() {
                lemma_run_stays_finished(rules, start, attempts, i as int);
            } else {
                assert(attempts.take(i as int) =~= attempts);
            }
        }
        Transcript { emitted, requests }
    }

    /// The paper whose graph is asked for.
    pub fn paper_id(&self) -> (id: &String)
        ensures
            id@ == self.spec_paper_id(),
    {
        &self.paper_id
    }

    /// What stays the same for the whole of this sequence.
    pub fn rules(&self) -> (rules: PollRules)
        ensures
            rules == self.spec_rules(),
    {
        self.rules
    }

    /// Whether the sequence has ended.
    pub fn is_finished(&self) -> (ended: bool)
        ensures
            ended == finished(self@),
    {
        self.stopped || self.retries_remaining == 0
    }

    /// Whether a response has ended the sequence.
    pub fn has_stopped(&self) -> (stopped: bool)
        ensures
            stopped == self@.stopped,
    {
        self.stopped
    }

    /// Failed attempts still tolerated.
    pub fn retries_remaining(&self) -> (left: u32)
        ensures
            left == self@.retries_remaining,
    {
        self.retries_remaining
    }

    /// The flag that the next request carries.
    pub fn fresh_only(&self) -> (flag: bool)
        ensures
            flag == self@.fresh_only,
    {
        self.fresh_only
    }

    /// The newest graph that any response has carried so far.
    pub fn last_known_graph(&self) -> (graph: &Option<GraphSnapshot>)
        ensures
            graph_view(*graph) == self@.last_known_graph,
    {
        &self.last_known_graph
    }
}

} // verus!
