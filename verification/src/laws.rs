//! What holds of every poll sequence, proved from the definitions in
//! [`poll`](crate::poll), [`response`](crate::response) and
//! [`aggregate`](crate::aggregate).

use crate::aggregate::final_outcome;
use crate::json::json_parsed;
use crate::json::Json;
use crate::poll::attempt_of;
use crate::poll::attempts_of;
use crate::poll::carried;
use crate::poll::default_config;
use crate::poll::emission;
use crate::poll::finished;
use crate::poll::initial_state;
use crate::poll::run;
use crate::poll::step;
use crate::poll::stops;
use crate::poll::Element;
use crate::poll::PollRules;
use crate::poll::PollState;
use crate::poll::Trace;
use crate::response::decoded;
use crate::response::graph_field;
use crate::response::is_success;
use crate::response::progress_field;
use crate::response::status_text;
use crate::response::ClientErrorView;
use crate::response::GraphResponseView;
use crate::response::TransportReply;
use crate::response::TransportReplyView;
use crate::status::is_terminal;
use crate::status::is_wire_name;
use crate::status::GraphResponseStatuses;
use vstd::prelude::*;

verus! {

/// What one more attempt adds to an exchange.
pub open spec fn extended(rules: PollRules, before: Trace, attempt: Element) -> Trace {
    if finished(before.state) {
        before
    } else {
        Trace {
            state: step(rules, before.state, attempt),
            emitted: match emission(rules, before.state, attempt) {
                Some(element) => before.emitted.push(element),
                None => before.emitted,
            },
            requests: before.requests + 1,
        }
    }
}

/// An exchange with one more attempt is the exchange without it, extended.
pub proof fn lemma_run_push(
    rules: PollRules,
    start: PollState,
    attempts: Seq<Element>,
    attempt: Element,
)
    ensures
        run(rules, start, attempts.push(attempt)) == extended(
            rules,
            run(rules, start, attempts),
            attempt,
        ),
{
    assert(attempts.push(attempt).drop_last() =~= attempts);
}

/// An exchange makes at most one request per attempt, emits at most one
/// element per request, and never revives a sequence that has ended.
pub proof fn lemma_run_bounds(rules: PollRules, start: PollState, attempts: Seq<Element>)
    ensures
        run(rules, start, attempts).requests <= attempts.len(),
        run(rules, start, attempts).emitted.len() <= run(rules, start, attempts).requests,
        run(rules, start, attempts).state.retries_remaining <= start.retries_remaining,
        finished(start) ==> run(rules, start, attempts) == (Trace {
            state: start,
            emitted: Seq::empty(),
            requests: 0,
        }),
    decreases attempts.len(),
{
    if attempts.len() > 0 {
        lemma_run_bounds(rules, start, attempts.drop_last());
    }
}

/// An exchange can be cut in two: what the whole of it amounts to is what
/// its second part amounts to when started where the first part ends, with
/// the elements and requests of both parts put together.
pub proof fn lemma_run_in_two_parts(
    rules: PollRules,
    start: PollState,
    first: Seq<Element>,
    second: Seq<Element>,
)
    ensures
        ({
            let whole = run(rules, start, first + second);
            let head = run(rules, start, first);
            let tail = run(rules, head.state, second);
            &&& whole.state == tail.state
            &&& whole.emitted == head.emitted + tail.emitted
            &&& whole.requests == head.requests + tail.requests
        }),
    decreases second.len(),
{
    let head = run(rules, start, first);
    if second.len() == 0 {
        assert(first + second =~= first);
        assert(head.emitted + Seq::<Element>::empty() =~= head.emitted);
    } else {
        lemma_run_in_two_parts(rules, start, first, second.drop_last());
        assert((first + second).drop_last() =~= first + second.drop_last());
        let tail = run(rules, head.state, second.drop_last());
        match emission(rules, tail.state, second.last()) {
            Some(element) => {
                assert((head.emitted + tail.emitted).push(element) =~= head.emitted
                    + tail.emitted.push(element));
            },
            None => {},
        }
    }
}

/// Every element but the last is a response that keeps the sequence going;
/// the sequence has ended exactly when its last element is a failure or a
/// response that stops it.
pub proof fn lemma_only_the_last_element_is_final(
    rules: PollRules,
    start: PollState,
    attempts: Seq<Element>,
    i: int,
)
    requires
        !finished(start),
        0 <= i < run(rules, start, attempts).emitted.len(),
    ensures
        ({
            let trace = run(rules, start, attempts);
            let is_final = match trace.emitted[i] {
                Ok(response) => stops(rules, response.status),
                Err(_) => true,
            };
            if i < trace.emitted.len() - 1 {
                !is_final
            } else {
                is_final <==> finished(trace.state)
            }
        }),
    decreases attempts.len(),
{
    if attempts.len() > 0 {
        let before = run(rules, start, attempts.drop_last());
        if i < before.emitted.len() {
            lemma_only_the_last_element_is_final(rules, start, attempts.drop_last(), i);
        }
        if before.emitted.len() == 0 {
            lemma_unfinished_without_element(rules, start, attempts.drop_last());
        }
    }
}

/// A sequence that has emitted nothing has not ended, unless it had ended
/// before it began.
pub proof fn lemma_unfinished_without_element(
    rules: PollRules,
    start: PollState,
    attempts: Seq<Element>,
)
    requires
        !finished(start),
        run(rules, start, attempts).emitted.len() == 0,
    ensures
        !finished(run(rules, start, attempts).state),
    decreases attempts.len(),
{
    if attempts.len() > 0 {
        let before = run(rules, start, attempts.drop_last());
        lemma_run_bounds(rules, start, attempts.drop_last());
        if before.emitted.len() == 0 {
            lemma_unfinished_without_element(rules, start, attempts.drop_last());
        }
    }
}

/// A failure is only ever emitted as the last element of a sequence, and
/// the sequence has then ended.
pub proof fn lemma_failure_ends_sequence(
    rules: PollRules,
    start: PollState,
    attempts: Seq<Element>,
    i: int,
)
    requires
        0 <= i < run(rules, start, attempts).emitted.len(),
        run(rules, start, attempts).emitted[i] is Err,
    ensures
        i == run(rules, start, attempts).emitted.len() - 1,
        finished(run(rules, start, attempts).state),
    decreases attempts.len(),
{
    if attempts.len() > 0 {
        let before = run(rules, start, attempts.drop_last());
        if i < before.emitted.len() {
            lemma_failure_ends_sequence(rules, start, attempts.drop_last(), i);
        }
    }
}

/// How many of `attempts` fail.
pub open spec fn failures(attempts: Seq<Element>) -> nat
    decreases attempts.len(),
{
    if attempts.len() == 0 {
        0
    } else {
        failures(attempts.drop_last()) + (if attempts.last() is Err {
            1nat
        } else {
            0nat
        })
    }
}

/// The retry budget is spent by failed attempts and by nothing else: what is
/// left of it, together with the failures among the attempts made, is what
/// the sequence started with.
pub proof fn lemma_budget_is_spent_by_failures_only(
    rules: PollRules,
    start: PollState,
    attempts: Seq<Element>,
)
    ensures
        ({
            let trace = run(rules, start, attempts);
            &&& trace.requests <= attempts.len()
            &&& trace.state.retries_remaining + failures(attempts.take(trace.requests as int))
                == start.retries_remaining
        }),
    decreases attempts.len(),
{
    let trace = run(rules, start, attempts);
    if attempts.len() == 0 {
        assert(attempts.take(0) =~= attempts);
    } else {
        let earlier = attempts.drop_last();
        let before = run(rules, start, earlier);
        lemma_budget_is_spent_by_failures_only(rules, start, earlier);
        lemma_run_bounds(rules, start, earlier);
        let made = before.requests as int;
        assert(earlier.take(made) =~= attempts.take(made));
        if !finished(before.state) {
            lemma_all_attempts_made_while_unfinished(rules, start, earlier);
            assert(attempts.take(attempts.len() as int) =~= attempts);
            assert(earlier.take(made) =~= earlier);
        }
    }
}

/// As long as a sequence has not ended, every attempt so far was made.
pub proof fn lemma_all_attempts_made_while_unfinished(
    rules: PollRules,
    start: PollState,
    attempts: Seq<Element>,
)
    requires
        !finished(run(rules, start, attempts).state),
    ensures
        run(rules, start, attempts).requests == attempts.len(),
    decreases attempts.len(),
{
    if attempts.len() > 0 {
        let before = run(rules, start, attempts.drop_last());
        if !finished(before.state) {
            lemma_all_attempts_made_while_unfinished(rules, start, attempts.drop_last());
        }
    }
}

/// Every request after the first asks for a fresh graph only.
pub proof fn lemma_fresh_only_after_first_request(
    rules: PollRules,
    start: PollState,
    attempts: Seq<Element>,
)
    ensures
        run(rules, start, attempts).requests > 0 ==> run(rules, start, attempts).state.fresh_only,
        run(rules, start, attempts).requests == 0 ==> run(rules, start, attempts).state == start,
    decreases attempts.len(),
{
    if attempts.len() > 0 {
        lemma_fresh_only_after_first_request(rules, start, attempts.drop_last());
    }
}

/// A failure is never swallowed and never made up: the final outcome of an
/// exchange is a failure exactly when the exchange has spent the whole retry
/// budget.
pub proof fn lemma_final_failure_means_budget_spent(
    rules: PollRules,
    fresh_only: bool,
    attempts: Seq<Element>,
)
    requires
        rules.config.retry_budget > 0,
    ensures
        final_outcome(run(rules, initial_state(rules, fresh_only), attempts).emitted) is Err
            <==> run(rules, initial_state(rules, fresh_only), attempts).state.retries_remaining
            == 0,
{
    let start = initial_state(rules, fresh_only);
    let trace = run(rules, start, attempts);
    lemma_budget_spent_means_last_element_failed(rules, start, attempts);
    if exists|i: int| 0 <= i < trace.emitted.len() && trace.emitted[i] is Err {
        let i = choose|i: int| 0 <= i < trace.emitted.len() && trace.emitted[i] is Err;
        lemma_failure_ends_sequence(rules, start, attempts, i);
        assert forall|k: int| 0 <= k < i implies trace.emitted[k] is Ok by {
            if trace.emitted[k] is Err {
                lemma_failure_ends_sequence(rules, start, attempts, k);
            }
        }
        crate::aggregate::lemma_final_outcome_with_failure(trace.emitted, i);
    } else if trace.emitted.len() > 0 {
        crate::aggregate::lemma_final_outcome_without_failure(trace.emitted);
    }
}

/// The retry budget is spent exactly when the last element emitted is a
/// failure.
pub proof fn lemma_budget_spent_means_last_element_failed(
    rules: PollRules,
    start: PollState,
    attempts: Seq<Element>,
)
    requires
        !finished(start),
    ensures
        run(rules, start, attempts).state.retries_remaining == 0 <==> run(
            rules,
            start,
            attempts,
        ).emitted.len() > 0 && run(rules, start, attempts).emitted.last() is Err,
    decreases attempts.len(),
{
    if attempts.len() > 0 {
        lemma_budget_spent_means_last_element_failed(rules, start, attempts.drop_last());
    }
}

/// When the computation is found running twice and fresh with a graph the
/// third time, a sequence that polls until fresh yields exactly three
/// elements, the last of them the fresh response with its graph, and then
/// ends. This holds for every paper, since the paper asked for plays no part
/// in how replies are judged.
pub proof fn lemma_in_progress_twice_then_fresh(
    rules: PollRules,
    fresh_only: bool,
    first: GraphResponseView,
    second: GraphResponseView,
    third: GraphResponseView,
)
    requires
        rules.loop_until_fresh,
        rules.config.retry_budget > 0,
        first.status == GraphResponseStatuses::InProgress,
        second.status == GraphResponseStatuses::InProgress,
        third.status == GraphResponseStatuses::FreshGraph,
        third.graph_json is Some,
    ensures
        ({
            let trace = run(
                rules,
                initial_state(rules, fresh_only),
                seq![Ok(first), Ok(second), Ok(third)],
            );
            &&& trace.emitted.len() == 3
            &&& trace.emitted[0] matches Ok(outcome) && outcome.status
                == GraphResponseStatuses::InProgress
            &&& trace.emitted[1] matches Ok(outcome) && outcome.status
                == GraphResponseStatuses::InProgress
            &&& trace.emitted[2] == Ok::<GraphResponseView, ClientErrorView>(third)
            &&& trace.requests == 3
            &&& finished(trace.state)
            &&& final_outcome(trace.emitted) == Ok::<GraphResponseView, ClientErrorView>(third)
        }),
{
    let start = initial_state(rules, fresh_only);
    let none = Seq::<Element>::empty();
    let one = none.push(Ok(first));
    let two = one.push(Ok(second));
    let three = two.push(Ok(third));
    assert(three =~= seq![Ok(first), Ok(second), Ok(third)]);
    lemma_run_push(rules, start, none, Ok(first));
    lemma_run_push(rules, start, one, Ok(second));
    lemma_run_push(rules, start, two, Ok(third));
    let trace = run(rules, start, three);
    assert(trace.emitted.len() == 3);
    crate::aggregate::lemma_final_outcome_without_failure(trace.emitted);
}

/// Without polling until fresh, a sequence emits exactly one element in all:
/// it ends with the element it emits, and emits nothing before it ends.
pub proof fn lemma_single_shot_emits_once(
    rules: PollRules,
    start: PollState,
    attempts: Seq<Element>,
)
    requires
        !rules.loop_until_fresh,
    ensures
        run(rules, start, attempts).emitted.len() == (if finished(
            run(rules, start, attempts).state,
        ) && !finished(start) {
            1nat
        } else {
            0nat
        }),
    decreases attempts.len(),
{
    if attempts.len() > 0 {
        lemma_single_shot_emits_once(rules, start, attempts.drop_last());
        lemma_run_bounds(rules, start, attempts.drop_last());
    }
}

/// Without polling until fresh, the first decoded response is emitted and
/// ends the sequence, whatever its status and whatever replies would follow.
pub proof fn lemma_single_shot_stops_at_first_response(
    rules: PollRules,
    start: PollState,
    response: GraphResponseView,
    later: Seq<Element>,
)
    requires
        !rules.loop_until_fresh,
        !finished(start),
    ensures
        ({
            let trace = run(rules, start, seq![Ok(response)] + later);
            &&& trace.emitted == seq![
                Ok::<GraphResponseView, ClientErrorView>(carried(start, response)),
            ]
            &&& trace.requests == 1
            &&& finished(trace.state)
        }),
{
    let attempts = seq![Ok::<GraphResponseView, ClientErrorView>(response)] + later;
    let head = Seq::<Element>::empty().push(Ok(response));
    lemma_run_push(rules, start, Seq::empty(), Ok(response));
    assert(attempts.take(1) =~= head);
    crate::poll::lemma_run_stays_finished(rules, start, attempts, 1);
    assert(run(rules, start, head).emitted =~= seq![
        Ok::<GraphResponseView, ClientErrorView>(carried(start, response)),
    ]);
}

/// When every attempt fails, a sequence makes exactly as many requests as
/// its retry budget allows, emits nothing before the last of them and then
/// emits that last failure as its only element. With fewer replies than the
/// budget it is still going and has emitted nothing.
pub proof fn lemma_failures_exhaust_budget(
    rules: PollRules,
    fresh_only: bool,
    attempts: Seq<Element>,
)
    requires
        rules.config.retry_budget > 0,
        forall|i: int| 0 <= i < attempts.len() ==> attempts[i] is Err,
    ensures
        ({
            let trace = run(rules, initial_state(rules, fresh_only), attempts);
            let budget = rules.config.retry_budget as int;
            if attempts.len() < budget {
                &&& trace.emitted.len() == 0
                &&& trace.requests == attempts.len()
                &&& trace.state.retries_remaining == budget - attempts.len()
                &&& !finished(trace.state)
            } else {
                &&& trace.emitted == seq![attempts[budget - 1]]
                &&& trace.requests == budget
                &&& finished(trace.state)
            }
        }),
    decreases attempts.len(),
{
    let start = initial_state(rules, fresh_only);
    let budget = rules.config.retry_budget as int;
    if attempts.len() > 0 {
        let earlier = attempts.drop_last();
        lemma_failures_exhaust_budget(rules, fresh_only, earlier);
        let before = run(rules, start, earlier);
        if earlier.len() < budget {
            if attempts.len() == budget {
                assert(run(rules, start, attempts).emitted =~= seq![attempts[budget - 1]]);
            }
        } else {
            assert(earlier[budget - 1] == attempts[budget - 1]);
        }
    }
}

/// With the default knobs a transport that fails every time is asked three
/// times, never fewer and never more, and the third failure is the one
/// element of the sequence.
pub proof fn lemma_default_budget_is_three_attempts(
    loop_until_fresh: bool,
    fresh_only: bool,
    attempts: Seq<Element>,
)
    requires
        attempts.len() >= 3,
        forall|i: int| 0 <= i < attempts.len() ==> attempts[i] is Err,
    ensures
        ({
            let rules = PollRules { config: default_config(), loop_until_fresh };
            let trace = run(rules, initial_state(rules, fresh_only), attempts);
            &&& trace.requests == 3
            &&& trace.emitted == seq![attempts[2]]
            &&& finished(trace.state)
        }),
{
    let rules = PollRules { config: default_config(), loop_until_fresh };
    lemma_failures_exhaust_budget(rules, fresh_only, attempts);
}

/// A response without graph is emitted with the graph of the response
/// before it: when a first response carries a graph and does not end the
/// sequence, and a second one carries none, the second element still holds
/// the first one's graph.
pub proof fn lemma_graph_carried_forward(
    rules: PollRules,
    start: PollState,
    first: GraphResponseView,
    second: GraphResponseView,
)
    requires
        !finished(start),
        !stops(rules, first.status),
        first.graph_json is Some,
        second.graph_json is None,
    ensures
        ({
            let trace = run(rules, start, seq![Ok(first), Ok(second)]);
            &&& trace.emitted.len() == 2
            &&& trace.emitted[0] == Ok::<GraphResponseView, ClientErrorView>(first)
            &&& trace.emitted[1] == Ok::<GraphResponseView, ClientErrorView>(
                GraphResponseView {
                    status: second.status,
                    graph_json: first.graph_json,
                    progress: second.progress,
                },
            )
            &&& trace.state.last_known_graph == first.graph_json
        }),
{
    let none = Seq::<Element>::empty();
    let one = none.push(Ok(first));
    let two = one.push(Ok(second));
    assert(two =~= seq![Ok(first), Ok(second)]);
    lemma_run_push(rules, start, none, Ok(first));
    lemma_run_push(rules, start, one, Ok(second));
}

/// Once a graph is known it is never lost: from then on the state keeps a
/// graph and every response is emitted with one.
pub proof fn lemma_known_graph_never_lost(
    rules: PollRules,
    start: PollState,
    attempts: Seq<Element>,
)
    requires
        start.last_known_graph is Some,
    ensures
        run(rules, start, attempts).state.last_known_graph is Some,
        forall|i: int|
            0 <= i < run(rules, start, attempts).emitted.len() ==> (#[trigger] run(
                rules,
                start,
                attempts,
            ).emitted[i] matches Ok(outcome) ==> outcome.graph_json is Some),
    decreases attempts.len(),
{
    if attempts.len() > 0 {
        lemma_known_graph_never_lost(rules, start, attempts.drop_last());
    }
}

/// The status of a body never keeps it from being decoded: a body decodes
/// exactly when its graph and its progress do.
pub proof fn lemma_status_never_fails_decoding(body: Json)
    ensures
        decoded(body) is Some <==> graph_field(body) is Some && progress_field(body) is Some,
{
}

/// A status field that is missing, is no string, or spells no known status
/// is read as `Error`; the rest of the body is decoded as it stands.
pub proof fn lemma_unknown_status_reads_as_error(body: Json)
    requires
        graph_field(body) is Some,
        progress_field(body) is Some,
        status_text(body) matches Some(text) ==> !is_wire_name(text),
    ensures
        decoded(body) == Some(
            GraphResponseView {
                status: GraphResponseStatuses::Error,
                graph_json: graph_field(body)->Some_0,
                progress: progress_field(body)->Some_0,
            },
        ),
{
}

/// A reply with such a body is judged a response, not a failure, and that
/// response ends the sequence it arrives in.
pub proof fn lemma_unknown_status_is_no_failure(
    rules: PollRules,
    reply: TransportReplyView,
    body: Json,
)
    requires
        reply matches TransportReplyView::Response { status, body: bytes } && is_success(status)
            && json_parsed(bytes) == Some(body),
        graph_field(body) is Some,
        progress_field(body) is Some,
        status_text(body) matches Some(text) ==> !is_wire_name(text),
    ensures
        attempt_of(reply) matches Ok(response) && response.status == GraphResponseStatuses::Error
            && stops(rules, response.status),
{
    lemma_unknown_status_reads_as_error(body);
}

/// The final outcome of polling depends on nothing but the rules, the first
/// flag and what the replies hold: two exchanges that agree in these have
/// the same final outcome.
pub proof fn lemma_same_replies_same_outcome(
    rules: PollRules,
    fresh_only: bool,
    first: Seq<TransportReply>,
    second: Seq<TransportReply>,
)
    requires
        first.len() == second.len(),
        forall|i: int| 0 <= i < first.len() ==> first[i]@ == second[i]@,
    ensures
        run(rules, initial_state(rules, fresh_only), attempts_of(first)) == run(
            rules,
            initial_state(rules, fresh_only),
            attempts_of(second),
        ),
        final_outcome(run(rules, initial_state(rules, fresh_only), attempts_of(first)).emitted)
            == final_outcome(
            run(rules, initial_state(rules, fresh_only), attempts_of(second)).emitted,
        ),
{
    assert(attempts_of(first) =~= attempts_of(second));
}

/// A terminal status ends a sequence at once, and so does any status in a
/// sequence that does not poll until fresh; any other response keeps the
/// sequence going and leaves the retry budget as it was.
pub proof fn lemma_response_step(rules: PollRules, state: PollState, response: GraphResponseView)
    requires
        !finished(state),
    ensures
        finished(step(rules, state, Ok(response))) <==> is_terminal(response.status)
            || !rules.loop_until_fresh,
        !finished(step(rules, state, Ok(response))) ==> step(
            rules,
            state,
            Ok(response),
        ).retries_remaining == state.retries_remaining,
        emission(rules, state, Ok(response)) is Some,
{
}

} // verus!
