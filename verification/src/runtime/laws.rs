//! What holds of whole polls, of cleanups and of sweeps.

use vstd::prelude::*;

use crate::driver::error::DriverError;
use crate::runtime::device_future::{leak_notice, Cleanup, DeviceFuture, PollEvent, PollStep};
use crate::runtime::error::{internal, DeviceError};
use crate::runtime::reclaim::{
    all_settled, answered, drain, leaked, ok_count, park, pending, says_passed, settle, settled,
    sorted_out, sweep, take_completed, unproven, Completion, Leak, Limbo, LimboEntry,
    ReclaimGate,
};

verus! {

// ---------------------------------------------------------------------------
// Polls
// ---------------------------------------------------------------------------

/// A future begins idle, with nothing attached; one that is made from an error
/// begins failed, with that error.
pub proof fn law_futures_begin<T, DO, C, S>(
    error: DeviceError,
    fresh: DeviceFuture<T, DO, C, S>,
    failed: DeviceFuture<T, DO, C, S>,
    undelivered: bool,
)
    requires
        call_ensures(DeviceFuture::<T, DO, C, S>::new, (), fresh),
        call_ensures(DeviceFuture::<T, DO, C, S>::failed, (error,), failed),
        call_ensures(
            DeviceFuture::<T, DO, C, S>::has_undelivered_submission,
            (&fresh,),
            undelivered,
        ),
    ensures
        fresh.state is Idle,
        fresh.device_operation is None && fresh.execution_context is None && fresh.result is None
            && fresh.error is None && fresh.callback_state is None,
        failed.state is Failed,
        failed.error == Some(error),
        failed.device_operation is None && failed.result is None,
        !undelivered,
{
}

/// A result is undelivered if and only if it is stored in a future that has
/// submitted its work.
pub proof fn law_undelivered_results<T, DO, C, S>(future: DeviceFuture<T, DO, C, S>, yes: bool)
    requires
        call_ensures(
            DeviceFuture::<T, DO, C, S>::has_undelivered_submission,
            (&future,),
            yes,
        ),
    ensures
        yes ==> future.result is Some && !(future.state is Idle) && !(future.state is Failed),
        future.result is Some && future.state is Executing ==> yes,
        future.result is Some && future.state is Complete ==> yes,
{
}

/// The first poll of a future with an operation and a context: it sweeps, makes
/// the callback state, registers the waker, executes the operation, enqueues
/// the callback and is pending. Then it holds what the operation gave, and no
/// operation any longer.
pub proof fn law_first_poll_submits<T, DO, C, S>(
    a: &mut DeviceFuture<T, DO, C, S>,
    b: &mut DeviceFuture<T, DO, C, S>,
    c: &mut DeviceFuture<T, DO, C, S>,
    d: &mut DeviceFuture<T, DO, C, S>,
    e: &mut DeviceFuture<T, DO, C, S>,
    f: &mut DeviceFuture<T, DO, C, S>,
    made: S,
    out: T,
    steps: Seq<PollStep<T, DO>>,
)
    requires
        old(a).state is Idle,
        old(a).execution_context is Some,
        old(a).device_operation is Some,
        old(a).callback_state is None,
        steps.len() == 6,
        call_ensures(DeviceFuture::<T, DO, C, S>::poll, (a, PollEvent::Start), steps[0]),
        *old(b) == *final(a),
        call_ensures(DeviceFuture::<T, DO, C, S>::poll, (b, PollEvent::Swept), steps[1]),
        *old(c) == *final(b),
        call_ensures(
            DeviceFuture::<T, DO, C, S>::poll,
            (c, PollEvent::CallbackStateMade(made)),
            steps[2],
        ),
        *old(d) == *final(c),
        call_ensures(DeviceFuture::<T, DO, C, S>::poll, (d, PollEvent::WakerRegistered), steps[3]),
        *old(e) == *final(d),
        call_ensures(
            DeviceFuture::<T, DO, C, S>::poll,
            (e, PollEvent::Executed(Ok(out))),
            steps[4],
        ),
        *old(f) == *final(e),
        call_ensures(
            DeviceFuture::<T, DO, C, S>::poll,
            (f, PollEvent::CallbackRegistered(Ok(()))),
            steps[5],
        ),
    ensures
        steps[0] is Sweep,
        steps[1] is MakeCallbackState,
        steps[2] is RegisterWaker,
        steps[3] is Execute && steps[3]->Execute_0 == old(a).device_operation->0,
        steps[4] is RegisterCallback,
        steps[5] is Pending,
        final(f).state is Executing,
        final(f).result == Some(out),
        final(f).device_operation is None,
        final(f).execution_context == old(a).execution_context,
        final(f).callback_state == Some(made),
        final(f).error == old(a).error,
{
}

/// A poll of an executing future reads the flag first. If it is set, the future
/// resolves to its result; if not, the waker is registered and the flag read
/// once more, which decides between the result and waiting.
pub proof fn law_poll_of_executing<T, DO, C, S>(
    a: &mut DeviceFuture<T, DO, C, S>,
    b: &mut DeviceFuture<T, DO, C, S>,
    c: &mut DeviceFuture<T, DO, C, S>,
    d: &mut DeviceFuture<T, DO, C, S>,
    first: bool,
    second: bool,
    steps: Seq<PollStep<T, DO>>,
)
    requires
        old(a).state is Executing,
        old(a).result is Some,
        old(a).callback_state is Some,
        steps.len() == 4,
        call_ensures(DeviceFuture::<T, DO, C, S>::poll, (a, PollEvent::Swept), steps[0]),
        *old(b) == *final(a),
        call_ensures(
            DeviceFuture::<T, DO, C, S>::poll,
            (b, PollEvent::CompletionRead(first)),
            steps[1],
        ),
        !first ==> {
            &&& *old(c) == *final(b)
            &&& call_ensures(
                DeviceFuture::<T, DO, C, S>::poll,
                (c, PollEvent::WakerRegistered),
                steps[2],
            )
            &&& *old(d) == *final(c)
            &&& call_ensures(
                DeviceFuture::<T, DO, C, S>::poll,
                (d, PollEvent::CompletionReadAgain(second)),
                steps[3],
            )
        },
    ensures
        steps[0] is ReadCompletion,
        first ==> steps[1] is Ready && steps[1]->Ready_0 == Ok::<T, DeviceError>(
            old(a).result->0,
        ) && final(b).state is Complete && final(b).result is None,
        !first ==> steps[1] is RegisterWaker && steps[2] is ReadCompletionAgain,
        !first && second ==> steps[3] is Ready && steps[3]->Ready_0 == Ok::<T, DeviceError>(
            old(a).result->0,
        ) && final(d).state is Complete && final(d).result is None,
        !first && !second ==> steps[3] is Pending && *final(d) == *old(a),
{
}

/// A failed future resolves to its error at its first poll, and is complete
/// then.
pub proof fn law_poll_of_failed<T, DO, C, S>(
    future: &mut DeviceFuture<T, DO, C, S>,
    step: PollStep<T, DO>,
)
    requires
        old(future).state is Failed,
        old(future).error is Some,
        call_ensures(DeviceFuture::<T, DO, C, S>::poll, (future, PollEvent::Swept), step),
    ensures
        step is Ready,
        step->Ready_0 == Err::<T, DeviceError>(old(future).error->0),
        final(future).state is Complete,
        final(future).error is None,
{
}

/// A poll of an idle future without a context, or with one and without an
/// operation, resolves to an internal error that says which; nothing is
/// executed.
pub proof fn law_poll_of_incomplete<T, DO, C, S>(
    future: &mut DeviceFuture<T, DO, C, S>,
    step: PollStep<T, DO>,
)
    requires
        old(future).state is Idle,
        old(future).execution_context is None || old(future).device_operation is None,
        call_ensures(DeviceFuture::<T, DO, C, S>::poll, (future, PollEvent::WakerRegistered), step),
    ensures
        step is Ready && step->Ready_0 is Err && step->Ready_0->Err_0 is Internal,
        final(future).state is Complete,
        old(future).execution_context is None ==> step->Ready_0->Err_0->Internal_0@
            == "Cannot execute future without an execution context."@,
        old(future).execution_context is Some ==> step->Ready_0->Err_0->Internal_0@
            == "No operation has been set."@,
{
}

/// An operation that fails is the poll's error; one that was submitted without
/// its callback is handed to reclamation before the error is reported.
pub proof fn law_errors_of_submission<T, DO, C, S>(
    executed: &mut DeviceFuture<T, DO, C, S>,
    registered: &mut DeviceFuture<T, DO, C, S>,
    error: DeviceError,
    first: PollStep<T, DO>,
    second: PollStep<T, DO>,
)
    requires
        call_ensures(
            DeviceFuture::<T, DO, C, S>::poll,
            (executed, PollEvent::Executed(Err(error))),
            first,
        ),
        call_ensures(
            DeviceFuture::<T, DO, C, S>::poll,
            (registered, PollEvent::CallbackRegistered(Err(error))),
            second,
        ),
    ensures
        first is Ready && first->Ready_0 == Err::<T, DeviceError>(error),
        final(executed).state is Complete,
        second is ReclaimThenFail && second->ReclaimThenFail_0 == error,
        final(registered).state is Complete,
        final(registered).result == old(registered).result,
{
}

/// A cleanup drops an undelivered result where the stream can be waited for,
/// and keeps it from ever being dropped where it cannot, with the error. There
/// is nothing to do where no result is undelivered.
pub proof fn law_cleanup_drops_or_leaks<T, DO, C, S, F: FnOnce() -> Result<(), DeviceError>>(
    future: &mut DeviceFuture<T, DO, C, S>,
    synchronize: F,
    synchronized: Result<(), DeviceError>,
    outcome: Cleanup<T>,
)
    requires
        call_ensures(
            DeviceFuture::<T, DO, C, S>::cleanup_executing_result_with::<F>,
            (future, synchronize),
            outcome,
        ),
        forall|r: Result<(), DeviceError>| #[trigger]
            call_ensures(synchronize, (), r) ==> r == synchronized,
    ensures
        ({
            let in_flight = old(future).result is Some && (old(future).state is Executing || old(future).state is Complete);
            &&& outcome is Nothing <==> !in_flight
            &&& !in_flight ==> *final(future) == *old(future)
            &&& in_flight ==> final(future).result is None && final(future).state == old(future).state
            &&& in_flight && synchronized is Ok ==> outcome is Dropped
            &&& in_flight && synchronized is Err ==> outcome is Leaked && outcome->Leaked_0
                == synchronized->Err_0 && outcome->Leaked_1@ == old(future).result->0
        }),
{
}

/// Reclamation parks an undelivered result behind an event of its stream. Only
/// where the event cannot be recorded is the stream waited for, and only where
/// that fails too is the result leaked.
pub proof fn law_reclamation_parks_drops_or_leaks<
    T,
    DO,
    C,
    S,
    E,
    R: FnOnce(&C) -> Result<E, DriverError>,
    W: FnOnce(&C) -> Result<(), DriverError>,
>(
    future: &mut DeviceFuture<T, DO, C, S>,
    limbo: &mut Limbo<E, T>,
    record_event: R,
    synchronize: W,
    recorded: Result<E, DriverError>,
    synchronized: Result<(), DriverError>,
    outcome: Cleanup<T>,
)
    requires
        call_ensures(
            DeviceFuture::<T, DO, C, S>::reclaim_in_flight_result::<E, R, W>,
            (future, limbo, record_event, synchronize),
            outcome,
        ),
        old(future).result is Some,
        old(future).state is Executing || old(future).state is Complete,
        old(future).execution_context is Some ==> forall|r: Result<E, DriverError>| #[trigger]
            call_ensures(record_event, (&old(future).execution_context->0,), r) ==> r == recorded,
        old(future).execution_context is Some ==> forall|r: Result<(), DriverError>| #[trigger]
            call_ensures(synchronize, (&old(future).execution_context->0,), r) ==> r
                == synchronized,
    ensures
        final(future).result is None,
        final(future).state == old(future).state,
        old(future).execution_context is None ==> outcome is Leaked && outcome->Leaked_0
            is Internal && outcome->Leaked_1@ == old(future).result->0,
        old(future).execution_context is Some && recorded is Ok ==> outcome is Parked && final(limbo).entries@ == old(limbo).entries@ + seq![
            LimboEntry { gate: recorded->Ok_0, payload: old(future).result->0 },
        ],
        !(outcome is Parked) ==> final(limbo).entries@ == old(limbo).entries@,
        old(future).execution_context is Some && recorded is Err && synchronized is Ok ==> outcome
            is Dropped,
        old(future).execution_context is Some && recorded is Err && synchronized is Err ==> outcome
            is Leaked && outcome->Leaked_0 == DeviceError::Driver(synchronized->Err_0)
            && outcome->Leaked_1@ == old(future).result->0,
{
    if old(future).execution_context is Some && recorded is Ok {
        let entry = LimboEntry { gate: recorded->Ok_0, payload: old(future).result->0 };
        assert(old(limbo).entries@.push(entry) =~= old(limbo).entries@ + seq![entry]);
    }
}

/// Internal errors carry their message, and the notice of a leak its cause.
pub proof fn law_messages(message: &str, error: DeviceError, notice: String)
    requires
        call_ensures(internal, (message,), error),
        call_ensures(leak_notice, (message,), notice),
    ensures
        error is Internal && error->Internal_0@ == message@,
        notice@ == "cuda-async: leaking in-flight future result after cleanup failure: "@
            + message@,
{
}

// ---------------------------------------------------------------------------
// Sweeps
// ---------------------------------------------------------------------------

/// Only a plain yes counts as passed: neither "not yet" nor a failed query does.
pub proof fn law_only_yes_is_passed(answer: Result<bool, DriverError>)
    ensures
        says_passed(answer) <==> answer == Ok::<bool, DriverError>(true),
{
}

/// What is parked is found behind what was parked before, and counts.
pub proof fn law_parking_appends<G, P>(
    fresh: Limbo<G, P>,
    limbo: &mut Limbo<G, P>,
    gate: G,
    payload: P,
    before: usize,
    after: usize,
)
    requires
        call_ensures(Limbo::<G, P>::new, (), fresh),
        call_ensures(pending::<G, P>, (old(limbo),), before),
        call_ensures(park::<G, P>, (limbo, gate, payload), ()),
        call_ensures(pending::<G, P>, (final(limbo),), after),
    ensures
        fresh.entries@.len() == 0,
        after == before + 1,
        final(limbo).entries@.drop_last() == old(limbo).entries@,
        final(limbo).entries@.last() == (LimboEntry { gate, payload }),
{
    assert(final(limbo).entries@.drop_last() =~= old(limbo).entries@);
}

proof fn lemma_sorted_out_filters<G, P>(
    entries: Seq<LimboEntry<G, P>>,
    answers: Seq<Result<bool, DriverError>>,
    says: spec_fn(G) -> Result<bool, DriverError>,
    passed: bool,
)
    requires
        answers.len() == entries.len(),
        forall|i: int| 0 <= i < entries.len() ==> #[trigger] answers[i] == says(entries[i].gate),
    ensures
        sorted_out(entries, answers, passed) == entries.filter(
            |e: LimboEntry<G, P>| (says(e.gate) == Ok::<bool, DriverError>(true)) == passed,
        ),
    decreases entries.len(),
{
    reveal(Seq::filter);
    if entries.len() > 0 {
        let e = entries.drop_last();
        let a = answers.drop_last();
        assert forall|i: int| 0 <= i < e.len() implies #[trigger] a[i] == says(e[i].gate) by {
            assert(a[i] == answers[i]);
        }
        lemma_sorted_out_filters(e, a, says, passed);
        assert(answers[entries.len() - 1] == says(entries[entries.len() - 1].gate));
    }
}

/// With gates that give one answer each, a sweep takes out exactly the entries
/// whose gate says yes and leaves exactly the others, both in their order; it
/// counts what it took out.
pub proof fn law_sweep_splits_by_answer<G: Completion, P>(
    taken: &mut Limbo<G, P>,
    done: Vec<LimboEntry<G, P>>,
    swept: &mut Limbo<G, P>,
    reclaimed: usize,
    says: spec_fn(G) -> Result<bool, DriverError>,
)
    requires
        call_ensures(take_completed::<G, P>, (taken,), done),
        call_ensures(sweep::<G, P>, (swept,), reclaimed),
        old(swept).entries@ == old(taken).entries@,
        forall|gate: G, r: Result<bool, DriverError>| #[trigger]
            call_ensures(G::passed, (&gate,), r) ==> r == says(gate),
    ensures
        done@ == old(taken).entries@.filter(
            |e: LimboEntry<G, P>| (says(e.gate) == Ok::<bool, DriverError>(true)) == true,
        ),
        final(taken).entries@ == old(taken).entries@.filter(
            |e: LimboEntry<G, P>| (says(e.gate) == Ok::<bool, DriverError>(true)) == false,
        ),
        reclaimed == done@.len(),
        final(swept).entries@ == final(taken).entries@,
{
    let entries = old(taken).entries@;
    let answers = choose|answers: Seq<Result<bool, DriverError>>|
        {
            &&& #[trigger] answered(entries, answers)
            &&& done@ == sorted_out(entries, answers, true)
            &&& final(taken).entries@ == sorted_out(entries, answers, false)
        };
    lemma_sorted_out_filters(entries, answers, says, true);
    lemma_sorted_out_filters(entries, answers, says, false);
    let again = choose|answers: Seq<Result<bool, DriverError>>|
        {
            &&& #[trigger] answered(entries, answers)
            &&& reclaimed == sorted_out(entries, answers, true).len()
            &&& final(swept).entries@ == sorted_out(entries, answers, false)
        };
    lemma_sorted_out_filters(entries, again, says, true);
    lemma_sorted_out_filters(entries, again, says, false);
}

/// A gate that says yes is not waited for; any other is, and what the wait says
/// is the outcome.
pub proof fn law_settling_waits_if_needed<G: ReclaimGate>(
    gate: &G,
    answer: Result<bool, DriverError>,
    waited: Result<(), DriverError>,
    outcome: Result<(), DriverError>,
)
    requires
        call_ensures(settle::<G>, (gate,), outcome),
        forall|r: Result<bool, DriverError>| #[trigger]
            call_ensures(G::passed, (gate,), r) ==> r == answer,
        forall|r: Result<(), DriverError>| #[trigger]
            call_ensures(G::wait, (gate,), r) ==> r == waited,
    ensures
        answer == Ok::<bool, DriverError>(true) ==> outcome is Ok,
        answer != Ok::<bool, DriverError>(true) ==> outcome == waited,
{
}

/// What waiting for an entry comes to, given what its gate answers.
pub open spec fn outcome_of<G>(
    gate: G,
    says: spec_fn(G) -> Result<bool, DriverError>,
    waits: spec_fn(G) -> Result<(), DriverError>,
) -> Result<(), DriverError> {
    if says(gate) == Ok::<bool, DriverError>(true) {
        Ok(())
    } else {
        waits(gate)
    }
}

proof fn lemma_drain_filters<G, P>(
    entries: Seq<LimboEntry<G, P>>,
    outcomes: Seq<Result<(), DriverError>>,
    of: spec_fn(G) -> Result<(), DriverError>,
)
    requires
        outcomes.len() == entries.len(),
        forall|i: int| 0 <= i < entries.len() ==> #[trigger] outcomes[i] == of(entries[i].gate),
    ensures
        ok_count(outcomes) == entries.filter(|e: LimboEntry<G, P>| of(e.gate) is Ok).len(),
        unproven(entries, outcomes) == entries.filter(
            |e: LimboEntry<G, P>| of(e.gate) is Err,
        ).map_values(|e: LimboEntry<G, P>| (of(e.gate)->Err_0, e.payload)),
    decreases entries.len(),
{
    reveal(Seq::filter);
    let bad = |e: LimboEntry<G, P>| of(e.gate) is Err;
    let pair = |e: LimboEntry<G, P>| (of(e.gate)->Err_0, e.payload);
    if entries.len() > 0 {
        let e = entries.drop_last();
        let o = outcomes.drop_last();
        assert forall|i: int| 0 <= i < e.len() implies #[trigger] o[i] == of(e[i].gate) by {
            assert(o[i] == outcomes[i]);
        }
        lemma_drain_filters(e, o, of);
        let last = entries.last();
        assert(outcomes[entries.len() - 1] == of(entries[entries.len() - 1].gate));
        if of(last.gate) is Err {
            assert(entries.filter(bad) == e.filter(bad).push(last));
            assert(e.filter(bad).push(last).map_values(pair) =~= e.filter(bad).map_values(
                pair,
            ).push(pair(last)));
        }
    } else {
        assert(unproven(entries, outcomes) =~= entries.filter(bad).map_values(pair));
    }
}

/// Where a gate gives one answer, what it settles to follows from it.
pub proof fn law_settled_is_the_outcome<G: ReclaimGate>(
    gate: G,
    outcome: Result<(), DriverError>,
    says: spec_fn(G) -> Result<bool, DriverError>,
    waits: spec_fn(G) -> Result<(), DriverError>,
)
    requires
        settled(&gate, outcome),
        forall|g: G, r: Result<bool, DriverError>| #[trigger]
            call_ensures(G::passed, (&g,), r) ==> r == says(g),
        forall|g: G, r: Result<(), DriverError>| #[trigger]
            call_ensures(G::wait, (&g,), r) ==> r == waits(g),
    ensures
        outcome == outcome_of(gate, says, waits),
{
    law_only_yes_is_passed(says(gate));
    if outcome is Ok && exists|answer: Result<bool, DriverError>|
        #[trigger] call_ensures(G::passed, (&gate,), answer) && says_passed(answer) {
        let answer = choose|answer: Result<bool, DriverError>|
            #[trigger] call_ensures(G::passed, (&gate,), answer) && says_passed(answer);
        assert(answer == says(gate));
        assert(outcome->Ok_0 == ());
        assert(outcome == Ok::<(), DriverError>(()));
    } else {
        assert(call_ensures(G::wait, (&gate,), outcome));
        assert(outcome == waits(gate));
        let answer = choose|answer: Result<bool, DriverError>|
            #[trigger] call_ensures(G::passed, (&gate,), answer) && !says_passed(answer);
        assert(answer == says(gate));
    }
}

/// With gates that give one answer each, a drain empties the limbo. It counts
/// the entries whose gate has passed or could be waited for, and leaks the
/// payloads of the others in their order, each with the error of its wait.
pub proof fn law_drain_splits_by_outcome<G: ReclaimGate, P>(
    limbo: &mut Limbo<G, P>,
    leaks: &mut Vec<Leak<P>>,
    reclaimed: usize,
    says: spec_fn(G) -> Result<bool, DriverError>,
    waits: spec_fn(G) -> Result<(), DriverError>,
)
    requires
        call_ensures(drain::<G, P>, (limbo, leaks), reclaimed),
        forall|gate: G, r: Result<bool, DriverError>| #[trigger]
            call_ensures(G::passed, (&gate,), r) ==> r == says(gate),
        forall|gate: G, r: Result<(), DriverError>| #[trigger]
            call_ensures(G::wait, (&gate,), r) ==> r == waits(gate),
    ensures
        final(limbo).entries@.len() == 0,
        reclaimed == old(limbo).entries@.filter(
            |e: LimboEntry<G, P>| outcome_of(e.gate, says, waits) is Ok,
        ).len(),
        final(leaks)@.take(old(leaks)@.len() as int) == old(leaks)@,
        leaked(final(leaks)@.skip(old(leaks)@.len() as int)) == old(limbo).entries@.filter(
            |e: LimboEntry<G, P>| outcome_of(e.gate, says, waits) is Err,
        ).map_values(
            |e: LimboEntry<G, P>| (outcome_of(e.gate, says, waits)->Err_0, e.payload),
        ),
{
    let entries = old(limbo).entries@;
    let outcomes = choose|outcomes: Seq<Result<(), DriverError>>|
        {
            &&& #[trigger] all_settled(entries, outcomes)
            &&& reclaimed == ok_count(outcomes)
            &&& leaked(final(leaks)@.skip(old(leaks)@.len() as int)) == unproven(
                entries,
                outcomes,
            )
        };
    let of = |gate: G| outcome_of(gate, says, waits);
    assert forall|i: int| 0 <= i < entries.len() implies #[trigger] outcomes[i] == of(
        entries[i].gate,
    ) by {
        let gate = entries[i].gate;
        assert(settled(&gate, outcomes[i]));
        law_only_yes_is_passed(says(gate));
        law_settled_is_the_outcome(gate, outcomes[i], says, waits);
    }
    lemma_drain_filters(entries, outcomes, of);
    assert(final(leaks)@.take(old(leaks)@.len() as int) =~= old(leaks)@);
    assert(entries.filter(|e: LimboEntry<G, P>| of(e.gate) is Ok) == entries.filter(
        |e: LimboEntry<G, P>| outcome_of(e.gate, says, waits) is Ok,
    )) by {
        assert((|e: LimboEntry<G, P>| of(e.gate) is Ok) =~= (|e: LimboEntry<G, P>|
            outcome_of(e.gate, says, waits) is Ok));
    }
    assert((|e: LimboEntry<G, P>| of(e.gate) is Err) =~= (|e: LimboEntry<G, P>|
        outcome_of(e.gate, says, waits) is Err));
    assert((|e: LimboEntry<G, P>| (of(e.gate)->Err_0, e.payload)) =~= (|e: LimboEntry<G, P>|
        (outcome_of(e.gate, says, waits)->Err_0, e.payload)));
}

/// Work that was executed without a context at hand is handed to reclamation,
/// result and all, before the error is reported.
pub proof fn law_executed_without_context<T, DO, C, S>(
    future: &mut DeviceFuture<T, DO, C, S>,
    out: T,
    step: PollStep<T, DO>,
)
    requires
        old(future).execution_context is None,
        call_ensures(
            DeviceFuture::<T, DO, C, S>::poll,
            (future, PollEvent::Executed(Ok(out))),
            step,
        ),
    ensures
        step is ReclaimThenFail && step->ReclaimThenFail_0 is Internal,
        step->ReclaimThenFail_0->Internal_0@
            == "Cannot execute future without an execution context."@,
        final(future).state is Complete,
        final(future).result == Some(out),
{
}

/// A future that has its callback state does not ask for another: an idle one
/// goes on to register the waker, an executing one to read the flag.
pub proof fn law_callback_state_is_made_once<T, DO, C, S>(
    swept: &mut DeviceFuture<T, DO, C, S>,
    made: &mut DeviceFuture<T, DO, C, S>,
    state: S,
    first: PollStep<T, DO>,
    second: PollStep<T, DO>,
)
    requires
        old(swept).state is Idle || old(swept).state is Executing,
        old(made).state == old(swept).state,
        call_ensures(DeviceFuture::<T, DO, C, S>::poll, (swept, PollEvent::Swept), first),
        call_ensures(
            DeviceFuture::<T, DO, C, S>::poll,
            (made, PollEvent::CallbackStateMade(state)),
            second,
        ),
    ensures
        first is MakeCallbackState <==> old(swept).callback_state is None,
        old(swept).callback_state is Some ==> first == second,
        second is RegisterWaker <==> old(made).state is Idle,
        second is ReadCompletion <==> old(made).state is Executing,
        final(made).callback_state == Some(state),
        *final(swept) == *old(swept),
{
}

} // verus!
