//! Deferred reclamation of results cancelled while GPU work is in flight.
//!
//! Dropping a future cannot cancel GPU work that was submitted: kernels run
//! to completion. It can only decide when the host releases what the kernel
//! still uses. A cancelled in-flight result is therefore parked together with
//! a completion gate (an event recorded behind the submitted work), and is
//! dropped by a later sweep, once the device timeline has passed that gate.

use core::mem::ManuallyDrop;
use vstd::prelude::*;

use crate::driver::error::DriverError;

verus! {

/// What can be asked of a completion gate without blocking.
///
/// What a gate answers is up to the driver: nothing is assumed of it here.
pub trait Completion: Sized {
    /// Whether the device timeline has passed this gate. Must never block.
    fn passed(&self) -> Result<bool, DriverError>;
}

/// Completion gate of a parked result.
///
/// Production code uses an event recorded on the stream that runs the
/// cancelled work.
pub trait ReclaimGate: Completion {
    /// Blocks until the device timeline has passed this gate. Called only
    /// where [`Completion::passed`] did not answer with a plain yes.
    fn wait(&self) -> Result<(), DriverError>
        requires
            unpassed(self),
    ;
}

/// Whether this gate may have given an answer other than a plain yes.
pub open spec fn unpassed<G: Completion>(gate: &G) -> bool {
    exists|answer: Result<bool, DriverError>|
        #[trigger] call_ensures(G::passed, (gate,), answer) && !says_passed(answer)
}

/// A parked result and a gate that decides when it may be dropped.
pub struct LimboEntry<G, P> {
    /// Completion gate; the payload may only drop after it has passed.
    pub gate: G,
    /// Result kept alive on behalf of the cancelled future.
    pub payload: P,
}

/// All parked entries, oldest first.
pub struct Limbo<G, P> {
    pub entries: Vec<LimboEntry<G, P>>,
}

/// Whether an answer to "has this gate passed?" is a plain yes.
///
/// "Not yet" and a failed query both leave the entry parked: dropping early
/// would release memory that the device may still be using.
pub open spec fn says_passed(answer: Result<bool, DriverError>) -> bool {
    answer is Ok && answer->Ok_0
}

/// Whether `answers` holds a possible answer of each entry's gate.
pub open spec fn answered<G: Completion, P>(
    entries: Seq<LimboEntry<G, P>>,
    answers: Seq<Result<bool, DriverError>>,
) -> bool {
    &&& answers.len() == entries.len()
    &&& forall|i: int|
        0 <= i < entries.len() ==> call_ensures(
            G::passed,
            (&entries[i].gate,),
            #[trigger] answers[i],
        )
}

/// The entries whose gate gave the answer that `passed` asks for, in order.
pub open spec fn sorted_out<G, P>(
    entries: Seq<LimboEntry<G, P>>,
    answers: Seq<Result<bool, DriverError>>,
    passed: bool,
) -> Seq<LimboEntry<G, P>>
    decreases entries.len(),
{
    if entries.len() == 0 || answers.len() == 0 {
        Seq::empty()
    } else {
        let rest = sorted_out(entries.drop_last(), answers.drop_last(), passed);
        if says_passed(answers.last()) == passed {
            rest.push(entries.last())
        } else {
            rest
        }
    }
}

impl<G, P> Limbo<G, P> {
    /// A limbo with nothing parked.
    pub fn new() -> (limbo: Self)
        ensures
            limbo.entries@ == Seq::<LimboEntry<G, P>>::empty(),
    {
        Limbo { entries: Vec::new() }
    }
}

/// Parks `payload` until `gate` reports completion.
pub fn park<G, P>(limbo: &mut Limbo<G, P>, gate: G, payload: P)
    ensures
        final(limbo).entries@ == old(limbo).entries@.push(LimboEntry { gate, payload }),
{
    limbo.entries.push(LimboEntry { gate, payload });
}

/// Number of results currently parked awaiting reclamation.
pub fn pending<G, P>(limbo: &Limbo<G, P>) -> (count: usize)
    ensures
        count == limbo.entries@.len(),
{
    limbo.entries.len()
}

/// Takes out every entry whose gate has passed, and leaves the others parked.
/// Never blocks.
///
/// The caller drops what it gets once it no longer holds the limbo: a
/// payload's own drop may park or sweep.
pub fn take_completed<G: Completion, P>(limbo: &mut Limbo<G, P>) -> (done: Vec<LimboEntry<G, P>>)
    ensures
        exists|answers: Seq<Result<bool, DriverError>>|
            {
                &&& #[trigger] answered(old(limbo).entries@, answers)
                &&& done@ == sorted_out(old(limbo).entries@, answers, true)
                &&& final(limbo).entries@ == sorted_out(old(limbo).entries@, answers, false)
            },
{
    let ghost before = limbo.entries@;
    let mut parked: Vec<LimboEntry<G, P>> = Vec::new();
    std::mem::swap(&mut parked, &mut limbo.entries);
    let mut kept: Vec<LimboEntry<G, P>> = Vec::new();
    let mut done: Vec<LimboEntry<G, P>> = Vec::new();
    let ghost mut answers: Seq<Result<bool, DriverError>> = Seq::empty();
    for entry in it: parked.into_iter()
        invariant
            it.seq() == before,
            answered(before.take(it.index() as int), answers),
            done@ == sorted_out(before.take(it.index() as int), answers, true),
            kept@ == sorted_out(before.take(it.index() as int), answers, false),
    {
        let answer = entry.gate.passed();
        let ghost seen = before.take(it.index() as int);
        let ghost next = before.take(it.index() + 1);
        proof {
            assert(next.drop_last() =~= seen);
            assert(answers.push(answer).drop_last() =~= answers);
            answers = answers.push(answer);
            assert(answered(next, answers)) by {
                assert forall|i: int| 0 <= i < next.len() implies call_ensures(
                    G::passed,
                    (&next[i].gate,),
                    #[trigger] answers[i],
                ) by {
                    if i < seen.len() {
                        assert(seen[i] == next[i]);
                    }
                }
            }
        }
        match answer {
            Ok(true) => done.push(entry),
            _ => kept.push(entry),
        }
    }
    assert(before.take(before.len() as int) =~= before);
    limbo.entries = kept;
    done
}

/// Drops every parked result whose gate has passed. Never blocks on GPU
/// progress. Returns the number of results reclaimed.
pub fn sweep<G: Completion, P>(limbo: &mut Limbo<G, P>) -> (reclaimed: usize)
    ensures
        exists|answers: Seq<Result<bool, DriverError>>|
            {
                &&& #[trigger] answered(old(limbo).entries@, answers)
                &&& reclaimed == sorted_out(old(limbo).entries@, answers, true).len()
                &&& final(limbo).entries@ == sorted_out(old(limbo).entries@, answers, false)
            },
{
    let completed = take_completed(limbo);
    completed.len()
}

/// Whether `outcome` says what a gate let be known when the entry was
/// waited for: that it has passed, or the error of the blocking wait.
/// The wait is only made where it did not say that it had passed.
pub open spec fn settled<G: ReclaimGate>(gate: &G, outcome: Result<(), DriverError>) -> bool {
    ||| outcome is Ok && exists|answer: Result<bool, DriverError>|
        #[trigger] call_ensures(G::passed, (gate,), answer) && says_passed(answer)
    ||| call_ensures(G::wait, (gate,), outcome) && unpassed(gate)
}

/// Waits for this gate, without blocking where it has passed already.
pub fn settle<G: ReclaimGate>(gate: &G) -> (outcome: Result<(), DriverError>)
    ensures
        settled(gate, outcome),
{
    let answer = gate.passed();
    match answer {
        Ok(true) => Ok(()),
        _ => {
            assert(unpassed(gate));
            gate.wait()
        },
    }
}

/// How many of `outcomes` are `Ok`.
pub open spec fn ok_count(outcomes: Seq<Result<(), DriverError>>) -> nat
    decreases outcomes.len(),
{
    if outcomes.len() == 0 {
        0
    } else {
        ok_count(outcomes.drop_last()) + (if outcomes.last() is Ok {
            1nat
        } else {
            0nat
        })
    }
}

/// The error and the payload of each entry whose outcome is an error, in order.
pub open spec fn unproven<G, P>(
    entries: Seq<LimboEntry<G, P>>,
    outcomes: Seq<Result<(), DriverError>>,
) -> Seq<(DriverError, P)>
    decreases entries.len(),
{
    if entries.len() == 0 || outcomes.len() == 0 {
        Seq::empty()
    } else {
        let rest = unproven(entries.drop_last(), outcomes.drop_last());
        match outcomes.last() {
            Ok(_) => rest,
            Err(error) => rest.push((error, entries.last().payload)),
        }
    }
}

/// A payload whose destructor never runs, and the error that keeps it from
/// being released.
pub type Leak<P> = (DriverError, ManuallyDrop<P>);

/// The errors and payloads of leaks.
pub open spec fn leaked<P>(leaks: Seq<Leak<P>>) -> Seq<(DriverError, P)> {
    Seq::new(leaks.len(), |i: int| (leaks[i].0, leaks[i].1@))
}

/// Whether `outcomes` holds a possible outcome of waiting for each entry.
pub open spec fn all_settled<G: ReclaimGate, P>(
    entries: Seq<LimboEntry<G, P>>,
    outcomes: Seq<Result<(), DriverError>>,
) -> bool {
    &&& outcomes.len() == entries.len()
    &&& forall|i: int|
        0 <= i < entries.len() ==> settled(&entries[i].gate, #[trigger] outcomes[i])
}

/// Blocking drain: waits for every parked gate to pass, then drops the
/// payload. Returns the number of results reclaimed.
///
/// Where even the blocking wait fails, the payload is leaked: it is added to
/// `leaks` with the error, as a value whose destructor never runs. If the
/// driver cannot prove the GPU work finished, leaking is safer than freeing
/// memory the device may still write to.
pub fn drain<G: ReclaimGate, P>(limbo: &mut Limbo<G, P>, leaks: &mut Vec<Leak<P>>) -> (reclaimed:
    usize)
    ensures
        final(limbo).entries@ == Seq::<LimboEntry<G, P>>::empty(),
        old(leaks)@.is_prefix_of(final(leaks)@),
        exists|outcomes: Seq<Result<(), DriverError>>|
            {
                &&& #[trigger] all_settled(old(limbo).entries@, outcomes)
                &&& reclaimed == ok_count(outcomes)
                &&& leaked(final(leaks)@.skip(old(leaks)@.len() as int)) == unproven(
                    old(limbo).entries@,
                    outcomes,
                )
            },
{
    let ghost before = limbo.entries@;
    let ghost leaks_before = leaks@;
    let mut entries: Vec<LimboEntry<G, P>> = Vec::new();
    std::mem::swap(&mut entries, &mut limbo.entries);
    let count: usize = entries.len();
    let mut reclaimed: usize = 0;
    let ghost mut outcomes: Seq<Result<(), DriverError>> = Seq::empty();
    assert(leaks@ =~= leaks_before + leaks@.skip(leaks_before.len() as int));
    assert(leaked(leaks@.skip(leaks_before.len() as int)) =~= unproven(before.take(0), outcomes));
    for entry in it: entries.into_iter()
        invariant
            it.seq() == before,
            before.len() == count,
            all_settled(before.take(it.index() as int), outcomes),
            reclaimed == ok_count(outcomes),
            reclaimed <= it.index(),
            leaks@ == leaks_before + leaks@.skip(leaks_before.len() as int),
            leaked(leaks@.skip(leaks_before.len() as int)) == unproven(
                before.take(it.index() as int),
                outcomes,
            ),
    {
        let outcome = settle(&entry.gate);
        let ghost seen = before.take(it.index() as int);
        let ghost next = before.take(it.index() + 1);
        let ghost old_leaks = leaks@;
        let ghost from = leaks_before.len() as int;
        proof {
            assert(next.drop_last() =~= seen);
            assert(next.last() == entry);
            assert(outcomes.push(outcome).drop_last() =~= outcomes);
            outcomes = outcomes.push(outcome);
            assert(all_settled(next, outcomes)) by {
                assert forall|i: int| 0 <= i < next.len() implies settled(
                    &next[i].gate,
                    #[trigger] outcomes[i],
                ) by {
                    if i < seen.len() {
                        assert(seen[i] == next[i]);
                    }
                }
            }
        }
        match outcome {
            Ok(()) => {
                reclaimed = reclaimed + 1;
            },
            Err(error) => {
                leaks.push((error, ManuallyDrop::new(entry.payload)));
                proof {
                    assert(leaks@.skip(from) =~= old_leaks.skip(from).push(leaks@.last()));
                    assert(leaked(leaks@.skip(from)) =~= leaked(old_leaks.skip(from)).push(
                        (error, entry.payload),
                    ));
                }
            },
        }
    }
    assert(before.take(before.len() as int) =~= before);
    reclaimed
}

/// A sweep releases a result only where its gate said that it had passed.
pub proof fn law_sweep_releases_only_passed<G, P>(
    entries: Seq<LimboEntry<G, P>>,
    answers: Seq<Result<bool, DriverError>>,
    k: int,
)
    requires
        answers.len() == entries.len(),
        0 <= k < sorted_out(entries, answers, true).len(),
    ensures
        exists|i: int|
            0 <= i < entries.len() && #[trigger] entries[i] == sorted_out(entries, answers, true)[k]
                && says_passed(answers[i]),
{
    lemma_sorted_out_member(entries, answers, true, k);
}

/// A sweep keeps a result exactly where its gate did not say that it had
/// passed: it still runs, or the query failed.
pub proof fn law_sweep_keeps_the_rest<G, P>(
    entries: Seq<LimboEntry<G, P>>,
    answers: Seq<Result<bool, DriverError>>,
    i: int,
)
    requires
        answers.len() == entries.len(),
        0 <= i < entries.len(),
    ensures
        says_passed(answers[i]) ==> sorted_out(entries, answers, true).contains(entries[i]),
        !says_passed(answers[i]) ==> sorted_out(entries, answers, false).contains(entries[i]),
    decreases entries.len(),
{
    let passed = says_passed(answers[i]);
    let all = sorted_out(entries, answers, passed);
    if i == entries.len() - 1 {
        assert(all.last() == entries[i]);
    } else {
        law_sweep_keeps_the_rest(entries.drop_last(), answers.drop_last(), i);
        let rest = sorted_out(entries.drop_last(), answers.drop_last(), passed);
        let k = choose|k: int| 0 <= k < rest.len() && rest[k] == entries[i];
        assert(all[k] == entries[i]);
    }
}

/// A sweep neither loses nor duplicates a result: each entry is released or
/// kept, and the two counts make up the whole.
pub proof fn law_sweep_accounts_for_all<G, P>(
    entries: Seq<LimboEntry<G, P>>,
    answers: Seq<Result<bool, DriverError>>,
)
    requires
        answers.len() == entries.len(),
    ensures
        sorted_out(entries, answers, true).len() + sorted_out(entries, answers, false).len()
            == entries.len(),
        sorted_out(entries, answers, true).to_multiset().add(
            sorted_out(entries, answers, false).to_multiset(),
        ) == entries.to_multiset(),
    decreases entries.len(),
{
    broadcast use vstd::seq_lib::group_to_multiset_ensures;

    if entries.len() > 0 {
        let e = entries.drop_last();
        let a = answers.drop_last();
        law_sweep_accounts_for_all(e, a);
        assert(entries =~= e.push(entries.last()));
        assert(sorted_out(entries, answers, true).to_multiset().add(
            sorted_out(entries, answers, false).to_multiset(),
        ) =~= entries.to_multiset());
    } else {
        assert(sorted_out(entries, answers, true) =~= Seq::<LimboEntry<G, P>>::empty());
        assert(sorted_out(entries, answers, false) =~= Seq::<LimboEntry<G, P>>::empty());
        assert(entries =~= Seq::<LimboEntry<G, P>>::empty());
        assert(sorted_out(entries, answers, true).to_multiset().add(
            sorted_out(entries, answers, false).to_multiset(),
        ) =~= entries.to_multiset());
    }
}

/// While no gate has passed, a sweep leaves the limbo as it was.
pub proof fn law_sweep_without_passed_gate_changes_nothing<G, P>(
    entries: Seq<LimboEntry<G, P>>,
    answers: Seq<Result<bool, DriverError>>,
)
    requires
        answers.len() == entries.len(),
        forall|i: int| 0 <= i < answers.len() ==> !says_passed(#[trigger] answers[i]),
    ensures
        sorted_out(entries, answers, true) == Seq::<LimboEntry<G, P>>::empty(),
        sorted_out(entries, answers, false) == entries,
    decreases entries.len(),
{
    if entries.len() > 0 {
        law_sweep_without_passed_gate_changes_nothing(entries.drop_last(), answers.drop_last());
        assert(!says_passed(answers[answers.len() - 1]));
        assert(entries =~= entries.drop_last().push(entries.last()));
    } else {
        assert(entries =~= Seq::<LimboEntry<G, P>>::empty());
    }
}

/// A drain accounts for every parked result: as many as it reclaims and leaks
/// were parked.
pub proof fn law_drain_accounts_for_all<G, P>(
    entries: Seq<LimboEntry<G, P>>,
    outcomes: Seq<Result<(), DriverError>>,
)
    requires
        outcomes.len() == entries.len(),
    ensures
        ok_count(outcomes) + unproven(entries, outcomes).len() == entries.len(),
    decreases entries.len(),
{
    if entries.len() > 0 {
        law_drain_accounts_for_all(entries.drop_last(), outcomes.drop_last());
    }
}

/// A drain leaks every result whose wait failed, with the error of that wait.
pub proof fn law_drain_leaks_unproven<G, P>(
    entries: Seq<LimboEntry<G, P>>,
    outcomes: Seq<Result<(), DriverError>>,
    i: int,
)
    requires
        outcomes.len() == entries.len(),
        0 <= i < entries.len(),
        outcomes[i] is Err,
    ensures
        unproven(entries, outcomes).contains((outcomes[i]->Err_0, entries[i].payload)),
    decreases entries.len(),
{
    let all = unproven(entries, outcomes);
    let leak = (outcomes[i]->Err_0, entries[i].payload);
    if i == entries.len() - 1 {
        assert(all.last() == leak);
    } else {
        law_drain_leaks_unproven(entries.drop_last(), outcomes.drop_last(), i);
        let rest = unproven(entries.drop_last(), outcomes.drop_last());
        let k = choose|k: int| 0 <= k < rest.len() && rest[k] == leak;
        assert(all[k] == leak);
    }
}

/// A drain leaks nothing else: each leak is a parked result with the error of
/// its own wait.
pub proof fn law_drain_leaks_only_unproven<G, P>(
    entries: Seq<LimboEntry<G, P>>,
    outcomes: Seq<Result<(), DriverError>>,
    k: int,
)
    requires
        outcomes.len() == entries.len(),
        0 <= k < unproven(entries, outcomes).len(),
    ensures
        exists|i: int|
            0 <= i < entries.len() && #[trigger] outcomes[i] == Err::<(), DriverError>(
                unproven(entries, outcomes)[k].0,
            ) && entries[i].payload == unproven(entries, outcomes)[k].1,
    decreases entries.len(),
{
    if entries.len() > 0 {
        let last = entries.len() - 1;
        let rest = unproven(entries.drop_last(), outcomes.drop_last());
        if k < rest.len() {
            law_drain_leaks_only_unproven(entries.drop_last(), outcomes.drop_last(), k);
            let i = choose|i: int|
                0 <= i < last && #[trigger] outcomes.drop_last()[i] == Err::<(), DriverError>(
                    rest[k].0,
                ) && entries.drop_last()[i].payload == rest[k].1;
            assert(outcomes[i] == outcomes.drop_last()[i]);
        } else {
            assert(outcomes[last] == outcomes.last());
        }
    }
}

/// A call on a limbo, with what its gates answered.
#[verifier::ext_equal]
pub enum LimboCall<G, P> {
    /// [`park`] of this entry.
    Park(LimboEntry<G, P>),
    /// [`sweep`], where all gates together gave these answers.
    Sweep(Seq<Result<bool, DriverError>>),
    /// [`drain`].
    Drain,
}

/// The entries that are parked after `calls` on an empty limbo.
pub open spec fn parked_after<G, P>(calls: Seq<LimboCall<G, P>>) -> Seq<LimboEntry<G, P>>
    decreases calls.len(),
{
    if calls.len() == 0 {
        Seq::empty()
    } else {
        let before = parked_after(calls.drop_last());
        match calls.last() {
            LimboCall::Park(entry) => before.push(entry),
            LimboCall::Sweep(answers) => sorted_out(before, answers, false),
            LimboCall::Drain => Seq::empty(),
        }
    }
}

/// Whether each sweep among `calls` got one answer from each gate.
pub open spec fn all_asked<G, P>(calls: Seq<LimboCall<G, P>>) -> bool
    decreases calls.len(),
{
    calls.len() == 0 || {
        &&& all_asked(calls.drop_last())
        &&& match calls.last() {
            LimboCall::Sweep(answers) => answers.len() == parked_after(calls.drop_last()).len(),
            _ => true,
        }
    }
}

/// The number of parks since the last drain.
pub open spec fn parks_since_drain<G, P>(calls: Seq<LimboCall<G, P>>) -> nat
    decreases calls.len(),
{
    if calls.len() == 0 {
        0
    } else {
        match calls.last() {
            LimboCall::Park(_) => parks_since_drain(calls.drop_last()) + 1,
            LimboCall::Sweep(_) => parks_since_drain(calls.drop_last()),
            LimboCall::Drain => 0,
        }
    }
}

/// The sum of what the sweeps since the last drain returned.
pub open spec fn swept_since_drain<G, P>(calls: Seq<LimboCall<G, P>>) -> nat
    decreases calls.len(),
{
    if calls.len() == 0 {
        0
    } else {
        let before = swept_since_drain(calls.drop_last());
        match calls.last() {
            LimboCall::Park(_) => before,
            LimboCall::Sweep(answers) => before + sorted_out(
                parked_after(calls.drop_last()),
                answers,
                true,
            ).len(),
            LimboCall::Drain => 0,
        }
    }
}

/// After any calls on an empty limbo, what [`pending`] counts is the number of
/// parks since the last drain, less what the sweeps since then returned. Right
/// after a drain it is 0.
pub proof fn law_pending_counts_parks_less_sweeps<G, P>(calls: Seq<LimboCall<G, P>>)
    requires
        all_asked(calls),
    ensures
        parked_after(calls).len() == parks_since_drain(calls) - swept_since_drain(calls),
        calls.len() > 0 && calls.last() is Drain ==> parked_after(calls).len() == 0,
    decreases calls.len(),
{
    if calls.len() > 0 {
        law_pending_counts_parks_less_sweeps(calls.drop_last());
        if let LimboCall::Sweep(answers) = calls.last() {
            law_sweep_accounts_for_all(parked_after(calls.drop_last()), answers);
        }
    }
}

/// What is sorted out stems from an entry with the answer asked for.
proof fn lemma_sorted_out_member<G, P>(
    entries: Seq<LimboEntry<G, P>>,
    answers: Seq<Result<bool, DriverError>>,
    passed: bool,
    k: int,
)
    requires
        answers.len() == entries.len(),
        0 <= k < sorted_out(entries, answers, passed).len(),
    ensures
        exists|i: int|
            0 <= i < entries.len() && #[trigger] entries[i] == sorted_out(
                entries,
                answers,
                passed,
            )[k] && says_passed(answers[i]) == passed,
    decreases entries.len(),
{
    if entries.len() > 0 {
        let rest = sorted_out(entries.drop_last(), answers.drop_last(), passed);
        if k < rest.len() {
            lemma_sorted_out_member(entries.drop_last(), answers.drop_last(), passed, k);
            let i = choose|i: int|
                0 <= i < entries.len() - 1 && #[trigger] entries.drop_last()[i] == rest[k]
                    && says_passed(answers.drop_last()[i]) == passed;
            assert(entries[i] == sorted_out(entries, answers, passed)[k]);
            assert(answers[i] == answers.drop_last()[i]);
        } else {
            assert(entries[entries.len() - 1] == sorted_out(entries, answers, passed)[k]);
        }
    }
}

} // verus!
