use std::mem::ManuallyDrop;
use std::sync::atomic::{AtomicBool, AtomicUsize, Ordering};
use std::sync::Arc;

use cuda_oxide::driver::error::{DriverError, CUDA_ERROR_INVALID_VALUE};
use cuda_oxide::runtime::reclaim::{
    drain, park, pending, settle, sweep, take_completed, Completion, Limbo, ReclaimGate,
};

/// Host-side stand-in for a recorded CUDA event.
struct MockGate {
    /// Mirrors "the device timeline has passed the recorded event".
    passed: Arc<AtomicBool>,
    /// When `true`, the blocking wait reports a driver failure.
    wait_fails: bool,
}

impl Completion for MockGate {
    fn passed(&self) -> Result<bool, DriverError> {
        Ok(self.passed.load(Ordering::Relaxed))
    }
}

impl ReclaimGate for MockGate {
    fn wait(&self) -> Result<(), DriverError> {
        if self.wait_fails {
            Err(DriverError(CUDA_ERROR_INVALID_VALUE))
        } else {
            self.passed.store(true, Ordering::Relaxed);
            Ok(())
        }
    }
}

struct CountDrop(Arc<AtomicUsize>);

impl Drop for CountDrop {
    fn drop(&mut self) {
        self.0.fetch_add(1, Ordering::Relaxed);
    }
}

/// A gate with fixed answers.
struct FixedGate {
    answer: Result<bool, DriverError>,
    wait: Result<(), DriverError>,
}

impl Completion for FixedGate {
    fn passed(&self) -> Result<bool, DriverError> {
        self.answer
    }
}

impl ReclaimGate for FixedGate {
    fn wait(&self) -> Result<(), DriverError> {
        self.wait
    }
}

#[test]
fn sweep_keeps_payload_parked_until_gate_passes() {
    let mut limbo = Limbo::new();
    let drops = Arc::new(AtomicUsize::new(0));
    let gate_passed = Arc::new(AtomicBool::new(false));

    park(
        &mut limbo,
        MockGate { passed: Arc::clone(&gate_passed), wait_fails: false },
        CountDrop(Arc::clone(&drops)),
    );

    sweep(&mut limbo);
    assert_eq!(
        drops.load(Ordering::Relaxed),
        0,
        "payload must stay parked while the GPU work is in flight"
    );

    gate_passed.store(true, Ordering::Relaxed);
    sweep(&mut limbo);
    assert_eq!(
        drops.load(Ordering::Relaxed),
        1,
        "payload must drop once its gate reports completion"
    );
}

#[test]
fn drain_waits_for_gate_then_drops_payload() {
    let mut limbo = Limbo::new();
    let drops = Arc::new(AtomicUsize::new(0));
    let gate_passed = Arc::new(AtomicBool::new(false));

    park(
        &mut limbo,
        MockGate { passed: Arc::clone(&gate_passed), wait_fails: false },
        CountDrop(Arc::clone(&drops)),
    );

    let mut leaks = Vec::new();
    let reclaimed = drain(&mut limbo, &mut leaks);
    assert_eq!(reclaimed, 1);
    assert_eq!(drops.load(Ordering::Relaxed), 1);
    assert!(
        gate_passed.load(Ordering::Relaxed),
        "drain must have waited on its gate before dropping"
    );
    assert!(leaks.is_empty());
}

#[test]
fn drain_leaks_payload_when_wait_fails() {
    let mut limbo = Limbo::new();
    let drops = Arc::new(AtomicUsize::new(0));

    park(
        &mut limbo,
        MockGate { passed: Arc::new(AtomicBool::new(false)), wait_fails: true },
        CountDrop(Arc::clone(&drops)),
    );

    let mut leaks = Vec::new();
    let reclaimed = drain(&mut limbo, &mut leaks);
    assert_eq!(reclaimed, 0);
    assert_eq!(
        drops.load(Ordering::Relaxed),
        0,
        "an unprovable gate must leak the payload, never drop it early"
    );
    assert_eq!(leaks.len(), 1);
    assert_eq!(leaks[0].0, DriverError(CUDA_ERROR_INVALID_VALUE));
    drop(leaks);
    assert_eq!(drops.load(Ordering::Relaxed), 0);
    assert_eq!(pending(&limbo), 0);
}

#[test]
fn sweep_sorts_entries_by_their_answers() {
    let mut limbo = Limbo::new();
    let answers = [Ok(true), Ok(false), Err(DriverError(700)), Ok(true)];
    for (i, answer) in answers.iter().enumerate() {
        park(&mut limbo, FixedGate { answer: *answer, wait: Ok(()) }, i);
    }
    assert_eq!(pending(&limbo), 4);

    let done = take_completed(&mut limbo);
    let released: Vec<usize> = done.iter().map(|entry| entry.payload).collect();
    assert_eq!(released, vec![0, 3]);
    let kept: Vec<usize> = limbo.entries.iter().map(|entry| entry.payload).collect();
    assert_eq!(kept, vec![1, 2]);

    // No gate has passed: nothing changes.
    assert_eq!(sweep(&mut limbo), 0);
    assert_eq!(pending(&limbo), 2);
}

#[test]
fn drain_accounts_for_every_entry() {
    let mut limbo = Limbo::new();
    park(&mut limbo, FixedGate { answer: Ok(true), wait: Err(DriverError(1)) }, "passed");
    park(&mut limbo, FixedGate { answer: Ok(false), wait: Ok(()) }, "waited");
    park(&mut limbo, FixedGate { answer: Err(DriverError(2)), wait: Err(DriverError(3)) }, "stuck");

    let mut leaks = vec![(DriverError(9), ManuallyDrop::new("earlier"))];
    assert_eq!(drain(&mut limbo, &mut leaks), 2);
    assert_eq!(
        leaks,
        vec![
            (DriverError(9), ManuallyDrop::new("earlier")),
            (DriverError(3), ManuallyDrop::new("stuck")),
        ]
    );
    assert_eq!(pending(&limbo), 0);
}

#[test]
fn settle_waits_only_where_the_gate_has_not_passed() {
    let passed = FixedGate { answer: Ok(true), wait: Err(DriverError(1)) };
    assert_eq!(settle(&passed), Ok(()));
    let stuck = FixedGate { answer: Ok(false), wait: Err(DriverError(1)) };
    assert_eq!(settle(&stuck), Err(DriverError(1)));
}

/// A gate that can only be asked.
struct Question(bool);

impl Completion for Question {
    fn passed(&self) -> Result<bool, DriverError> {
        Ok(self.0)
    }
}

#[test]
fn sweep_needs_no_way_to_wait() {
    let mut limbo = Limbo::new();
    park(&mut limbo, Question(false), 'a');
    park(&mut limbo, Question(true), 'b');
    assert_eq!(sweep(&mut limbo), 1);
    assert_eq!(pending(&limbo), 1);
    assert_eq!(limbo.entries[0].payload, 'a');
}

#[test]
fn pending_counts_parks_less_sweeps_since_the_last_drain() {
    let mut limbo = Limbo::new();
    let gate = |passed| FixedGate { answer: Ok(passed), wait: Ok(()) };
    park(&mut limbo, gate(false), 1);
    assert_eq!(drain(&mut limbo, &mut Vec::new()), 1);
    assert_eq!(pending(&limbo), 0);

    park(&mut limbo, gate(true), 2);
    park(&mut limbo, gate(false), 3);
    let first = sweep(&mut limbo);
    park(&mut limbo, gate(true), 4);
    park(&mut limbo, gate(true), 5);
    let second = sweep(&mut limbo);
    assert_eq!((first, second), (1, 2));
    assert_eq!(pending(&limbo), 4 - first - second);
}
