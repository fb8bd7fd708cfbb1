use std::sync::atomic::{AtomicUsize, Ordering};
use std::sync::{Arc, Mutex};

use cuda_oxide::driver::error::DriverError;
use cuda_oxide::runtime::device_future::{
    leak_notice, Cleanup, DeviceFuture, DeviceFutureState, PollEvent, PollStep,
};
use cuda_oxide::runtime::error::DeviceError;
use cuda_oxide::runtime::reclaim::{pending, Limbo};

#[derive(Clone)]
struct DropTracker {
    events: Arc<Mutex<Vec<&'static str>>>,
}

impl Drop for DropTracker {
    fn drop(&mut self) {
        self.events.lock().unwrap().push("drop");
    }
}

struct CountDrop(Arc<AtomicUsize>);

impl Drop for CountDrop {
    fn drop(&mut self) {
        self.0.fetch_add(1, Ordering::Relaxed);
    }
}

/// A future whose operation, context and callback state are plain values.
type Plain<T> = DeviceFuture<T, &'static str, u32, char>;

fn future_in<T>(state: DeviceFutureState, result: Option<T>) -> Plain<T> {
    DeviceFuture {
        device_operation: None,
        execution_context: None,
        result,
        error: None,
        state,
        callback_state: None,
    }
}

#[test]
fn cleanup_executing_result_synchronizes_before_drop() {
    let events = Arc::new(Mutex::new(Vec::new()));
    let tracker = DropTracker { events: Arc::clone(&events) };
    let mut future = future_in(DeviceFutureState::Executing, Some(tracker));

    future.cleanup_executing_result_with(|| {
        events.lock().unwrap().push("sync");
        Ok(())
    });

    assert_eq!(events.lock().unwrap().as_slice(), ["sync", "drop"]);
    assert!(future.result.is_none());
}

#[test]
fn cleanup_executing_result_leaks_when_synchronize_fails() {
    let drops = Arc::new(AtomicUsize::new(0));
    let mut future =
        future_in(DeviceFutureState::Executing, Some(CountDrop(Arc::clone(&drops))));

    let outcome = future
        .cleanup_executing_result_with(|| Err(DeviceError::Internal("boom".to_string())));

    assert_eq!(drops.load(Ordering::Relaxed), 0);
    assert!(future.result.is_none());
    match outcome {
        Cleanup::Leaked(DeviceError::Internal(message), _) => assert_eq!(message, "boom"),
        _ => panic!("the result must be reported as leaked"),
    }
    assert_eq!(drops.load(Ordering::Relaxed), 0);
}

/// `execute` succeeded (GPU work submitted, `result` populated) but the
/// callback could not be registered, so poll flipped the state to `Complete`
/// with the result still stored. Cleanup must treat that exactly like a
/// cancelled `Executing` future.
#[test]
fn cleanup_covers_complete_future_left_by_callback_registration_failure() {
    let events = Arc::new(Mutex::new(Vec::new()));
    let tracker = DropTracker { events: Arc::clone(&events) };
    let mut future = future_in(DeviceFutureState::Complete, Some(tracker));

    assert!(future.has_undelivered_submission());
    future.cleanup_executing_result_with(|| {
        events.lock().unwrap().push("sync");
        Ok(())
    });

    assert_eq!(events.lock().unwrap().as_slice(), ["sync", "drop"]);
    assert!(future.result.is_none());
    assert!(!future.has_undelivered_submission());
}

/// A `Complete` future whose result was already delivered to the caller has
/// nothing to reclaim.
#[test]
fn cleanup_is_noop_after_result_delivery() {
    let mut future: Plain<u32> = future_in(DeviceFutureState::Complete, None);
    let mut limbo: Limbo<u32, u32> = Limbo::new();

    assert!(!future.has_undelivered_submission());
    future.cleanup_executing_result_with(|| {
        panic!("delivered futures must not synchronize during cleanup")
    });
    future.reclaim_in_flight_result(
        &mut limbo,
        |_| panic!("delivered futures must not record an event"),
        |_| panic!("delivered futures must not synchronize during cleanup"),
    );
}

#[test]
fn cleanup_is_noop_for_idle_future() {
    let drops = Arc::new(AtomicUsize::new(0));
    let mut future = future_in(DeviceFutureState::Idle, Some(CountDrop(Arc::clone(&drops))));

    future.cleanup_executing_result_with(|| {
        panic!("idle futures should not synchronize during cleanup")
    });

    assert_eq!(drops.load(Ordering::Relaxed), 0);
    assert!(future.result.is_some());

    drop(future);
    assert_eq!(drops.load(Ordering::Relaxed), 1);
}

#[test]
fn reclaim_parks_the_result_behind_the_recorded_event() {
    let drops = Arc::new(AtomicUsize::new(0));
    let mut future =
        future_in(DeviceFutureState::Executing, Some(CountDrop(Arc::clone(&drops))));
    future.execution_context = Some(7);
    let mut limbo = Limbo::new();

    let outcome = future.reclaim_in_flight_result(
        &mut limbo,
        |context| Ok(*context + 100),
        |_| panic!("the fallback must not run"),
    );

    assert!(matches!(outcome, Cleanup::Parked));
    assert_eq!(pending(&limbo), 1);
    assert_eq!(limbo.entries[0].gate, 107);
    assert!(future.result.is_none());
    assert_eq!(drops.load(Ordering::Relaxed), 0);
}

#[test]
fn reclaim_falls_back_to_synchronizing() {
    let drops = Arc::new(AtomicUsize::new(0));
    let mut limbo: Limbo<u32, CountDrop> = Limbo::new();

    let mut idle = future_in(DeviceFutureState::Executing, Some(CountDrop(Arc::clone(&drops))));
    idle.execution_context = Some(7);
    let outcome =
        idle.reclaim_in_flight_result(&mut limbo, |_| Err(DriverError(1)), |_| Ok(()));
    assert!(matches!(outcome, Cleanup::Dropped));
    assert_eq!(drops.load(Ordering::Relaxed), 1);

    let mut stuck = future_in(DeviceFutureState::Executing, Some(CountDrop(Arc::clone(&drops))));
    stuck.execution_context = Some(7);
    let outcome = stuck.reclaim_in_flight_result(
        &mut limbo,
        |_| Err(DriverError(1)),
        |_| Err(DriverError(2)),
    );
    assert!(matches!(outcome, Cleanup::Leaked(DeviceError::Driver(DriverError(2)), _)));
    assert_eq!(drops.load(Ordering::Relaxed), 1);

    let mut homeless =
        future_in(DeviceFutureState::Executing, Some(CountDrop(Arc::clone(&drops))));
    let outcome = homeless.reclaim_in_flight_result(&mut limbo, |_| Ok(1), |_| Ok(()));
    match outcome {
        Cleanup::Leaked(DeviceError::Internal(message), _) => assert_eq!(
            message,
            "Cannot clean up an in-flight future without an execution context."
        ),
        _ => panic!("without a context the result must be leaked"),
    }
    assert_eq!(pending(&limbo), 0);
    assert_eq!(drops.load(Ordering::Relaxed), 1);
}

#[test]
fn poll_runs_from_idle_to_complete() {
    let mut future: Plain<u32> = DeviceFuture::new();
    assert_eq!(future.state, DeviceFutureState::Idle);
    future.device_operation = Some("add");
    future.execution_context = Some(3);

    assert!(matches!(future.poll(PollEvent::Start), PollStep::Sweep));
    assert!(matches!(future.poll(PollEvent::Swept), PollStep::MakeCallbackState));
    assert!(matches!(future.poll(PollEvent::CallbackStateMade('s')), PollStep::RegisterWaker));
    assert_eq!(future.callback_state, Some('s'));
    match future.poll(PollEvent::WakerRegistered) {
        PollStep::Execute(operation) => assert_eq!(operation, "add"),
        _ => panic!("the operation must be executed"),
    }
    assert!(matches!(future.poll(PollEvent::Executed(Ok(5))), PollStep::RegisterCallback));
    assert!(matches!(future.poll(PollEvent::CallbackRegistered(Ok(()))), PollStep::Pending));
    assert_eq!(future.state, DeviceFutureState::Executing);
    assert!(future.has_undelivered_submission());

    assert!(matches!(future.poll(PollEvent::Start), PollStep::Sweep));
    assert!(matches!(future.poll(PollEvent::Swept), PollStep::ReadCompletion));
    assert!(matches!(future.poll(PollEvent::CompletionRead(false)), PollStep::RegisterWaker));
    assert!(matches!(future.poll(PollEvent::WakerRegistered), PollStep::ReadCompletionAgain));
    assert!(matches!(future.poll(PollEvent::CompletionReadAgain(false)), PollStep::Pending));

    match future.poll(PollEvent::CompletionRead(true)) {
        PollStep::Ready(Ok(value)) => assert_eq!(value, 5),
        _ => panic!("the result must be delivered"),
    }
    assert_eq!(future.state, DeviceFutureState::Complete);
    assert!(!future.has_undelivered_submission());
}

#[test]
fn flag_seen_after_the_waker_delivers_too() {
    let mut future = future_in(DeviceFutureState::Executing, Some(8u32));
    match future.poll(PollEvent::CompletionReadAgain(true)) {
        PollStep::Ready(Ok(value)) => assert_eq!(value, 8),
        _ => panic!("the result must be delivered"),
    }
}

#[test]
fn failed_future_yields_its_error_once() {
    let mut future: Plain<u32> = DeviceFuture::failed(DeviceError::Driver(DriverError(2)));
    assert!(matches!(future.poll(PollEvent::Start), PollStep::Sweep));
    match future.poll(PollEvent::Swept) {
        PollStep::Ready(Err(DeviceError::Driver(error))) => assert_eq!(error, DriverError(2)),
        _ => panic!("the error must come first"),
    }
    assert_eq!(future.state, DeviceFutureState::Complete);
    assert!(future.error.is_none());
}

#[test]
fn poll_without_context_or_operation_fails() {
    let mut future: Plain<u32> = DeviceFuture::new();
    match future.poll(PollEvent::WakerRegistered) {
        PollStep::Ready(Err(DeviceError::Internal(message))) => {
            assert_eq!(message, "Cannot execute future without an execution context.")
        }
        _ => panic!("a context is needed"),
    }

    let mut future: Plain<u32> = DeviceFuture::new();
    future.execution_context = Some(1);
    match future.poll(PollEvent::WakerRegistered) {
        PollStep::Ready(Err(DeviceError::Internal(message))) => {
            assert_eq!(message, "No operation has been set.")
        }
        _ => panic!("an operation is needed"),
    }
    assert_eq!(future.state, DeviceFutureState::Complete);
}

#[test]
fn failed_registration_leaves_the_result_for_reclamation() {
    let mut future: Plain<u32> = DeviceFuture::new();
    future.execution_context = Some(1);
    future.result = Some(4);
    let error = DeviceError::Driver(DriverError(3));
    assert!(matches!(
        future.poll(PollEvent::CallbackRegistered(Err(error))),
        PollStep::ReclaimThenFail(DeviceError::Driver(DriverError(3)))
    ));
    assert!(future.has_undelivered_submission());
    assert_eq!(future.result, Some(4));
}

#[test]
fn failed_execution_completes_the_future() {
    let mut future: Plain<u32> = DeviceFuture::new();
    future.execution_context = Some(1);
    let error = DeviceError::Driver(DriverError(3));
    assert!(matches!(
        future.poll(PollEvent::Executed(Err(error))),
        PollStep::Ready(Err(DeviceError::Driver(DriverError(3))))
    ));
    assert_eq!(future.state, DeviceFutureState::Complete);
    assert!(!future.has_undelivered_submission());
}

#[test]
fn leak_notice_names_the_error() {
    assert_eq!(
        leak_notice("boom"),
        "cuda-async: leaking in-flight future result after cleanup failure: boom"
    );
}
