//! Futures over device operations.
//!
//! A [`DeviceFuture`] drives an operation through a small state machine:
//!
//! ```text
//!   Idle --poll--> Executing --callback fires--> Complete
//! ```
//!
//! On the first poll the operation is executed on its stream and a host
//! callback is registered. When the GPU reaches the callback, it wakes the
//! future, so that nothing waits busily.
//!
//! What touches the device or the executor (running the operation,
//! registering a waker, reading the callback's flag) is asked for step by step:
//! [`DeviceFuture::poll`] takes what has happened and says what to do next.

use core::mem::ManuallyDrop;
use vstd::prelude::*;

use crate::driver::error::DriverError;
use crate::runtime::error::{internal, is_internal, DeviceError};
use crate::runtime::reclaim::{park, Limbo, LimboEntry};

verus! {

/// Lifecycle state of a [`DeviceFuture`].
#[derive(Clone, Copy, Debug, PartialEq, Eq, Structural)]
pub enum DeviceFutureState {
    /// The future was constructed in a failed state (e.g. scheduling error).
    Failed,
    /// Initial state: the operation has not yet been submitted to the GPU.
    Idle,
    /// The operation has been submitted; waiting for the stream callback.
    Executing,
    /// The result has been produced. The future must not be polled again.
    Complete,
}

impl Default for DeviceFutureState {
    fn default() -> (state: Self)
        ensures
            state == DeviceFutureState::Idle,
    {
        DeviceFutureState::Idle
    }
}

/// A future that executes an operation `DO` in a context `C` and resolves to
/// its output `T` when the GPU signals completion. `S` is the state that it
/// shares with the host callback.
///
/// Dropping the future never cancels submitted GPU work: an in-flight result
/// is handed to [`DeviceFuture::reclaim_in_flight_result`].
pub struct DeviceFuture<T, DO, C, S> {
    /// The operation to execute. Consumed on first poll.
    pub device_operation: Option<DO>,
    /// Stream and context for execution. Set by the scheduling policy.
    pub execution_context: Option<C>,
    /// Holds the result between execution and final poll resolution.
    pub result: Option<T>,
    /// Holds an error when the future is in the `Failed` state.
    pub error: Option<DeviceError>,
    /// Current lifecycle state.
    pub state: DeviceFutureState,
    /// Shared state with the host callback.
    pub callback_state: Option<S>,
}

/// What has happened since the previous step of a poll.
pub enum PollEvent<T, S> {
    /// The executor polls the future.
    Start,
    /// Earlier cancellations were swept.
    Swept,
    /// A state to share with the host callback was made.
    CallbackStateMade(S),
    /// The executor's waker was registered with the callback state.
    WakerRegistered,
    /// The operation was executed on the stream of the execution context.
    Executed(Result<T, DeviceError>),
    /// The host callback was enqueued behind the operation, or was not.
    CallbackRegistered(Result<(), DeviceError>),
    /// The callback's flag was read, before the waker was registered.
    CompletionRead(bool),
    /// The callback's flag was read, after the waker was registered.
    CompletionReadAgain(bool),
}

/// What a poll does next.
pub enum PollStep<T, DO> {
    /// Sweep the limbo of cancelled results.
    Sweep,
    /// Make a state to share with the host callback.
    MakeCallbackState,
    /// Register the executor's waker with the callback state.
    RegisterWaker,
    /// Execute this operation in the execution context.
    Execute(DO),
    /// Enqueue the host callback in the execution context.
    RegisterCallback,
    /// Read the callback's flag.
    ReadCompletion,
    /// Read the callback's flag once more: it may have been set before the
    /// waker was registered.
    ReadCompletionAgain,
    /// Hand the in-flight result to deferred reclamation, then resolve to this
    /// error.
    ReclaimThenFail(DeviceError),
    /// Resolve.
    Ready(Result<T, DeviceError>),
    /// Report that the future is not ready yet.
    Pending,
}

/// What became of an in-flight result.
#[derive(Debug)]
pub enum Cleanup<T> {
    /// There was none.
    Nothing,
    /// It waits in limbo for its gate to pass.
    Parked,
    /// It was dropped, after the stream was known to be idle.
    Dropped,
    /// It was leaked, and its destructor never runs: this error kept the
    /// stream from being known as idle.
    Leaked(DeviceError, ManuallyDrop<T>),
}

/// Whether `outcome` is what becomes of `result` where waiting for the stream
/// gave `synchronized`.
pub open spec fn released<T>(
    result: T,
    synchronized: Result<(), DeviceError>,
    outcome: Cleanup<T>,
) -> bool {
    match synchronized {
        Ok(_) => outcome is Dropped,
        Err(error) => outcome matches Cleanup::Leaked(reason, kept) && reason == error && kept@
            == result,
    }
}

/// The message of a poll without an execution context.
pub open spec fn no_context_text() -> Seq<char> {
    "Cannot execute future without an execution context."@
}

/// The message of a poll without an operation.
pub open spec fn no_operation_text() -> Seq<char> {
    "No operation has been set."@
}

/// The message of a cleanup without an execution context.
pub open spec fn no_cleanup_context_text() -> Seq<char> {
    "Cannot clean up an in-flight future without an execution context."@
}

/// What is printed when an in-flight result is leaked.
pub fn leak_notice(error: &str) -> (text: String)
    ensures
        text@ == "cuda-async: leaking in-flight future result after cleanup failure: "@ + error@,
{
    let mut text = String::from_str(
        "cuda-async: leaking in-flight future result after cleanup failure: ",
    );
    text.append(error);
    text
}

impl<T, DO, C, S> Default for DeviceFuture<T, DO, C, S> {
    fn default() -> (future: Self)
        ensures
            future == idle_future::<T, DO, C, S>(),
    {
        DeviceFuture {
            device_operation: None,
            execution_context: None,
            result: None,
            error: None,
            state: DeviceFutureState::Idle,
            callback_state: None,
        }
    }
}

/// The idle future with nothing attached.
pub open spec fn idle_future<T, DO, C, S>() -> DeviceFuture<T, DO, C, S> {
    DeviceFuture {
        device_operation: None,
        execution_context: None,
        result: None,
        error: None,
        state: DeviceFutureState::Idle,
        callback_state: None,
    }
}

impl<T, DO, C, S> DeviceFuture<T, DO, C, S> {
    /// What a poll relies on: a failed future carries its error, and an
    /// executing one its result.
    pub open spec fn wf(self) -> bool {
        &&& self.state is Failed ==> self.error is Some
        &&& self.state is Executing ==> self.result is Some
    }

    /// GPU work was submitted, and the stored result has not been handed out.
    pub open spec fn undelivered(self) -> bool {
        (self.state is Executing || self.state is Complete) && self.result is Some
    }

    /// The events that can come in this state. A future must not be polled
    /// after completion.
    pub open spec fn accepts(self, event: PollEvent<T, S>) -> bool {
        &&& self.wf()
        &&& match event {
            PollEvent::Start => !(self.state is Complete),
            PollEvent::Swept => !(self.state is Complete),
            PollEvent::CallbackStateMade(_) => self.state is Idle || self.state is Executing,
            PollEvent::WakerRegistered => self.state is Idle || self.state is Executing,
            PollEvent::Executed(_) => self.state is Idle,
            PollEvent::CallbackRegistered(_) => self.state is Idle && self.result is Some,
            PollEvent::CompletionRead(_) => self.state is Executing,
            PollEvent::CompletionReadAgain(_) => self.state is Executing,
        }
    }

    /// What comes first once the callback state is there.
    pub open spec fn first_step(self) -> PollStep<T, DO> {
        if self.state is Idle {
            PollStep::RegisterWaker
        } else {
            PollStep::ReadCompletion
        }
    }

    /// Whether the poll of this future that saw `event` leaves it as `after`
    /// and asks for `step`.
    pub open spec fn polled(
        self,
        event: PollEvent<T, S>,
        after: Self,
        step: PollStep<T, DO>,
    ) -> bool {
        let completed = DeviceFuture { state: DeviceFutureState::Complete, ..self };
        match event {
            PollEvent::Start => {
                &&& after == self
                &&& step == PollStep::<T, DO>::Sweep
            },
            PollEvent::Swept => if self.state is Failed {
                &&& after == (DeviceFuture { error: None, ..completed })
                &&& step == PollStep::<T, DO>::Ready(Err(self.error->0))
            } else {
                &&& after == self
                &&& step == (if self.callback_state is None {
                    PollStep::<T, DO>::MakeCallbackState
                } else {
                    self.first_step()
                })
            },
            PollEvent::CallbackStateMade(made) => {
                &&& after == (DeviceFuture { callback_state: Some(made), ..self })
                &&& step == self.first_step()
            },
            PollEvent::WakerRegistered => if self.state is Executing {
                &&& after == self
                &&& step == PollStep::<T, DO>::ReadCompletionAgain
            } else if self.execution_context is None {
                &&& after == completed
                &&& step matches PollStep::Ready(Err(error)) && is_internal(
                    error,
                    no_context_text(),
                )
            } else if self.device_operation is None {
                &&& after == completed
                &&& step matches PollStep::Ready(Err(error)) && is_internal(
                    error,
                    no_operation_text(),
                )
            } else {
                &&& after == (DeviceFuture { device_operation: None, ..self })
                &&& step == PollStep::<T, DO>::Execute(self.device_operation->0)
            },
            PollEvent::Executed(Err(error)) => {
                &&& after == completed
                &&& step == PollStep::<T, DO>::Ready(Err(error))
            },
            PollEvent::Executed(Ok(out)) => if self.execution_context is None {
                &&& after == (DeviceFuture { result: Some(out), ..completed })
                &&& step matches PollStep::ReclaimThenFail(error) && is_internal(
                    error,
                    no_context_text(),
                )
            } else {
                &&& after == (DeviceFuture { result: Some(out), ..self })
                &&& step == PollStep::<T, DO>::RegisterCallback
            },
            PollEvent::CallbackRegistered(Err(error)) => {
                &&& after == completed
                &&& step == PollStep::<T, DO>::ReclaimThenFail(error)
            },
            PollEvent::CallbackRegistered(Ok(_)) => {
                &&& after == (DeviceFuture { state: DeviceFutureState::Executing, ..self })
                &&& step == PollStep::<T, DO>::Pending
            },
            PollEvent::CompletionRead(complete) => if complete {
                &&& after == (DeviceFuture { result: None, ..completed })
                &&& step == PollStep::<T, DO>::Ready(Ok(self.result->0))
            } else {
                &&& after == self
                &&& step == PollStep::<T, DO>::RegisterWaker
            },
            PollEvent::CompletionReadAgain(complete) => if complete {
                &&& after == (DeviceFuture { result: None, ..completed })
                &&& step == PollStep::<T, DO>::Ready(Ok(self.result->0))
            } else {
                &&& after == self
                &&& step == PollStep::<T, DO>::Pending
            },
        }
    }

    /// Creates an idle future with no operation or context attached.
    pub fn new() -> (future: Self)
        ensures
            future == idle_future::<T, DO, C, S>(),
    {
        Self::default()
    }

    /// Creates a future that yields `Err(error)` on its first poll.
    pub fn failed(error: DeviceError) -> (future: Self)
        ensures
            future == (DeviceFuture {
                error: Some(error),
                state: DeviceFutureState::Failed,
                ..idle_future::<T, DO, C, S>()
            }),
    {
        DeviceFuture {
            device_operation: None,
            execution_context: None,
            result: None,
            error: Some(error),
            state: DeviceFutureState::Failed,
            callback_state: None,
        }
    }

    /// Returns `true` when GPU work was submitted but the stored result has
    /// not been handed to the caller.
    ///
    /// A stored result implies submitted GPU work. A `Complete` future can
    /// still hold one when callback registration failed after a successful
    /// launch.
    pub fn has_undelivered_submission(&self) -> (yes: bool)
        ensures
            yes == self.undelivered(),
    {
        (self.state == DeviceFutureState::Executing || self.state == DeviceFutureState::Complete)
            && self.result.is_some()
    }

    /// Takes the stored operation, for execution in the bound context.
    fn take_operation(&mut self) -> (operation: Result<DO, DeviceError>)
        ensures
            old(self).execution_context is None ==> {
                &&& *final(self) == *old(self)
                &&& operation is Err
                &&& is_internal(operation->Err_0, no_context_text())
            },
            old(self).execution_context is Some && old(self).device_operation is None ==> {
                &&& *final(self) == *old(self)
                &&& operation is Err
                &&& is_internal(operation->Err_0, no_operation_text())
            },
            old(self).execution_context is Some && old(self).device_operation is Some ==> {
                &&& *final(self) == (DeviceFuture { device_operation: None, ..*old(self) })
                &&& operation == Ok::<DO, DeviceError>(old(self).device_operation->0)
            },
    {
        if self.execution_context.is_none() {
            return Err(internal("Cannot execute future without an execution context."));
        }
        match self.device_operation.take() {
            Some(operation) => Ok(operation),
            None => Err(internal("No operation has been set.")),
        }
    }

    /// Hands the result out.
    fn deliver(&mut self) -> (step: PollStep<T, DO>)
        requires
            old(self).result is Some,
        ensures
            *final(self) == (DeviceFuture {
                result: None,
                state: DeviceFutureState::Complete,
                ..*old(self)
            }),
            step == PollStep::<T, DO>::Ready(Ok(old(self).result->0)),
    {
        self.state = DeviceFutureState::Complete;
        match self.result.take() {
            Some(result) => PollStep::Ready(Ok(result)),
            None => PollStep::Pending,
        }
    }

    /// One step of a poll. Every poll first sweeps earlier cancellations whose
    /// GPU work has finished since.
    ///
    /// | State       | What a poll does                                        |
    /// |-------------|---------------------------------------------------------|
    /// | `Failed`    | Immediately resolves to the error.                      |
    /// | `Idle`      | Executes the operation, registers callback, -> Pending. |
    /// | `Executing` | Checks callback flag; resolves to the result if done.   |
    /// | `Complete`  | Must not be polled.                                     |
    pub fn poll(&mut self, event: PollEvent<T, S>) -> (step: PollStep<T, DO>)
        requires
            old(self).accepts(event),
        ensures
            old(self).polled(event, *final(self), step),
    {
        match event {
            PollEvent::Start => PollStep::Sweep,
            PollEvent::Swept => {
                if self.state == DeviceFutureState::Failed {
                    self.state = DeviceFutureState::Complete;
                    match self.error.take() {
                        Some(error) => PollStep::Ready(Err(error)),
                        None => PollStep::Pending,
                    }
                } else if self.callback_state.is_none() {
                    PollStep::MakeCallbackState
                } else if self.state == DeviceFutureState::Idle {
                    PollStep::RegisterWaker
                } else {
                    PollStep::ReadCompletion
                }
            },
            PollEvent::CallbackStateMade(made) => {
                self.callback_state = Some(made);
                if self.state == DeviceFutureState::Idle {
                    PollStep::RegisterWaker
                } else {
                    PollStep::ReadCompletion
                }
            },
            PollEvent::WakerRegistered => {
                if self.state == DeviceFutureState::Executing {
                    return PollStep::ReadCompletionAgain;
                }
                match self.take_operation() {
                    Ok(operation) => PollStep::Execute(operation),
                    Err(error) => {
                        self.state = DeviceFutureState::Complete;
                        PollStep::Ready(Err(error))
                    },
                }
            },
            PollEvent::Executed(Err(error)) => {
                self.state = DeviceFutureState::Complete;
                PollStep::Ready(Err(error))
            },
            PollEvent::Executed(Ok(out)) => {
                self.result = Some(out);
                if self.execution_context.is_none() {
                    self.state = DeviceFutureState::Complete;
                    return PollStep::ReclaimThenFail(
                        internal("Cannot execute future without an execution context."),
                    );
                }
                PollStep::RegisterCallback
            },
            PollEvent::CallbackRegistered(Err(error)) => {
                self.state = DeviceFutureState::Complete;
                PollStep::ReclaimThenFail(error)
            },
            PollEvent::CallbackRegistered(Ok(_)) => {
                self.state = DeviceFutureState::Executing;
                PollStep::Pending
            },
            PollEvent::CompletionRead(complete) => {
                if complete {
                    self.deliver()
                } else {
                    PollStep::RegisterWaker
                }
            },
            PollEvent::CompletionReadAgain(complete) => {
                if complete {
                    self.deliver()
                } else {
                    PollStep::Pending
                }
            },
        }
    }

    /// Drops the stored result where the stream is known to be idle, and leaks
    /// it where it is not: dropping resources the device may still use is
    /// worse than leaking.
    fn release(&mut self, synchronized: Result<(), DeviceError>) -> (outcome: Cleanup<T>)
        requires
            old(self).undelivered(),
        ensures
            *final(self) == (DeviceFuture { result: None, ..*old(self) }),
            released(old(self).result->0, synchronized, outcome),
    {
        match (self.result.take(), synchronized) {
            (Some(result), Err(error)) => Cleanup::Leaked(error, ManuallyDrop::new(result)),
            _ => Cleanup::Dropped,
        }
    }

    /// Blocking cleanup fallback: runs `synchronize` and drops the stored
    /// result on success; on failure the result is leaked.
    ///
    /// Does nothing where no submitted result is waiting to be delivered.
    pub fn cleanup_executing_result_with<F: FnOnce() -> Result<(), DeviceError>>(
        &mut self,
        synchronize: F,
    ) -> (outcome: Cleanup<T>)
        requires
            old(self).undelivered() ==> call_requires(synchronize, ()),
        ensures
            !old(self).undelivered() ==> *final(self) == *old(self) && outcome is Nothing,
            old(self).undelivered() ==> {
                &&& *final(self) == (DeviceFuture { result: None, ..*old(self) })
                &&& exists|synchronized: Result<(), DeviceError>|
                    {
                        &&& #[trigger] call_ensures(synchronize, (), synchronized)
                        &&& released(old(self).result->0, synchronized, outcome)
                    }
            },
    {
        if !self.has_undelivered_submission() {
            return Cleanup::Nothing;
        }
        let synchronized = synchronize();
        self.release(synchronized)
    }

    /// Hands a submitted-but-undelivered result to deferred reclamation.
    ///
    /// `record_event` records a completion event on the stream of the context;
    /// the result is parked in `limbo` behind it. Only where the event cannot
    /// be recorded does the cleanup fall back to `synchronize`, which waits for
    /// the stream; if even that fails, the result is leaked. `synchronize` need
    /// not be callable otherwise, so that parking never blocks.
    pub fn reclaim_in_flight_result<
        E,
        R: FnOnce(&C) -> Result<E, DriverError>,
        W: FnOnce(&C) -> Result<(), DriverError>,
    >(&mut self, limbo: &mut Limbo<E, T>, record_event: R, synchronize: W) -> (outcome: Cleanup<T>)
        requires
            old(self).undelivered() && old(self).execution_context is Some ==> call_requires(
                record_event,
                (&old(self).execution_context->0,),
            ),
            forall|error: DriverError|
                old(self).undelivered() && old(self).execution_context is Some
                    && #[trigger] call_ensures(
                    record_event,
                    (&old(self).execution_context->0,),
                    Err(error),
                ) ==> call_requires(synchronize, (&old(self).execution_context->0,)),
        ensures
            !old(self).undelivered() ==> {
                &&& *final(self) == *old(self)
                &&& *final(limbo) == *old(limbo)
                &&& outcome is Nothing
            },
            old(self).undelivered() ==> *final(self) == (DeviceFuture {
                result: None,
                ..*old(self)
            }),
            old(self).undelivered() && old(self).execution_context is None ==> {
                &&& *final(limbo) == *old(limbo)
                &&& outcome matches Cleanup::Leaked(error, kept) && is_internal(
                    error,
                    no_cleanup_context_text(),
                ) && kept@ == old(self).result->0
            },
            old(self).undelivered() && old(self).execution_context is Some ==> exists|
                recorded: Result<E, DriverError>,
            |
                {
                    &&& #[trigger] call_ensures(
                        record_event,
                        (&old(self).execution_context->0,),
                        recorded,
                    )
                    &&& match recorded {
                        Ok(event) => {
                            &&& final(limbo).entries@ == old(limbo).entries@.push(
                                LimboEntry { gate: event, payload: old(self).result->0 },
                            )
                            &&& outcome is Parked
                        },
                        Err(_) => {
                            &&& *final(limbo) == *old(limbo)
                            &&& exists|synchronized: Result<(), DriverError>|
                                {
                                    &&& #[trigger] call_ensures(
                                        synchronize,
                                        (&old(self).execution_context->0,),
                                        synchronized,
                                    )
                                    &&& released(
                                        old(self).result->0,
                                        match synchronized {
                                            Ok(_) => Ok(()),
                                            Err(error) => Err(DeviceError::Driver(error)),
                                        },
                                        outcome,
                                    )
                                }
                        },
                    }
                },
    {
        if !self.has_undelivered_submission() {
            return Cleanup::Nothing;
        }
        let synchronized: Result<(), DeviceError> = match &self.execution_context {
            None => Err(
                internal("Cannot clean up an in-flight future without an execution context."),
            ),
            Some(context) => match record_event(context) {
                Ok(event) => {
                    match self.result.take() {
                        Some(result) => park(limbo, event, result),
                        None => {},
                    }
                    return Cleanup::Parked;
                },
                Err(refused) => {
                    assert(call_ensures(record_event, (context,), Err(refused)));
                    match synchronize(context) {
                        Ok(()) => Ok(()),
                        Err(error) => Err(DeviceError::Driver(error)),
                    }
                },
            },
        };
        self.release(synchronized)
    }
}

/// How far a future has come in its life.
pub open spec fn progress(state: DeviceFutureState) -> int {
    match state {
        DeviceFutureState::Failed => 0,
        DeviceFutureState::Idle => 0,
        DeviceFutureState::Executing => 1,
        DeviceFutureState::Complete => 2,
    }
}

/// A future only moves forward: from idle or failed to executing to complete.
/// What a poll relies on holds after it again.
pub proof fn law_poll_moves_forward<T, DO, C, S>(
    before: DeviceFuture<T, DO, C, S>,
    event: PollEvent<T, S>,
    after: DeviceFuture<T, DO, C, S>,
    step: PollStep<T, DO>,
)
    requires
        before.accepts(event),
        before.polled(event, after, step),
    ensures
        progress(before.state) <= progress(after.state),
        after.state is Failed ==> before.state is Failed,
        after.wf(),
{
}

/// A future resolves once: whoever is told to resolve it leaves it complete,
/// and a complete future accepts no poll.
pub proof fn law_resolves_once<T, DO, C, S>(
    before: DeviceFuture<T, DO, C, S>,
    event: PollEvent<T, S>,
    after: DeviceFuture<T, DO, C, S>,
    step: PollStep<T, DO>,
    later: PollEvent<T, S>,
)
    requires
        before.accepts(event),
        before.polled(event, after, step),
        step is Ready || step is ReclaimThenFail,
    ensures
        after.state is Complete,
        !after.accepts(later),
{
}

/// A result is handed out only once the callback's flag was seen set, it is
/// the one that was stored, and nothing is left of it to be reclaimed.
pub proof fn law_delivery_needs_completion<T, DO, C, S>(
    before: DeviceFuture<T, DO, C, S>,
    event: PollEvent<T, S>,
    after: DeviceFuture<T, DO, C, S>,
    step: PollStep<T, DO>,
)
    requires
        before.accepts(event),
        before.polled(event, after, step),
        step is Ready,
        step->Ready_0 is Ok,
    ensures
        event == PollEvent::<T, S>::CompletionRead(true) || event == PollEvent::<
            T,
            S,
        >::CompletionReadAgain(true),
        before.result == Some(step->Ready_0->Ok_0),
        !after.undelivered(),
{
}

/// Where the callback could not be registered after a successful launch, the
/// result stays with the future as an in-flight one, for reclamation.
pub proof fn law_failed_registration_keeps_result<T, DO, C, S>(
    before: DeviceFuture<T, DO, C, S>,
    error: DeviceError,
    after: DeviceFuture<T, DO, C, S>,
    step: PollStep<T, DO>,
)
    requires
        before.accepts(PollEvent::CallbackRegistered(Err(error))),
        before.polled(PollEvent::CallbackRegistered(Err(error)), after, step),
    ensures
        after.undelivered(),
        after.result == before.result,
        step == PollStep::<T, DO>::ReclaimThenFail(error),
{
}

/// A future that never submitted anything has nothing to reclaim, and neither
/// has one that is constructed as failed.
pub proof fn law_unsubmitted_has_nothing_to_reclaim<T, DO, C, S>(future: DeviceFuture<T, DO, C, S>)
    requires
        future.state is Idle || future.state is Failed,
    ensures
        !future.undelivered(),
{
}

} // verus!
