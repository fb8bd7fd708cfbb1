//! Streams: ordering device work, forking and joining.
//!
//! Operations enqueued on one stream execute in order; operations on
//! different streams may overlap. Fork and join, or events, order them.

use std::sync::Arc;

use vstd::prelude::*;

use crate::driver::context::{
    after_bind, bind_tried, drop_refused, recorded_on, with_error, ContextState, DriverContext,
};
use crate::driver::error::{status_result, DriverError, IntoResult};

verus! {

/// A new stream does not synchronize with the default stream.
pub const CU_STREAM_NON_BLOCKING: u32 = 1;

/// A wait without special behaviour.
pub const CU_EVENT_WAIT_DEFAULT: u32 = 0;

/// A stream of a context. The null handle is the default stream.
pub struct CudaStream<D> {
    /// Raw stream handle. Null for the default stream.
    pub cu_stream: u64,
    /// Owning context. Kept alive for the lifetime of this stream.
    pub ctx: Arc<D>,
}

/// Whether `r` is what waiting for all work on the stream can return.
pub open spec fn synchronized<D: DriverContext>(
    ctx: &D,
    stream: u64,
    r: Result<(), DriverError>,
) -> bool {
    after_bind(
        ctx,
        r,
        |r: Result<(), DriverError>|
            exists|code: u32|
                #[trigger] call_ensures(D::stream_synchronize, (ctx, stream), code) && r
                    == status_result(code, ()),
    )
}

/// Whether `r` is what enqueuing a wait for the event can return.
pub open spec fn waits<D: DriverContext>(
    ctx: &D,
    stream: u64,
    event: u64,
    r: Result<(), DriverError>,
) -> bool {
    after_bind(
        ctx,
        r,
        |r: Result<(), DriverError>|
            exists|code: u32|
                #[trigger] call_ensures(
                    D::stream_wait_event,
                    (ctx, stream, event, CU_EVENT_WAIT_DEFAULT),
                    code,
                ) && r == status_result(code, ()),
    )
}

/// Whether `r` is what enqueuing a wait for an event that was recorded on the
/// stream `other` can return.
pub open spec fn waits_for<D: DriverContext>(
    ctx: &D,
    stream: u64,
    event: u64,
    other: &CudaStream<D>,
    r: Result<(), DriverError>,
) -> bool {
    after_bind(
        ctx,
        r,
        |r: Result<(), DriverError>|
            exists|code: u32|
                #[trigger] call_ensures(
                    D::wait_for_recorded,
                    (
                        ctx,
                        stream,
                        event,
                        CU_EVENT_WAIT_DEFAULT,
                        &*other.ctx,
                        other.cu_stream,
                    ),
                    code,
                ) && r == status_result(code, ()),
    )
}

/// Whether `r` is what waiting for all work on the stream, behind a copy whose
/// source bytes are held, can return.
pub open spec fn synchronized_behind<D: DriverContext>(
    ctx: &D,
    stream: u64,
    held: &D::InFlight,
    r: Result<(), DriverError>,
) -> bool {
    after_bind(
        ctx,
        r,
        |r: Result<(), DriverError>|
            exists|code: u32|
                #[trigger] call_ensures(D::synchronize_behind_copy, (ctx, stream, held), code) && r
                    == status_result(code, ()),
    )
}

/// Whether `r` is what recording a new event on the stream can return.
pub open spec fn records<D: DriverContext>(
    ctx: &D,
    stream: u64,
    flags: Option<u32>,
    r: Result<u64, DriverError>,
) -> bool {
    exists|made: Result<u64, DriverError>|
        #[trigger] call_ensures(D::new_event, (ctx, flags), made) && match made {
            Err(error) => r == Err::<u64, DriverError>(error),
            Ok(event) => exists|recorded: Result<(), DriverError>|
                #[trigger] call_ensures(D::record, (ctx, event, stream), recorded) && r == (
                match recorded {
                    Ok(_) => Ok::<u64, DriverError>(event),
                    Err(error) => Err(error),
                }),
        }
}

/// Whether `r` is what making one stream wait on the work of another can
/// return. The wait is enqueued behind the recording: it is for the event as it
/// was recorded on the other stream.
pub open spec fn joins<D: DriverContext>(
    ctx: &D,
    stream: u64,
    other: &CudaStream<D>,
    r: Result<(), DriverError>,
) -> bool {
    exists|recorded: Result<u64, DriverError>|
        #[trigger] records(&*other.ctx, other.cu_stream, None, recorded) && match recorded {
            Err(error) => r == Err::<(), DriverError>(error),
            Ok(event) => waits_for(ctx, stream, event, other, r),
        }
}

/// Whether dropping a stream can take the context's state from `before` to
/// `after`: the default stream is never destroyed, any other is, and is no
/// longer counted. Errors are noted.
pub open spec fn torn_down<D: DriverContext>(
    ctx: &D,
    stream: u64,
    before: ContextState,
    after: ContextState,
) -> bool {
    exists|bound: Result<(), DriverError>|
        #[trigger] call_ensures(D::bind_to_thread, (ctx,), bound) && if stream == 0 {
            &&& after.num_streams == before.num_streams
            &&& after.errors@ == with_error(before.errors@, bound)
        } else {
            &&& after.num_streams == before.num_streams.wrapping_sub(1)
            &&& exists|code: u32|
                #[trigger] call_ensures(D::stream_destroy, (ctx, stream), code) && after.errors@
                    == with_error(with_error(before.errors@, bound), status_result(code, ()))
        }
}

/// Whether forking the stream can take the context's state from `before` to
/// `after` and return `r`.
///
/// The new stream is counted before it is made, also where making it fails. A
/// new stream that cannot be joined is torn down again.
pub open spec fn forks<D: DriverContext>(
    stream: &CudaStream<D>,
    before: ContextState,
    after: ContextState,
    r: Result<CudaStream<D>, DriverError>,
) -> bool {
    let ctx = &*stream.ctx;
    exists|bound: Result<(), DriverError>|
        #[trigger] call_ensures(D::bind_to_thread, (ctx,), bound) && match bound {
            Err(error) => after == before && r == Err::<CudaStream<D>, DriverError>(error),
            Ok(_) => exists|made: (u32, u64)|
                #[trigger] call_ensures(D::stream_create, (ctx, CU_STREAM_NON_BLOCKING), made)
                    && match status_result(made.0, made.1) {
                    Err(error) => {
                        &&& after.num_streams == before.num_streams.wrapping_add(1)
                        &&& after.errors == before.errors
                        &&& r == Err::<CudaStream<D>, DriverError>(error)
                    },
                    Ok(cu_stream) => exists|joined: Result<(), DriverError>|
                        #[trigger] joins(ctx, cu_stream, stream, joined) && match joined {
                            Ok(_) => {
                                &&& after.num_streams == before.num_streams.wrapping_add(1)
                                &&& after.errors == before.errors
                                &&& r == Ok::<CudaStream<D>, DriverError>(
                                    CudaStream { cu_stream, ctx: stream.ctx },
                                )
                            },
                            Err(error) => {
                                &&& torn_down(
                                    ctx,
                                    cu_stream,
                                    ContextState {
                                        num_streams: before.num_streams.wrapping_add(1),
                                        ..before
                                    },
                                    after,
                                )
                                &&& r == Err::<CudaStream<D>, DriverError>(error)
                            },
                        },
                },
        }
}

impl<D: DriverContext> CudaStream<D> {
    /// The raw stream handle (null for the default stream).
    pub fn cu_stream(&self) -> (handle: u64)
        ensures
            handle == self.cu_stream,
    {
        self.cu_stream
    }

    /// The parent context.
    pub fn context(&self) -> (ctx: &Arc<D>)
        ensures
            *ctx == self.ctx,
    {
        &self.ctx
    }

    /// Blocks the calling thread until all work enqueued on this stream
    /// completes.
    pub fn synchronize(&self) -> (r: Result<(), DriverError>)
        ensures
            synchronized(&*self.ctx, self.cu_stream, r),
    {
        match self.ctx.bind_to_thread() {
            Ok(()) => {},
            Err(error) => return Err(error),
        }
        self.ctx.stream_synchronize(self.cu_stream).result()
    }

    /// Creates a new non-blocking stream that waits on all prior work in
    /// `self` before executing its own.
    pub fn fork(&self, state: &mut ContextState) -> (r: Result<CudaStream<D>, DriverError>)
        ensures
            forks(self, *old(state), *final(state), r),
    {
        match self.ctx.bind_to_thread() {
            Ok(()) => {},
            Err(error) => return Err(error),
        }
        state.num_streams = state.num_streams.wrapping_add(1);
        let made = self.ctx.stream_create(CU_STREAM_NON_BLOCKING);
        match made.result() {
            Err(error) => Err(error),
            Ok(cu_stream) => {
                let stream = CudaStream { cu_stream, ctx: self.ctx.clone() };
                let joined = stream.join(self);
                assert(joins(&*self.ctx, cu_stream, self, joined));
                match joined {
                    Ok(()) => Ok(stream),
                    Err(error) => {
                        stream.tear_down(state);
                        Err(error)
                    },
                }
            },
        }
    }

    /// Makes `self` wait on all prior work in `other`: records an event on
    /// `other` and enqueues a wait for it on `self`.
    pub fn join(&self, other: &CudaStream<D>) -> (r: Result<(), DriverError>)
        ensures
            joins(&*self.ctx, self.cu_stream, other, r),
    {
        let recorded = other.record_event(None);
        assert(records(&*other.ctx, other.cu_stream, None, recorded));
        match recorded {
            Ok(event) => {
                assert(recorded_on(&*other.ctx, event, other.cu_stream));
                self.wait_for(event, other)
            },
            Err(error) => Err(error),
        }
    }

    /// Records a new event on this stream and returns it. Without flags, the
    /// event keeps no time.
    pub fn record_event(&self, flags: Option<u32>) -> (r: Result<u64, DriverError>)
        ensures
            records(&*self.ctx, self.cu_stream, flags, r),
    {
        match self.ctx.new_event(flags) {
            Err(error) => Err(error),
            Ok(event) => match self.ctx.record(event, self.cu_stream) {
                Ok(()) => Ok(event),
                Err(error) => Err(error),
            },
        }
    }

    /// Enqueues a wait for `event` into this stream: work enqueued after it
    /// does not begin until the event has been reached.
    pub fn wait(&self, event: u64) -> (r: Result<(), DriverError>)
        ensures
            waits(&*self.ctx, self.cu_stream, event, r),
    {
        match self.ctx.bind_to_thread() {
            Ok(()) => {},
            Err(error) => return Err(error),
        }
        self.ctx.stream_wait_event(self.cu_stream, event, CU_EVENT_WAIT_DEFAULT).result()
    }

    /// Enqueues a wait for an event that was recorded on `other`.
    fn wait_for(&self, event: u64, other: &CudaStream<D>) -> (r: Result<(), DriverError>)
        requires
            recorded_on(&*other.ctx, event, other.cu_stream),
        ensures
            waits_for(&*self.ctx, self.cu_stream, event, other, r),
    {
        match self.ctx.bind_to_thread() {
            Ok(()) => {},
            Err(error) => return Err(error),
        }
        self.ctx.wait_for_recorded(
            self.cu_stream,
            event,
            CU_EVENT_WAIT_DEFAULT,
            &*other.ctx,
            other.cu_stream,
        ).result()
    }

    /// Blocks the calling thread until all work enqueued on this stream
    /// completes, while the source bytes of a copy on it are held.
    pub(crate) fn synchronize_behind(&self, held: &D::InFlight) -> (r: Result<(), DriverError>)
        requires
            drop_refused(&*self.ctx, self.cu_stream, held),
        ensures
            synchronized_behind(&*self.ctx, self.cu_stream, held, r),
    {
        match self.ctx.bind_to_thread() {
            Ok(()) => {},
            Err(error) => return Err(error),
        }
        self.ctx.synchronize_behind_copy(self.cu_stream, held).result()
    }

    /// What dropping the stream does.
    pub fn tear_down(self, state: &mut ContextState)
        ensures
            torn_down(&*self.ctx, self.cu_stream, *old(state), *final(state)),
    {
        let bound = self.ctx.bind_to_thread();
        assert(bind_tried(&*self.ctx));
        state.record_err(bound);
        if self.cu_stream != 0 {
            state.num_streams = state.num_streams.wrapping_sub(1);
            let destroyed = self.ctx.stream_destroy(self.cu_stream).result();
            state.record_err(destroyed);
        }
    }
}

/// A stream that is torn down because it could not be joined leaves the count
/// of streams as it was before the fork.
pub proof fn law_unjoined_fork_is_not_counted<D: DriverContext>(
    ctx: &D,
    cu_stream: u64,
    before: ContextState,
    after: ContextState,
)
    requires
        cu_stream != 0,
        torn_down(
            ctx,
            cu_stream,
            ContextState { num_streams: before.num_streams.wrapping_add(1), ..before },
            after,
        ),
    ensures
        after.num_streams == before.num_streams,
{
}

/// Whether work enqueued on the stream from now on sees all prior work of
/// `other`: an event was recorded on `other`, and the stream waits for it.
pub open spec fn ordered_behind<D: DriverContext>(
    ctx: &D,
    stream: u64,
    other: &CudaStream<D>,
) -> bool {
    exists|event: u64, done: Result<(), DriverError>|
        #![trigger waits_for(ctx, stream, event, other, done)]
        recorded_on(&*other.ctx, event, other.cu_stream) && waits_for(
            ctx,
            stream,
            event,
            other,
            done,
        ) && done is Ok
}

/// Where a join succeeds, the stream is ordered behind the other one.
pub proof fn law_join_orders_streams<D: DriverContext>(
    ctx: &D,
    stream: u64,
    other: &CudaStream<D>,
    r: Result<(), DriverError>,
)
    requires
        joins(ctx, stream, other, r),
        r is Ok,
    ensures
        ordered_behind(ctx, stream, other),
{
}

/// Where a fork succeeds, the new stream is of the same context and ordered
/// behind the one it was forked from.
pub proof fn law_fork_orders_streams<D: DriverContext>(
    stream: &CudaStream<D>,
    before: ContextState,
    after: ContextState,
    r: Result<CudaStream<D>, DriverError>,
)
    requires
        forks(stream, before, after, r),
        r is Ok,
    ensures
        r->Ok_0.ctx == stream.ctx,
        ordered_behind(&*stream.ctx, r->Ok_0.cu_stream, stream),
{
    let joined = choose|joined: Result<(), DriverError>|
        #[trigger] joins(&*stream.ctx, r->Ok_0.cu_stream, stream, joined) && joined is Ok;
    law_join_orders_streams(&*stream.ctx, r->Ok_0.cu_stream, stream, joined);
}

/// The default stream is never destroyed: dropping it changes no count, and
/// notes at most the error of binding the context.
pub proof fn law_default_stream_survives<D: DriverContext>(
    ctx: &D,
    before: ContextState,
    after: ContextState,
)
    requires
        torn_down(ctx, 0, before, after),
    ensures
        after.num_streams == before.num_streams,
        after.errors@.len() <= before.errors@.len() + 1,
{
}

} // verus!
