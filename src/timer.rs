//! High-level binding for the SOLID Timer API
//!
//! A [`Timer`] decides each step of starting and stopping a timer; its owner
//! makes the OS calls in between and reports their statuses back.
//!
//! External code assumption: all timer handlers in the application return
//! with interrupts disabled.
use vstd::prelude::*;

use crate::abi::{SOLID_CORE_MAX, SOLID_ERR_NOTFOUND, SOLID_ERR_OK, SOLID_ERR_PAR, SOLID_TIMER_EACHCPU};
use crate::thread::CpuCx;
use self::sealed::Sealed;

mod sealed;

verus! {

/// A SOLID-OS tick count.
#[derive(Debug, Copy, Clone, PartialEq, Eq, Structural, Hash)]
pub struct TickCount(pub u64);

/// An unsigned 32-bit integer value quantifying a length of time in
/// microseconds.
#[derive(Debug, Copy, Clone, PartialEq, Eq, Structural, Hash)]
pub struct Usecs32(pub u32);

/// An unsigned 32-bit integer value quantifying a length of time in
/// nanoseconds.
#[derive(Debug, Copy, Clone, PartialEq, Eq, Structural, Hash)]
pub struct Nsecs32(pub u32);

/// A timer handler for [`Timer`].
///
/// This trait is sealed; it can not be implemented externally. It is
/// implemented for closures and for `Option`s of handlers.
///
/// The handler is called in an interrupt context with interrupts enabled.
pub trait TimerHandler: Sealed + Sized {
    /// Whether the handler may be called with `cx`.
    spec fn accepts(&self, cx: CpuCx) -> bool;

    /// Whether a call with `cx` took the handler from `self` to `after`.
    spec fn ran(&self, cx: CpuCx, after: Self) -> bool;

    /// Call the timer handler.
    fn call(&mut self, cx: CpuCx)
        requires
            old(self).accepts(cx),
        ensures
            old(self).ran(cx, *final(self)),
    ;
}

impl<F: FnMut(CpuCx) + Send + 'static> Sealed for F {
}

impl<F: FnMut(CpuCx) + Send + 'static> TimerHandler for F {
    open spec fn accepts(&self, cx: CpuCx) -> bool {
        call_requires(*self, (cx,))
    }

    open spec fn ran(&self, cx: CpuCx, after: Self) -> bool {
        call_ensures(*self, (cx,), ())
    }

    fn call(&mut self, cx: CpuCx) {
        (self)(cx)
    }
}

impl<T: TimerHandler> Sealed for Option<T> {
}

impl<T: TimerHandler> TimerHandler for Option<T> {
    open spec fn accepts(&self, cx: CpuCx) -> bool {
        match self {
            Some(inner) => inner.accepts(cx),
            None => true,
        }
    }

    open spec fn ran(&self, cx: CpuCx, after: Self) -> bool {
        match (self, after) {
            (Some(a), Some(b)) => a.ran(cx, b),
            (None, None) => true,
            _ => false,
        }
    }

    fn call(&mut self, cx: CpuCx) {
        match self {
            Some(inner) => inner.call(cx),
            None => {},
        }
    }
}

/// The schedule for [`Timer`].
#[derive(Clone, Copy, PartialEq, Eq, Structural, Debug, Hash)]
pub enum Schedule {
    /// Call the handler once after the specified period of time.
    OneShot(Usecs32),
    /// Call the handler periodically with the specified interval.
    Interval(Usecs32),
    /// Call the handler once when the specified point of time is reached.
    GlobalTick(TickCount),
}

/// The timer types of the OS's timer descriptor.
#[derive(Clone, Copy, PartialEq, Eq, Structural, Debug, Hash)]
pub enum TimerType {
    OneShot,
    Interval,
    GlobalTick,
}

/// The fields of the OS's timer descriptor that describe the schedule.
#[derive(Clone, Copy, PartialEq, Eq, Structural, Debug)]
pub struct TimerDescriptor {
    /// The type of the timer.
    pub ty: TimerType,
    /// The timer period, measured in microseconds.
    pub time: u32,
    /// The absolute expiration time of a [`TimerType::GlobalTick`] timer.
    pub global_tick: u64,
}

/// The descriptor `d` updated for schedule `s`.
pub open spec fn descriptor_for(s: Schedule, d: TimerDescriptor) -> TimerDescriptor {
    match s {
        Schedule::OneShot(Usecs32(x)) => TimerDescriptor { ty: TimerType::OneShot, time: x, ..d },
        Schedule::Interval(Usecs32(x)) => TimerDescriptor { ty: TimerType::Interval, time: x, ..d },
        Schedule::GlobalTick(TickCount(x)) => TimerDescriptor {
            ty: TimerType::GlobalTick,
            global_tick: x,
            ..d
        },
    }
}

impl Schedule {
    /// Update fields of the timer descriptor according to `self`.
    pub fn update_sys(&self, ty: &mut TimerType, time: &mut u32, global_tick: &mut u64)
        ensures
            (TimerDescriptor { ty: *final(ty), time: *final(time), global_tick: *final(global_tick) })
                == descriptor_for(
                *self,
                TimerDescriptor { ty: *old(ty), time: *old(time), global_tick: *old(global_tick) },
            ),
    {
        match self {
            Schedule::OneShot(Usecs32(x)) => {
                *ty = TimerType::OneShot;
                *time = *x;
            },
            Schedule::Interval(Usecs32(x)) => {
                *ty = TimerType::Interval;
                *time = *x;
            },
            Schedule::GlobalTick(TickCount(x)) => {
                *ty = TimerType::GlobalTick;
                *global_tick = *x;
            },
        }
    }
}

/// Whether a timer of this type stops after firing once.
pub fn is_oneshot_ty(timer_ty: TimerType) -> (r: bool)
    ensures
        r == (timer_ty != TimerType::Interval),
{
    match timer_ty {
        TimerType::Interval => false,
        _ => true,
    }
}

/// The error type for [`Timer::start`].
#[derive(Clone, Copy, PartialEq, Eq, Structural, Debug, Hash)]
pub enum TimerStartError {
    /// The current processor may not use the timer API safely: there is a
    /// single timer queue, served by the first processor, and the current
    /// processor is another one.
    BadProcessor,
    /// The parameters of the timer are incorrect. For example, the timer
    /// interval ([`Schedule::Interval`]) is set to zero.
    BadParam,
}

/// The error type for [`Timer::stop`].
#[derive(Clone, Copy, PartialEq, Eq, Structural, Debug, Hash)]
pub enum TimerStopError {
    /// The timer was started by a different processor and is still running.
    BadProcessor,
    /// The method was called from an interrupt context, and the timer is
    /// running.
    ///
    /// A call to the system timer handler might be in progress in this case,
    /// with the descriptor already taken into the handler's local execution
    /// queue, from which it can not be removed. Stopping could then not
    /// guarantee the cessation of handler calls and the return of the
    /// descriptor.
    BadContext,
}

/// An error type indicating a [`Timer`] is still running.
#[derive(Clone, Copy, PartialEq, Eq, Structural, Debug, Hash)]
pub struct RunningError;

/// The owner value of a stopped timer; a running timer's is the owning
/// processor's ID plus one.
pub const STOPPED: usize = 0;

/// An OS call that a [`Timer`] is waiting on.
#[derive(Clone, Copy, PartialEq, Eq, Structural, Debug, Hash)]
pub enum TimerPending {
    /// None.
    Nothing,
    /// Adding the descriptor to the timer queue of this processor.
    Start(usize),
    /// Removing the descriptor from the timer queue.
    Stop,
}

/// The state of a [`Timer`].
#[derive(Clone, Copy, PartialEq, Eq, Structural, Debug)]
pub struct TimerState {
    pub descriptor: TimerDescriptor,
    /// [`STOPPED`] if the timer is stopped, or `processor_id + 1` otherwise.
    pub owner: usize,
    pub pending: TimerPending,
}

/// The first step of [`Timer::start`].
#[derive(Clone, Copy, PartialEq, Eq, Structural, Debug, Hash)]
pub enum StartStep {
    /// The timer is already running; nothing is asked of the OS.
    AlreadyRunning,
    /// With interrupts disabled, hand the descriptor to the OS's timer
    /// registration entry point, then report its status to
    /// [`Timer::complete_start`].
    Submit,
}

/// The first step of [`Timer::stop`].
#[derive(Clone, Copy, PartialEq, Eq, Structural, Debug, Hash)]
pub enum StopStep {
    /// The timer is already stopped; nothing is asked of the OS.
    AlreadyStopped,
    /// With interrupts disabled, hand the descriptor to the OS's timer
    /// unregistration entry point, then report its status to
    /// [`Timer::complete_stop`].
    Submit,
}

/// Whether a timer in state `t` runs.
pub open spec fn running(t: TimerState) -> bool {
    t.owner != STOPPED
}

/// The first step of starting a timer whose owner value is `owner` on
/// processor `p`.
pub open spec fn start_result_for(owner: usize, p: usize) -> Result<StartStep, TimerStartError> {
    if owner != STOPPED {
        Ok(StartStep::AlreadyRunning)
    } else if !SOLID_TIMER_EACHCPU && p != 0 {
        Err(TimerStartError::BadProcessor)
    } else {
        Ok(StartStep::Submit)
    }
}

/// The first step of starting a timer in state `t` on processor `p`.
pub open spec fn start_result(t: TimerState, p: usize) -> Result<StartStep, TimerStartError> {
    start_result_for(t.owner, p)
}

/// Decide the first step of starting a timer from its owner value alone, as
/// read from an atomic copy of it.
pub fn decide_start(owner: usize, processor: usize) -> (r: Result<StartStep, TimerStartError>)
    ensures
        r == start_result_for(owner, processor),
{
    if owner != STOPPED {
        return Ok(StartStep::AlreadyRunning);
    }
    // With a single timer queue, only the first processor may touch it.
    if !SOLID_TIMER_EACHCPU && processor != 0 {
        return Err(TimerStartError::BadProcessor);
    }
    Ok(StartStep::Submit)
}

/// The state after the first step of starting.
pub open spec fn state_after_start(t: TimerState, p: usize) -> TimerState {
    if start_result(t, p) == Ok::<StartStep, TimerStartError>(StartStep::Submit) {
        TimerState { pending: TimerPending::Start(p), ..t }
    } else {
        t
    }
}

/// The statuses that the OS's timer registration entry point can return.
/// Any other status is a broken invariant.
pub open spec fn is_start_status(status: i32) -> bool {
    status == SOLID_ERR_OK || status == SOLID_ERR_PAR
}

/// The outcome of starting, from the OS's status.
pub open spec fn start_outcome(status: i32) -> Result<bool, TimerStartError> {
    if status == SOLID_ERR_OK {
        Ok(true)
    } else {
        Err(TimerStartError::BadParam)
    }
}

/// The state after the OS answered the start of a timer pending on
/// processor `p`: owned by `p` on success.
pub open spec fn state_after_start_status(t: TimerState, p: usize, status: i32) -> TimerState {
    TimerState {
        owner: if status == SOLID_ERR_OK {
            (p + 1) as usize
        } else {
            STOPPED
        },
        pending: TimerPending::Nothing,
        ..t
    }
}

/// The first step of stopping a timer whose owner value is `owner` on
/// processor `p`, in an interrupt context if `in_interrupt`.
pub open spec fn stop_result_for(owner: usize, in_interrupt: bool, p: usize) -> Result<
    StopStep,
    TimerStopError,
> {
    if owner == STOPPED {
        Ok(StopStep::AlreadyStopped)
    } else if in_interrupt {
        Err(TimerStopError::BadContext)
    } else if owner != p + 1 {
        Err(TimerStopError::BadProcessor)
    } else {
        Ok(StopStep::Submit)
    }
}

/// The first step of stopping a timer in state `t` on processor `p`, in an
/// interrupt context if `in_interrupt`.
pub open spec fn stop_result(t: TimerState, in_interrupt: bool, p: usize) -> Result<
    StopStep,
    TimerStopError,
> {
    stop_result_for(t.owner, in_interrupt, p)
}

/// Decide the first step of stopping a timer from its owner value alone, as
/// read from an atomic copy of it.
pub fn decide_stop(owner: usize, in_interrupt: bool, processor: usize) -> (r: Result<
    StopStep,
    TimerStopError,
>)
    requires
        processor < SOLID_CORE_MAX,
    ensures
        r == stop_result_for(owner, in_interrupt, processor),
{
    if owner == STOPPED {
        return Ok(StopStep::AlreadyStopped);
    }
    if in_interrupt {
        return Err(TimerStopError::BadContext);
    }
    if owner != processor + 1 {
        return Err(TimerStopError::BadProcessor);
    }
    Ok(StopStep::Submit)
}

/// The state after the first step of stopping.
pub open spec fn state_after_stop(t: TimerState, in_interrupt: bool, p: usize) -> TimerState {
    if stop_result(t, in_interrupt, p) == Ok::<StopStep, TimerStopError>(StopStep::Submit) {
        TimerState { pending: TimerPending::Stop, ..t }
    } else {
        t
    }
}

/// The statuses that the OS's timer unregistration entry point can return:
/// success, or not found when a one-shot timer fired in the meantime. Any
/// other status is a broken invariant.
pub open spec fn is_stop_status(status: i32) -> bool {
    status == SOLID_ERR_OK || status == SOLID_ERR_NOTFOUND
}

/// The state after the OS took the descriptor back.
pub open spec fn state_after_stop_status(t: TimerState) -> TimerState {
    TimerState { owner: STOPPED, pending: TimerPending::Nothing, ..t }
}

/// The state after a firing: a one-shot timer stops by itself.
pub open spec fn state_after_fire(t: TimerState) -> TimerState {
    if t.descriptor.ty != TimerType::Interval {
        TimerState { owner: STOPPED, ..t }
    } else {
        t
    }
}

/// The safe wrapper for a SOLID-OS timer.
///
/// Its owner keeps it at a fixed address while it runs, since the OS holds a
/// pointer to its descriptor.
pub struct Timer<T> {
    state: TimerState,
    handler: T,
}

impl<T> View for Timer<T> {
    type V = TimerState;

    closed spec fn view(&self) -> TimerState {
        self.state
    }
}

impl<T: TimerHandler> Timer<T> {
    /// The user callback.
    pub closed spec fn callback(&self) -> T {
        self.handler
    }

    /// Construct a stopped `Timer`.
    pub fn new(schedule: Schedule, handler: T) -> (r: Self)
        ensures
            r@ == (TimerState {
                descriptor: descriptor_for(
                    schedule,
                    TimerDescriptor { ty: TimerType::OneShot, time: 0, global_tick: 0 },
                ),
                owner: STOPPED,
                pending: TimerPending::Nothing,
            }),
            r.callback() == handler,
    {
        let mut ty = TimerType::OneShot;
        let mut time: u32 = 0;
        let mut global_tick: u64 = 0;
        schedule.update_sys(&mut ty, &mut time, &mut global_tick);
        Timer {
            state: TimerState {
                descriptor: TimerDescriptor { ty, time, global_tick },
                owner: STOPPED,
                pending: TimerPending::Nothing,
            },
            handler,
        }
    }

    /// Check if the timer is currently running.
    pub fn is_running(&self) -> (r: bool)
        ensures
            r == running(self@),
    {
        self.state.owner != STOPPED
    }

    /// The descriptor's schedule fields.
    pub fn descriptor(&self) -> (r: TimerDescriptor)
        ensures
            r == self@.descriptor,
    {
        self.state.descriptor
    }

    /// Start the timer on processor `processor` (the current one).
    pub fn start(&mut self, processor: usize) -> (r: Result<StartStep, TimerStartError>)
        requires
            old(self)@.pending == TimerPending::Nothing,
            processor < SOLID_CORE_MAX,
        ensures
            r == start_result(old(self)@, processor),
            final(self)@ == state_after_start(old(self)@, processor),
            final(self).callback() == old(self).callback(),
    {
        let r = decide_start(self.state.owner, processor);
        if let Ok(StartStep::Submit) = r {
            self.state.pending = TimerPending::Start(processor);
        }
        r
    }

    /// Finish starting with the status returned by the OS. On success the
    /// timer belongs to the processor that started it.
    pub fn complete_start(&mut self, status: i32) -> (r: Result<bool, TimerStartError>)
        requires
            old(self)@.pending is Start,
            old(self)@.pending->Start_0 < SOLID_CORE_MAX,
            is_start_status(status),
        ensures
            r == start_outcome(status),
            final(self)@ == state_after_start_status(
                old(self)@,
                old(self)@.pending->Start_0,
                status,
            ),
            final(self).callback() == old(self).callback(),
    {
        let processor = match self.state.pending {
            TimerPending::Start(p) => p,
            _ => 0,
        };
        self.state.pending = TimerPending::Nothing;
        if status == SOLID_ERR_OK {
            self.state.owner = processor + 1;
            Ok(true)
        } else {
            self.state.owner = STOPPED;
            Err(TimerStartError::BadParam)
        }
    }

    /// Stop the timer on processor `processor` (the current one);
    /// `in_interrupt` tells whether it runs in an interrupt context.
    pub fn stop(&mut self, in_interrupt: bool, processor: usize) -> (r: Result<
        StopStep,
        TimerStopError,
    >)
        requires
            old(self)@.pending == TimerPending::Nothing,
            processor < SOLID_CORE_MAX,
        ensures
            r == stop_result(old(self)@, in_interrupt, processor),
            final(self)@ == state_after_stop(old(self)@, in_interrupt, processor),
            final(self).callback() == old(self).callback(),
    {
        let r = decide_stop(self.state.owner, in_interrupt, processor);
        if let Ok(StopStep::Submit) = r {
            self.state.pending = TimerPending::Stop;
        }
        r
    }

    /// Finish stopping with the status returned by the OS. Returns `true` if
    /// the timer was still queued, `false` if a one-shot timer fired just
    /// before.
    pub fn complete_stop(&mut self, status: i32) -> (r: Result<bool, TimerStopError>)
        requires
            old(self)@.pending == TimerPending::Stop,
            is_stop_status(status),
        ensures
            r == Ok::<bool, TimerStopError>(status == SOLID_ERR_OK),
            final(self)@ == state_after_stop_status(old(self)@),
            final(self).callback() == old(self).callback(),
    {
        self.state.owner = STOPPED;
        self.state.pending = TimerPending::Nothing;
        Ok(status == SOLID_ERR_OK)
    }

    /// Whether the callback may be called with `cx`.
    pub closed spec fn accepts(&self, cx: CpuCx) -> bool {
        self.handler.accepts(cx)
    }

    /// Run the callback once with `cx` for a firing of the running timer:
    /// the body of the function that the OS calls. A one-shot timer is stopped afterwards,
    /// which hands the timer back to its owner.
    pub fn dispatch(&mut self, cx: CpuCx)
        requires
            running(old(self)@),
            old(self).accepts(cx),
        ensures
            final(self)@ == state_after_fire(old(self)@),
            old(self).callback().ran(cx, final(self).callback()),
    {
        self.handler.call(cx);
        if is_oneshot_ty(self.state.descriptor.ty) {
            self.state.owner = STOPPED;
        }
    }

    /// Set a new schedule for a stopped timer.
    pub fn reschedule(&mut self, schedule: Schedule) -> (r: Result<(), RunningError>)
        ensures
            running(old(self)@) ==> r is Err && final(self)@ == old(self)@,
            !running(old(self)@) ==> r is Ok && final(self)@ == (TimerState {
                descriptor: descriptor_for(schedule, old(self)@.descriptor),
                ..old(self)@
            }),
            final(self).callback() == old(self).callback(),
    {
        if self.is_running() {
            Err(RunningError)
        } else {
            schedule.update_sys(
                &mut self.state.descriptor.ty,
                &mut self.state.descriptor.time,
                &mut self.state.descriptor.global_tick,
            );
            Ok(())
        }
    }

    /// Borrow the timer handler of a stopped timer.
    pub fn handler_pin(&self) -> (r: Result<&T, RunningError>)
        ensures
            running(self@) <==> r is Err,
            r matches Ok(h) ==> *h == self.callback(),
    {
        if self.is_running() {
            Err(RunningError)
        } else {
            Ok(&self.handler)
        }
    }

    /// Mutably borrow the timer handler of a stopped timer.
    pub fn handler_pin_mut(&mut self) -> (r: Result<&mut T, RunningError>)
        ensures
            running(old(self)@) <==> r is Err,
            final(self)@ == old(self)@,
    {
        if self.is_running() {
            Err(RunningError)
        } else {
            Ok(&mut self.handler)
        }
    }
}

/// Starting a running timer asks nothing of the OS and changes nothing; a
/// timer whose start succeeded runs, and starting it again reports
/// `AlreadyRunning`.
pub proof fn lemma_start_running_timer_is_noop(t: TimerState, p: usize, q: usize)
    requires
        t.pending == TimerPending::Nothing,
        p < SOLID_CORE_MAX,
        q < SOLID_CORE_MAX,
    ensures
        running(t) ==> start_result(t, q) == Ok::<StartStep, TimerStartError>(
            StartStep::AlreadyRunning,
        ) && state_after_start(t, q) == t,
        start_result(t, p) == Ok::<StartStep, TimerStartError>(StartStep::Submit) ==> {
            let started = state_after_start_status(state_after_start(t, p), p, SOLID_ERR_OK);
            &&& start_outcome(SOLID_ERR_OK) == Ok::<bool, TimerStartError>(true)
            &&& running(started)
            &&& started.descriptor == t.descriptor
            &&& start_result(started, q) == Ok::<StartStep, TimerStartError>(
                StartStep::AlreadyRunning,
            )
            &&& state_after_start(started, q) == started
        },
{
}

/// Stopping a stopped timer reports `AlreadyStopped`, asks nothing of the
/// OS and changes nothing, in any context and on any processor.
pub proof fn lemma_stop_stopped_timer_is_noop(t: TimerState, in_interrupt: bool, p: usize)
    requires
        !running(t),
    ensures
        stop_result(t, in_interrupt, p) == Ok::<StopStep, TimerStopError>(StopStep::AlreadyStopped),
        state_after_stop(t, in_interrupt, p) == t,
{
}

/// Stopping a running timer from an interrupt context fails with
/// `BadContext` and leaves it running, unchanged.
pub proof fn lemma_stop_in_interrupt_context(t: TimerState, p: usize)
    requires
        running(t),
    ensures
        stop_result(t, true, p) == Err::<StopStep, TimerStopError>(TimerStopError::BadContext),
        state_after_stop(t, true, p) == t,
        running(state_after_stop(t, true, p)),
{
}

} // verus!
