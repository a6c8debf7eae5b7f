//! Interrupt control
//!
//! The OS keeps a raw pointer to a registered handler's descriptor, and its
//! entry points are called by the code that owns the pinned handler. This
//! module decides every step: what to ask of the OS, and what the OS's answer
//! means for the handler's state.
use vstd::prelude::*;

use crate::abi::{
    FIRST_SHARED_INTNO, GIC_MAXINTNO, SOLID_CORE_MAX, SOLID_ERR_ALREADYUSED, SOLID_ERR_NOTFOUND,
    SOLID_ERR_NOTUSED, SOLID_ERR_OK, SOLID_ERR_PAR,
};
use crate::smp::ProcessorSet;
use crate::thread::CpuCx;

pub use self::EnableError as DisableError;
use self::sealed::Sealed;

mod sealed;



verus! {

// ---------------------------------------------------------------------------
// Critical sections

/// The DAIF bits that mask IRQs and FIQs.
pub const DAIF_IRQ_FIQ: u64 = 0xc0;

/// The mask register after entering a critical section from `daif`.
pub open spec fn masked(daif: u64) -> u64 {
    daif | 0xc0
}

/// The mask register after leaving a critical section that was entered when
/// the register held `saved`: the IRQ and FIQ bits that were clear then are
/// cleared again; nothing else changes.
pub open spec fn restored(current: u64, saved: u64) -> u64 {
    current & !(!saved & 0xc0)
}

/// The immediate of the `msr DAIFclr, #imm` that ends a critical section
/// entered when the mask register held `saved`: bit 1 clears IRQ, bit 0 FIQ.
pub fn daif_clear_immediate(saved: u64) -> (imm: u32)
    ensures
        imm < 4,
        (imm as u64) << 6u64 == !saved & 0xc0,
{
    let bits = saved & DAIF_IRQ_FIQ;
    if bits == 0 {
        assert((!saved & 0xc0) == 0xc0) by (bit_vector)
            requires
                saved & 0xc0 == 0,
        ;
        assert((3u64 << 6u64) == 0xc0) by (bit_vector);
        3
    } else if bits == 0x40 {
        assert((!saved & 0xc0) == 0x80) by (bit_vector)
            requires
                saved & 0xc0 == 0x40,
        ;
        assert((2u64 << 6u64) == 0x80) by (bit_vector);
        2
    } else if bits == 0x80 {
        assert((!saved & 0xc0) == 0x40) by (bit_vector)
            requires
                saved & 0xc0 == 0x80,
        ;
        assert((1u64 << 6u64) == 0x40) by (bit_vector);
        1
    } else {
        assert((!saved & 0xc0) == 0) by (bit_vector)
            requires
                saved & 0xc0 != 0,
                saved & 0xc0 != 0x40,
                saved & 0xc0 != 0x80,
        ;
        assert((0u64 << 6u64) == 0) by (bit_vector);
        0
    }
}

/// A token proving that the current processor runs with interrupts masked.
/// It holds the mask register's value from before, which leaving the critical
/// section restores.
pub struct CriticalSection {
    saved: u64,
}

impl View for CriticalSection {
    type V = u64;

    closed spec fn view(&self) -> u64 {
        self.saved
    }
}

/// The interrupt mask register (DAIF) of the current processor.
pub struct InterruptMask {
    daif: u64,
}

impl View for InterruptMask {
    type V = u64;

    closed spec fn view(&self) -> u64 {
        self.daif
    }
}

impl InterruptMask {
    /// Take the register's value.
    pub fn new(daif: u64) -> (r: Self)
        ensures
            r@ == daif,
    {
        InterruptMask { daif }
    }

    /// The register's value.
    pub fn bits(&self) -> (r: u64)
        ensures
            r == self@,
    {
        self.daif
    }

    /// Save the register in a token and mask IRQs and FIQs.
    pub fn enter(&mut self) -> (cs: CriticalSection)
        ensures
            cs@ == old(self)@,
            final(self)@ == masked(old(self)@),
    {
        let cs = CriticalSection { saved: self.daif };
        self.daif = self.daif | DAIF_IRQ_FIQ;
        cs
    }

    /// Leave the critical section `cs`, restoring the IRQ and FIQ bits it
    /// saved.
    pub fn exit(&mut self, cs: CriticalSection)
        ensures
            final(self)@ == restored(old(self)@, cs@),
    {
        let imm = daif_clear_immediate(cs.saved);
        self.daif = self.daif & !((imm as u64) << 6u64);
    }
}

/// Leaving a critical section restores the mask register to what it held on
/// entry, and two nested critical sections left in reverse order end in the
/// state they started from.
pub proof fn lemma_critical_sections_nest(daif: u64)
    ensures
        restored(masked(daif), daif) == daif,
        restored(restored(masked(masked(daif)), masked(daif)), daif) == daif,
{
    assert((daif | 0xc0) & !(!daif & 0xc0) == daif) by (bit_vector);
    assert(((daif | 0xc0) | 0xc0) & !(!(daif | 0xc0) & 0xc0) == daif | 0xc0) by (bit_vector);
}

// ---------------------------------------------------------------------------
// Interrupt numbers and lines

/// An interrupt number.
///
/// Note that, for processor-private interrupts (`< 32`), a `Number`
/// corresponds to different interrupt lines depending on the current
/// processor.
#[derive(Clone, Copy, PartialEq, Eq, Structural, Hash, Debug)]
pub struct Number(pub i32);

/// The number of interrupt lines. Each shared interrupt counts as one, and
/// each processor-private interrupt counts one per processor.
pub const NUM_LINES: usize = GIC_MAXINTNO + 1 + (SOLID_CORE_MAX - 1) * 32;

/// The number of words of the table of line locks, one bit per line.
pub const LINE_TABLE_LEN: usize = (NUM_LINES + usize::BITS as usize - 1) / usize::BITS as usize;

/// An interrupt line ID.
///
/// Interrupt line IDs identify the slots filled by the OS's registration
/// entry point. For processor-private interrupts there is a set for each
/// processor, which is why the current processor is taken into account.
#[derive(Clone, Copy, Debug, PartialEq, Eq, Structural)]
pub struct Line(pub usize);

/// The processor slot of interrupt number `intno` seen from `processor`:
/// the processor itself for a private interrupt, the last one for a shared
/// interrupt.
pub open spec fn line_slot(intno: i32, processor: usize) -> int {
    if intno < FIRST_SHARED_INTNO {
        processor as int
    } else {
        SOLID_CORE_MAX - 1
    }
}

/// The line of interrupt number `intno` seen from `processor`, if it is a
/// valid one.
pub open spec fn line_of(intno: i32, processor: usize) -> Option<Line> {
    let id = intno + 32 * line_slot(intno, processor);
    if 0 <= intno && id < NUM_LINES {
        Some(Line(id as usize))
    } else {
        None
    }
}

/// Line derivation depends on the interrupt number and the processor alone.
/// A shared interrupt has the same line on every processor. A private
/// interrupt's lines on two processors lie 32 times the processors'
/// distance apart, and its line on a processor is that processor's offset
/// from the base number.
pub proof fn lemma_line_derivation(intno: i32, p: usize, q: usize)
    requires
        0 <= intno <= GIC_MAXINTNO,
        p < SOLID_CORE_MAX,
        q < SOLID_CORE_MAX,
    ensures
        line_of(intno, p) is Some,
        intno >= FIRST_SHARED_INTNO ==> line_of(intno, p) == line_of(intno, q),
        intno < FIRST_SHARED_INTNO ==> line_of(intno, p).unwrap().0 == intno + 32 * p,
        intno < FIRST_SHARED_INTNO ==> line_of(intno, p).unwrap().0 - line_of(
            intno,
            q,
        ).unwrap().0 == 32 * (p - q),
        intno < FIRST_SHARED_INTNO && p != q ==> line_of(intno, p) != line_of(intno, q),
{
}

impl Line {
    /// Get the interrupt line ID for the specified interrupt number seen from
    /// the processor `processor` (the current one).
    pub fn from_intno_for_current_processor(number: Number, processor: usize) -> (r: Option<
        Self,
    >)
        ensures
            r == line_of(number.0, processor),
    {
        let intno = number.0;
        if intno < 0 {
            return None;
        }
        let slot: usize = if intno < FIRST_SHARED_INTNO {
            processor
        } else {
            SOLID_CORE_MAX - 1
        };
        if slot >= NUM_LINES {
            return None;
        }
        let id: usize = intno as usize + slot * 32;
        if id < NUM_LINES {
            Some(Line(id))
        } else {
            None
        }
    }

    /// The word of the lock table that holds this line's lock bit, and the
    /// bit.
    pub fn index_mask(self) -> (r: (usize, usize))
        ensures
            r.0 == self.0 / (usize::BITS as usize),
            r.1 == 1usize << (self.0 % (usize::BITS as usize)),
            self.0 < NUM_LINES ==> r.0 < LINE_TABLE_LEN,
    {
        let bits: usize = usize::BITS as usize;
        proof {
            if bits == 32 {
                assert(self.0 < NUM_LINES ==> self.0 / 32 < (NUM_LINES + 31) / 32);
            } else {
                assert(bits == 64);
                assert(self.0 < NUM_LINES ==> self.0 / 64 < (NUM_LINES + 63) / 64);
            }
        }
        let index = self.0 / bits;
        let shift: usize = self.0 % bits;
        (index, 1usize << shift)
    }
}

// ---------------------------------------------------------------------------
// Handlers

/// A handler function for [`Handler`].
///
/// This trait is sealed; it can not be implemented externally. It is
/// implemented for closures and for `Option`s of handlers.
///
/// The handler is called in an interrupt context with interrupts enabled.
pub trait HandlerFn: Sealed + Sized {
    /// Whether the handler may be called with `cx`.
    spec fn accepts(&self, cx: CpuCx) -> bool;

    /// Whether a call with `cx` took the handler from `self` to `after`.
    spec fn ran(&self, cx: CpuCx, after: Self) -> bool;

    /// Call the interrupt handler.
    fn call(&mut self, cx: CpuCx)
        requires
            old(self).accepts(cx),
        ensures
            old(self).ran(cx, *final(self)),
    ;
}

impl<F: FnMut(CpuCx) + Send + 'static> Sealed for F {
}

impl<F: FnMut(CpuCx) + Send + 'static> HandlerFn for F {
    open spec fn accepts(&self, cx: CpuCx) -> bool {
        call_requires(*self, (cx,))
    }

    open spec fn ran(&self, cx: CpuCx, after: Self) -> bool {
        call_ensures(*self, (cx,), ())
    }

    fn call(&mut self, cx: CpuCx) {
        (self)(cx)
    }
}

impl<T: HandlerFn> Sealed for Option<T> {
}

impl<T: HandlerFn> HandlerFn for Option<T> {
    open spec fn accepts(&self, cx: CpuCx) -> bool {
        match self {
            Some(inner) => inner.accepts(cx),
            None => true,
        }
    }

    open spec fn ran(&self, cx: CpuCx, after: Self) -> bool {
        match (self, after) {
            (Some(a), Some(b)) => a.ran(cx, b),
            (None, None) => true,
            _ => false,
        }
    }

    fn call(&mut self, cx: CpuCx) {
        match self {
            Some(inner) => inner.call(cx),
            None => {},
        }
    }
}

/// The trigger configuration that leaves the line as the OS configured it.
pub const CONFIG_UNCHANGED: i32 = -1;

/// The trigger configuration of an edge-triggered line.
pub const CONFIG_EDGE_TRIGGERED: i32 = 0b10;

/// The trigger configuration of a level-sensitive line.
pub const CONFIG_LEVEL_SENSITIVE: i32 = 0b00;

/// Options for [`Handler::register`].
#[derive(Clone, Copy, Debug)]
pub struct HandlerOptions {
    intno: Number,
    priority: i32,
    config: i32,
    processor_set: ProcessorSet,
}

impl HandlerOptions {
    /// The interrupt number.
    pub closed spec fn spec_number(&self) -> i32 {
        self.intno.0
    }

    /// The priority.
    pub closed spec fn spec_priority(&self) -> i32 {
        self.priority
    }

    /// The trigger configuration.
    pub closed spec fn spec_config(&self) -> i32 {
        self.config
    }

    /// The bits of the target processors.
    pub closed spec fn spec_processors(&self) -> u32 {
        self.processor_set@
    }

    /// Construct a `HandlerOptions` with default option values and the
    /// specified interrupt number and priority: the trigger configuration is
    /// left unchanged, and the first processor is the target.
    pub fn new(intno: Number, priority: i32) -> (r: Self)
        ensures
            r.spec_number() == intno.0,
            r.spec_priority() == priority,
            r.spec_config() == CONFIG_UNCHANGED,
            r.spec_processors() == 1u32,
    {
        let processor_set = ProcessorSet::single(0);
        assert(1u32 << 0u32 == 1u32) by (bit_vector);
        Self { intno, priority, config: CONFIG_UNCHANGED, processor_set }
    }

    /// Update `self` to configure the interrupt line as edge-triggered.
    pub fn with_edge_triggered(self) -> (r: Self)
        ensures
            r.spec_number() == self.spec_number(),
            r.spec_priority() == self.spec_priority(),
            r.spec_config() == CONFIG_EDGE_TRIGGERED,
            r.spec_processors() == self.spec_processors(),
    {
        Self { config: CONFIG_EDGE_TRIGGERED, ..self }
    }

    /// Update `self` to configure the interrupt line as level-sensitive.
    pub fn with_level_triggered(self) -> (r: Self)
        ensures
            r.spec_number() == self.spec_number(),
            r.spec_priority() == self.spec_priority(),
            r.spec_config() == CONFIG_LEVEL_SENSITIVE,
            r.spec_processors() == self.spec_processors(),
    {
        Self { config: CONFIG_LEVEL_SENSITIVE, ..self }
    }

    /// Update `self` to target the specified processor.
    pub fn with_target_processor(self, processor_id: usize) -> (r: Self)
        requires
            processor_id < SOLID_CORE_MAX,
        ensures
            r.spec_number() == self.spec_number(),
            r.spec_priority() == self.spec_priority(),
            r.spec_config() == self.spec_config(),
            r.spec_processors() == 1u32 << (processor_id as u32),
    {
        self.with_target_processor_set(ProcessorSet::single(processor_id))
    }

    /// Update `self` to target the specified processors.
    pub fn with_target_processor_set(self, processor_set: ProcessorSet) -> (r: Self)
        ensures
            r.spec_number() == self.spec_number(),
            r.spec_priority() == self.spec_priority(),
            r.spec_config() == self.spec_config(),
            r.spec_processors() == processor_set@,
    {
        Self { processor_set, ..self }
    }
}

/// The error type for [`Handler::register`].
#[derive(Clone, Copy, PartialEq, Eq, Structural, Debug, Hash)]
pub enum RegisterError {
    /// There is already an interrupt handler registered for `(intno,
    /// processor_id)` (private interrupt) or `intno` (shared interrupt).
    InterruptLineAlreadyHasHandler,
    /// The parameters of the interrupt handler are incorrect. For example, the
    /// priority is out of range, or the target processor set includes a
    /// processor other than the first eight ones.
    BadParam,
}

/// Where a handler stands in its registration protocol.
#[derive(Clone, Copy, PartialEq, Eq, Structural, Debug, Hash)]
pub enum Registration {
    /// The OS holds no pointer to the handler.
    Unregistered,
    /// The descriptor is being handed to the OS's registration entry point.
    Registering,
    /// The OS holds the descriptor.
    Registered,
    /// The descriptor is being taken back by the OS's unregistration entry
    /// point.
    Unregistering,
}

/// The state of a [`Handler`], as the OS and its owner see it.
#[derive(Clone, Copy, PartialEq, Eq, Structural, Debug)]
pub struct HandlerState {
    pub registration: Registration,
    /// The interrupt number of the descriptor.
    pub intno: i32,
    /// The priority of the descriptor.
    pub priority: i32,
    /// The trigger configuration of the descriptor.
    pub config: i32,
    /// The line for which the handler was registered.
    pub line: Line,
}

/// A registration request for the OS: the descriptor's fields and the target
/// processors, made while the lock of `line` is held.
#[derive(Clone, Copy, PartialEq, Eq, Structural, Debug)]
pub struct IntcRequest {
    pub line: Line,
    pub intno: i32,
    pub priority: i32,
    pub config: i32,
    /// The target processors: the OS takes the first eight only.
    pub processor_mask: u8,
}

/// The first step of [`Handler::register`].
#[derive(Clone, Copy, PartialEq, Eq, Structural, Debug)]
pub enum RegisterStep {
    /// The handler is already registered; nothing is asked of the OS.
    AlreadyRegistered,
    /// With interrupts disabled and the line's lock held, hand the handler's
    /// descriptor to the OS's registration entry point, then report its
    /// status to [`Handler::complete_register`].
    Submit(IntcRequest),
}

/// The first step of [`Handler::unregister`].
#[derive(Clone, Copy, PartialEq, Eq, Structural, Debug)]
pub enum UnregisterStep {
    /// The handler is not registered; nothing is asked of the OS.
    NotRegistered,
    /// With interrupts disabled and the lock of this line held, hand the
    /// descriptor to the OS's unregistration entry point, then report its
    /// status to [`Handler::complete_unregister`].
    Submit(Line),
}

/// The first step of registering a handler in state `h` with options `o` on
/// processor `p`.
pub open spec fn register_result(h: HandlerState, o: HandlerOptions, p: usize) -> Result<
    RegisterStep,
    RegisterError,
> {
    if h.registration != Registration::Unregistered {
        Ok(RegisterStep::AlreadyRegistered)
    } else {
        match line_of(o.spec_number(), p) {
            None => Err(RegisterError::BadParam),
            Some(line) => if o.spec_processors() > 0xff {
                Err(RegisterError::BadParam)
            } else {
                Ok(
                    RegisterStep::Submit(
                        IntcRequest {
                            line,
                            intno: o.spec_number(),
                            priority: o.spec_priority(),
                            config: o.spec_config(),
                            processor_mask: o.spec_processors() as u8,
                        },
                    ),
                )
            },
        }
    }
}

/// The state after the first step of registering.
pub open spec fn state_after_register(h: HandlerState, o: HandlerOptions, p: usize) -> HandlerState {
    match register_result(h, o, p) {
        Ok(RegisterStep::Submit(req)) => HandlerState {
            registration: Registration::Registering,
            intno: req.intno,
            priority: req.priority,
            config: req.config,
            line: req.line,
        },
        _ => h,
    }
}

/// The statuses that the OS's registration entry point can return. Any other
/// status is a broken invariant.
pub open spec fn is_register_status(status: i32) -> bool {
    status == SOLID_ERR_OK || status == SOLID_ERR_PAR || status == SOLID_ERR_ALREADYUSED
}

/// The outcome of registering, from the OS's status.
pub open spec fn register_outcome(status: i32) -> Result<bool, RegisterError> {
    if status == SOLID_ERR_OK {
        Ok(true)
    } else if status == SOLID_ERR_PAR {
        Err(RegisterError::BadParam)
    } else {
        Err(RegisterError::InterruptLineAlreadyHasHandler)
    }
}

/// The state after the OS answered a registration with `status`: registered
/// on success, otherwise back to unregistered.
pub open spec fn state_after_register_status(h: HandlerState, status: i32) -> HandlerState {
    HandlerState {
        registration: if status == SOLID_ERR_OK {
            Registration::Registered
        } else {
            Registration::Unregistered
        },
        ..h
    }
}

/// Whether a handler in state `h` may be unregistered on processor `p`: a
/// registered handler's number must give, on `p`, the line it was
/// registered for. Unregistering a private interrupt's handler from another
/// processor is a usage error.
pub open spec fn may_unregister_on(h: HandlerState, p: usize) -> bool {
    h.registration == Registration::Registered ==> line_of(h.intno, p) == Some(h.line)
}

/// The first step of unregistering a handler in state `h`.
pub open spec fn unregister_result(h: HandlerState) -> UnregisterStep {
    if h.registration == Registration::Registered {
        UnregisterStep::Submit(h.line)
    } else {
        UnregisterStep::NotRegistered
    }
}

/// The state after the first step of unregistering.
pub open spec fn state_after_unregister(h: HandlerState) -> HandlerState {
    if h.registration == Registration::Registered {
        HandlerState { registration: Registration::Unregistering, ..h }
    } else {
        h
    }
}

/// The statuses that the OS's unregistration entry point may return without
/// breaking an invariant: success, or a descriptor that it does not hold.
pub open spec fn is_unregister_status(status: i32) -> bool {
    status == SOLID_ERR_OK || status == SOLID_ERR_NOTFOUND
}

/// The state after the OS released the descriptor.
pub open spec fn state_after_unregister_status(h: HandlerState) -> HandlerState {
    HandlerState { registration: Registration::Unregistered, ..h }
}

/// The safe wrapper for a SOLID-OS interrupt handler.
///
/// Its owner keeps it at a fixed address while it is registered, since the OS
/// holds a pointer to its descriptor.
pub struct Handler<T> {
    state: HandlerState,
    handler: T,
}

impl<T> View for Handler<T> {
    type V = HandlerState;

    closed spec fn view(&self) -> HandlerState {
        self.state
    }
}

impl<T: HandlerFn> Handler<T> {
    /// The user callback.
    pub closed spec fn callback(&self) -> T {
        self.handler
    }

    /// Construct an unregistered `Handler`, its descriptor zeroed.
    pub fn new(handler: T) -> (r: Self)
        ensures
            r@ == (HandlerState {
                registration: Registration::Unregistered,
                intno: 0,
                priority: 0,
                config: 0,
                line: Line(0),
            }),
            r.callback() == handler,
    {
        Handler {
            state: HandlerState {
                registration: Registration::Unregistered,
                intno: 0,
                priority: 0,
                config: 0,
                line: Line(0),
            },
            handler,
        }
    }

    /// Check if the interupt handler is registered: the OS may hold a
    /// pointer to it.
    pub fn is_registered(&self) -> (r: bool)
        ensures
            r == (self@.registration != Registration::Unregistered),
    {
        match self.state.registration {
            Registration::Unregistered => false,
            _ => true,
        }
    }

    /// Get the interrupt number.
    pub fn number(&self) -> (r: Number)
        ensures
            r == Number(self@.intno),
    {
        Number(self.state.intno)
    }

    /// Start registering the interrupt handler on processor `processor` (the
    /// current one, with interrupts disabled).
    ///
    /// On success the interrupt line will have the options' priority, trigger
    /// configuration and target processors.
    pub fn register(&mut self, options: &HandlerOptions, processor: usize) -> (r: Result<
        RegisterStep,
        RegisterError,
    >)
        ensures
            r == register_result(old(self)@, *options, processor),
            final(self)@ == state_after_register(old(self)@, *options, processor),
            final(self).callback() == old(self).callback(),
    {
        if self.is_registered() {
            return Ok(RegisterStep::AlreadyRegistered);
        }
        let line = match Line::from_intno_for_current_processor(options.intno, processor) {
            Some(line) => line,
            None => return Err(RegisterError::BadParam),
        };
        // The OS's interface restricts the selectable processors to the first
        // eight ones in the system
        let bits = options.processor_set.as_u32_bits();
        if bits > 0xff {
            return Err(RegisterError::BadParam);
        }
        let req = IntcRequest {
            line,
            intno: options.intno.0,
            priority: options.priority,
            config: options.config,
            processor_mask: bits as u8,
        };
        self.state = HandlerState {
            registration: Registration::Registering,
            intno: req.intno,
            priority: req.priority,
            config: req.config,
            line,
        };
        Ok(RegisterStep::Submit(req))
    }

    /// Finish registering with the status returned by the OS.
    pub fn complete_register(&mut self, status: i32) -> (r: Result<bool, RegisterError>)
        requires
            old(self)@.registration == Registration::Registering,
            is_register_status(status),
        ensures
            r == register_outcome(status),
            final(self)@ == state_after_register_status(old(self)@, status),
            final(self).callback() == old(self).callback(),
    {
        if status == SOLID_ERR_OK {
            self.state.registration = Registration::Registered;
            Ok(true)
        } else {
            // Undo the effect on error
            self.state.registration = Registration::Unregistered;
            if status == SOLID_ERR_PAR {
                Err(RegisterError::BadParam)
            } else {
                Err(RegisterError::InterruptLineAlreadyHasHandler)
            }
        }
    }

    /// Whether the handler may be unregistered on processor `processor`.
    pub fn may_unregister_on(&self, processor: usize) -> (r: bool)
        ensures
            r == may_unregister_on(self@, processor),
    {
        match self.state.registration {
            Registration::Registered => {
                match Line::from_intno_for_current_processor(Number(self.state.intno), processor) {
                    Some(line) => line.0 == self.state.line.0,
                    None => false,
                }
            },
            _ => true,
        }
    }

    /// Start unregistering the interrupt handler on processor `processor`
    /// (the current one, with interrupts disabled). An unregistered handler
    /// asks nothing of the OS.
    pub fn unregister(&mut self, processor: usize) -> (r: UnregisterStep)
        requires
            old(self)@.registration == Registration::Unregistered || old(self)@.registration
                == Registration::Registered,
            may_unregister_on(old(self)@, processor),
        ensures
            r == unregister_result(old(self)@),
            final(self)@ == state_after_unregister(old(self)@),
            final(self).callback() == old(self).callback(),
    {
        match self.state.registration {
            Registration::Registered => {
                self.state.registration = Registration::Unregistering;
                UnregisterStep::Submit(self.state.line)
            },
            _ => UnregisterStep::NotRegistered,
        }
    }

    /// Finish unregistering once the OS released the descriptor.
    pub fn complete_unregister(&mut self, status: i32)
        requires
            old(self)@.registration == Registration::Unregistering,
            is_unregister_status(status),
        ensures
            final(self)@ == state_after_unregister_status(old(self)@),
            final(self).callback() == old(self).callback(),
    {
        self.state.registration = Registration::Unregistered;
    }

    /// Whether the callback may be called with `cx`.
    pub closed spec fn accepts(&self, cx: CpuCx) -> bool {
        self.handler.accepts(cx)
    }

    /// Run the callback once with `cx` for an interrupt on the handler's
    /// line: the body of the function that the OS calls, once interrupts are
    /// enabled again.
    pub fn dispatch(&mut self, cx: CpuCx)
        requires
            old(self).accepts(cx),
        ensures
            final(self)@ == old(self)@,
            old(self).callback().ran(cx, final(self).callback()),
    {
        self.handler.call(cx);
    }
}

/// When the OS finds the line already taken, registering fails with
/// `InterruptLineAlreadyHasHandler` and leaves the handler unregistered.
pub proof fn lemma_taken_line_leaves_handler_unregistered(
    h: HandlerState,
    o: HandlerOptions,
    p: usize,
)
    requires
        register_result(h, o, p) is Ok,
        register_result(h, o, p)->Ok_0 is Submit,
    ensures
        ({
            let pending = state_after_register(h, o, p);
            &&& pending.registration == Registration::Registering
            &&& register_outcome(SOLID_ERR_ALREADYUSED) == Err::<bool, RegisterError>(
                RegisterError::InterruptLineAlreadyHasHandler,
            )
            &&& state_after_register_status(pending, SOLID_ERR_ALREADYUSED).registration
                == Registration::Unregistered
        }),
{
}

/// Registering and then unregistering a handler on the same processor leaves
/// it unregistered, and registering it again asks the OS for exactly what
/// the first registration did, with the same outcome `Ok(true)` on success.
pub proof fn lemma_register_unregister_round_trip(h: HandlerState, o: HandlerOptions, p: usize)
    requires
        h.registration == Registration::Unregistered,
        register_result(h, o, p) is Ok,
        register_result(h, o, p)->Ok_0 is Submit,
    ensures
        ({
            let h1 = state_after_register(h, o, p);
            let h2 = state_after_register_status(h1, SOLID_ERR_OK);
            let h3 = state_after_unregister(h2);
            let h4 = state_after_unregister_status(h3);
            &&& register_outcome(SOLID_ERR_OK) == Ok::<bool, RegisterError>(true)
            &&& h2.registration == Registration::Registered
            &&& may_unregister_on(h2, p)
            &&& unregister_result(h2) == UnregisterStep::Submit(h1.line)
            &&& h4.registration == Registration::Unregistered
            &&& register_result(h4, o, p) == register_result(h, o, p)
            &&& state_after_register(h4, o, p) == h1
        }),
{
}

/// An unregistered handler asks nothing of the OS when it is unregistered,
/// as when it is dropped, and stays as it is.
pub proof fn lemma_unregistered_handler_is_inert(h: HandlerState, p: usize)
    requires
        h.registration == Registration::Unregistered,
    ensures
        may_unregister_on(h, p),
        unregister_result(h) == UnregisterStep::NotRegistered,
        state_after_unregister(h) == h,
{
}

/// The error type for enabling or disabling an interrupt line.
#[derive(Clone, Copy, PartialEq, Eq, Structural, Debug, Hash)]
pub enum EnableError {
    /// No handler is registered by [`Handler::register`] for the interrupt
    /// line.
    NoHandler,
    /// The interrupt number is invalid.
    BadParam,
}

/// The statuses that the OS's enable and disable entry points can return.
/// Any other status is a broken invariant.
pub open spec fn is_enable_status(status: i32) -> bool {
    status == SOLID_ERR_OK || status == SOLID_ERR_PAR || status == SOLID_ERR_NOTUSED
}

impl Number {
    /// The line to lock, on processor `processor` (the current one, with
    /// interrupts disabled), while the line is enabled or disabled.
    pub fn line_for_processor(self, processor: usize) -> (r: Result<Line, EnableError>)
        ensures
            r == (match line_of(self.0, processor) {
                Some(line) => Ok::<Line, EnableError>(line),
                None => Err(EnableError::BadParam),
            }),
    {
        match Line::from_intno_for_current_processor(self, processor) {
            Some(line) => Ok(line),
            None => Err(EnableError::BadParam),
        }
    }

    /// The outcome of enabling or disabling the line, from the OS's status.
    /// Enabling needs a handler registered for the line.
    pub fn status_result(status: i32) -> (r: Result<(), EnableError>)
        requires
            is_enable_status(status),
        ensures
            status == SOLID_ERR_OK ==> r is Ok,
            status == SOLID_ERR_PAR ==> r == Err::<(), EnableError>(EnableError::BadParam),
            status == SOLID_ERR_NOTUSED ==> r == Err::<(), EnableError>(EnableError::NoHandler),
    {
        if status == SOLID_ERR_OK {
            Ok(())
        } else if status == SOLID_ERR_PAR {
            Err(EnableError::BadParam)
        } else {
            Err(EnableError::NoHandler)
        }
    }
}

} // verus!
