use std::collections::HashSet;
use std::sync::atomic::{AtomicUsize, Ordering};
use std::sync::Arc;

use solid::abi::{
    SOLID_ERR_ALREADYUSED, SOLID_ERR_NOTFOUND, SOLID_ERR_NOTUSED, SOLID_ERR_OK, SOLID_ERR_PAR,
};
use solid::interrupt::{
    daif_clear_immediate, EnableError, Handler, HandlerOptions, HandlerState, IntcRequest,
    InterruptMask, Line, Number, RegisterError, RegisterStep, Registration, UnregisterStep,
    CONFIG_EDGE_TRIGGERED, CONFIG_LEVEL_SENSITIVE, CONFIG_UNCHANGED, LINE_TABLE_LEN, NUM_LINES,
};
use solid::smp::ProcessorSet;
use solid::thread::CpuCx;

/// An interrupt controller that keeps one handler per line.
struct FakeIntc {
    lines: HashSet<usize>,
    calls: usize,
}

impl FakeIntc {
    fn new() -> Self {
        FakeIntc { lines: HashSet::new(), calls: 0 }
    }

    fn register(&mut self, req: &IntcRequest) -> i32 {
        self.calls += 1;
        if self.lines.insert(req.line.0) {
            SOLID_ERR_OK
        } else {
            SOLID_ERR_ALREADYUSED
        }
    }

    fn unregister(&mut self, line: Line) -> i32 {
        self.calls += 1;
        if self.lines.remove(&line.0) {
            SOLID_ERR_OK
        } else {
            SOLID_ERR_NOTFOUND
        }
    }

    fn enable(&mut self, line: Line) -> i32 {
        self.calls += 1;
        if self.lines.contains(&line.0) {
            SOLID_ERR_OK
        } else {
            SOLID_ERR_NOTUSED
        }
    }
}

fn register<T: solid::interrupt::HandlerFn>(
    h: &mut Handler<T>,
    options: &HandlerOptions,
    os: &mut FakeIntc,
    processor: usize,
) -> Result<bool, RegisterError> {
    match h.register(options, processor)? {
        RegisterStep::AlreadyRegistered => Ok(false),
        RegisterStep::Submit(req) => {
            let status = os.register(&req);
            h.complete_register(status)
        }
    }
}

fn unregister<T: solid::interrupt::HandlerFn>(
    h: &mut Handler<T>,
    os: &mut FakeIntc,
    processor: usize,
) -> bool {
    assert!(h.may_unregister_on(processor));
    match h.unregister(processor) {
        UnregisterStep::NotRegistered => false,
        UnregisterStep::Submit(line) => {
            let status = os.unregister(line);
            h.complete_unregister(status);
            true
        }
    }
}

fn enable(number: Number, os: &mut FakeIntc, processor: usize) -> Result<(), EnableError> {
    let line = number.line_for_processor(processor)?;
    Number::status_result(os.enable(line))
}

fn noop() -> impl FnMut(CpuCx) + Send + 'static {
    |_: CpuCx| {}
}

#[test]
fn private_line_is_offset_by_processor() {
    assert_eq!(Line::from_intno_for_current_processor(Number(5), 0), Some(Line(5)));
    assert_eq!(Line::from_intno_for_current_processor(Number(5), 2), Some(Line(5 + 64)));
    assert_eq!(Line::from_intno_for_current_processor(Number(31), 3), Some(Line(31 + 96)));
}

#[test]
fn shared_line_is_the_same_on_every_processor() {
    for p in 0..4 {
        assert_eq!(Line::from_intno_for_current_processor(Number(64), p), Some(Line(64 + 96)));
    }
    assert_eq!(Line::from_intno_for_current_processor(Number(1019), 1), Some(Line(1019 + 96)));
}

#[test]
fn line_derivation_is_repeatable() {
    let a = Line::from_intno_for_current_processor(Number(17), 1);
    let b = Line::from_intno_for_current_processor(Number(17), 1);
    assert_eq!(a, b);
}

#[test]
fn invalid_numbers_have_no_line() {
    assert_eq!(Line::from_intno_for_current_processor(Number(-1), 0), None);
    assert_eq!(Line::from_intno_for_current_processor(Number(1020), 0), None);
    assert_eq!(Line::from_intno_for_current_processor(Number(i32::MAX), 0), None);
    assert_eq!(Line::from_intno_for_current_processor(Number(3), usize::MAX), None);
    assert_eq!(NUM_LINES, 1020 + 3 * 32);
}

#[test]
fn line_lock_bits() {
    let bits = usize::BITS as usize;
    assert_eq!(Line(0).index_mask(), (0, 1));
    assert_eq!(Line(bits + 3).index_mask(), (1, 1 << 3));
    let (index, mask) = Line(NUM_LINES - 1).index_mask();
    assert!(index < LINE_TABLE_LEN);
    assert_eq!(mask, 1 << ((NUM_LINES - 1) % bits));
}

#[test]
fn options_builders() {
    let o = HandlerOptions::new(Number(64), 10);
    let mut h = Handler::new(noop());
    let mut os = FakeIntc::new();
    match h.register(&o, 0) {
        Ok(RegisterStep::Submit(req)) => {
            assert_eq!(req.intno, 64);
            assert_eq!(req.priority, 10);
            assert_eq!(req.config, CONFIG_UNCHANGED);
            assert_eq!(req.processor_mask, 1);
            let status = os.register(&req);
            assert_eq!(h.complete_register(status), Ok(true));
        }
        other => panic!("unexpected {other:?}"),
    }

    let edge = o.with_edge_triggered().with_target_processor(2);
    let level = o.with_level_triggered().with_target_processor_set(ProcessorSet::all());
    let mut h1 = Handler::new(noop());
    let mut h2 = Handler::new(noop());
    match (h1.register(&edge, 0), h2.register(&level, 0)) {
        (Ok(RegisterStep::Submit(a)), Ok(RegisterStep::Submit(b))) => {
            assert_eq!(a.config, CONFIG_EDGE_TRIGGERED);
            assert_eq!(a.processor_mask, 0b100);
            assert_eq!(b.config, CONFIG_LEVEL_SENSITIVE);
            assert_eq!(b.processor_mask, 0b1111);
            assert_ne!(CONFIG_EDGE_TRIGGERED, CONFIG_LEVEL_SENSITIVE);
        }
        other => panic!("unexpected {other:?}"),
    }
}

#[test]
fn register_rejects_bad_numbers_without_asking_the_os() {
    let mut h = Handler::new(noop());
    assert_eq!(h.register(&HandlerOptions::new(Number(-3), 0), 0), Err(RegisterError::BadParam));
    assert_eq!(h.register(&HandlerOptions::new(Number(5000), 0), 0), Err(RegisterError::BadParam));
    assert!(!h.is_registered());
}

#[test]
fn scenario_register_and_enable() {
    let mut os = FakeIntc::new();
    let mut h = Handler::new(noop());
    assert_eq!(register(&mut h, &HandlerOptions::new(Number(64), 10), &mut os, 0), Ok(true));
    assert!(h.is_registered());
    assert_eq!(h.number(), Number(64));
    assert_eq!(enable(Number(64), &mut os, 0), Ok(()));
    assert_eq!(enable(Number(99), &mut os, 0), Err(EnableError::NoHandler));
    assert_eq!(enable(Number(-1), &mut os, 0), Err(EnableError::BadParam));
}

#[test]
fn scenario_already_used_line() {
    let mut os = FakeIntc::new();
    let mut first = Handler::new(noop());
    let mut second = Handler::new(noop());
    let o = HandlerOptions::new(Number(64), 10);
    assert_eq!(register(&mut first, &o, &mut os, 0), Ok(true));
    assert_eq!(register(&mut second, &o, &mut os, 1), Err(RegisterError::InterruptLineAlreadyHasHandler));
    assert!(!second.is_registered());
    assert!(first.is_registered());
}

#[test]
fn os_statuses_of_register() {
    let o = HandlerOptions::new(Number(40), 1);
    let mut h = Handler::new(noop());
    assert!(matches!(h.register(&o, 0), Ok(RegisterStep::Submit(_))));
    assert!(h.is_registered());
    assert_eq!(h.complete_register(SOLID_ERR_PAR), Err(RegisterError::BadParam));
    assert!(!h.is_registered());
    assert!(matches!(h.register(&o, 0), Ok(RegisterStep::Submit(_))));
    assert_eq!(h.complete_register(SOLID_ERR_ALREADYUSED), Err(RegisterError::InterruptLineAlreadyHasHandler));
    assert!(!h.is_registered());
}

#[test]
fn private_line_taken_on_one_processor_only() {
    let mut os = FakeIntc::new();
    let o = HandlerOptions::new(Number(27), 1);
    let mut a = Handler::new(noop());
    let mut b = Handler::new(noop());
    let mut c = Handler::new(noop());
    assert_eq!(register(&mut a, &o, &mut os, 0), Ok(true));
    assert_eq!(register(&mut b, &o, &mut os, 0), Err(RegisterError::InterruptLineAlreadyHasHandler));
    assert_eq!(register(&mut c, &o, &mut os, 1), Ok(true));
}

#[test]
fn register_twice_is_a_no_op() {
    let mut os = FakeIntc::new();
    let mut h = Handler::new(noop());
    let o = HandlerOptions::new(Number(70), 3);
    assert_eq!(register(&mut h, &o, &mut os, 0), Ok(true));
    let calls = os.calls;
    assert_eq!(h.register(&o, 0), Ok(RegisterStep::AlreadyRegistered));
    assert_eq!(os.calls, calls);
}

#[test]
fn register_unregister_register() {
    let mut os = FakeIntc::new();
    let mut h = Handler::new(noop());
    let o = HandlerOptions::new(Number(12), 5);
    assert_eq!(register(&mut h, &o, &mut os, 1), Ok(true));
    assert!(unregister(&mut h, &mut os, 1));
    assert!(!h.is_registered());
    assert_eq!(register(&mut h, &o, &mut os, 1), Ok(true));
    assert!(h.is_registered());
}

#[test]
fn private_handler_unregisters_on_its_processor_only() {
    let mut os = FakeIntc::new();
    let mut h = Handler::new(noop());
    assert_eq!(register(&mut h, &HandlerOptions::new(Number(12), 5), &mut os, 1), Ok(true));
    assert!(!h.may_unregister_on(0));
    assert!(h.may_unregister_on(1));
    let mut shared = Handler::new(noop());
    assert_eq!(register(&mut shared, &HandlerOptions::new(Number(80), 5), &mut os, 1), Ok(true));
    assert!(shared.may_unregister_on(0));
}

#[test]
fn unregistering_an_unregistered_handler_asks_nothing() {
    let mut os = FakeIntc::new();
    let mut h = Handler::new(noop());
    assert!(!unregister(&mut h, &mut os, 0));
    assert_eq!(os.calls, 0);
    assert_eq!(
        h.unregister(3),
        UnregisterStep::NotRegistered
    );
}

#[test]
fn new_handler_state() {
    let h = Handler::new(noop());
    assert!(!h.is_registered());
    assert_eq!(h.number(), Number(0));
    let _ = HandlerState {
        registration: Registration::Unregistered,
        intno: 0,
        priority: 0,
        config: 0,
        line: Line(0),
    };
}

#[test]
fn dispatch_calls_the_callback() {
    let count = Arc::new(AtomicUsize::new(0));
    let c = count.clone();
    let mut h = Handler::new(move |_: CpuCx| {
        c.fetch_add(1, Ordering::Relaxed);
    });
    h.dispatch(CpuCx::new(0x1000));
    h.dispatch(CpuCx::new(0x1000));
    assert_eq!(count.load(Ordering::Relaxed), 2);

    let mut none: Handler<Option<fn(CpuCx)>> = Handler::new(None);
    none.dispatch(CpuCx::new(0x1000));
}

#[test]
fn enable_statuses() {
    assert_eq!(Number::status_result(SOLID_ERR_OK), Ok(()));
    assert_eq!(Number::status_result(SOLID_ERR_PAR), Err(EnableError::BadParam));
    assert_eq!(Number::status_result(SOLID_ERR_NOTUSED), Err(EnableError::NoHandler));
}

#[test]
fn critical_section_restores_mask() {
    for daif in [0u64, 0x40, 0x80, 0xc0, 0x3c5, 0x200] {
        let mut m = InterruptMask::new(daif);
        let cs = m.enter();
        assert_eq!(m.bits(), daif | 0xc0);
        m.exit(cs);
        assert_eq!(m.bits(), daif);
    }
}

#[test]
fn critical_sections_nest() {
    let mut m = InterruptMask::new(0x300);
    let outer = m.enter();
    let inner = m.enter();
    m.exit(inner);
    assert_eq!(m.bits(), 0x3c0);
    m.exit(outer);
    assert_eq!(m.bits(), 0x300);
}

#[test]
fn daif_clear_immediates() {
    assert_eq!(daif_clear_immediate(0x00), 3);
    assert_eq!(daif_clear_immediate(0x40), 2);
    assert_eq!(daif_clear_immediate(0x80), 1);
    assert_eq!(daif_clear_immediate(0xc0), 0);
    assert_eq!(daif_clear_immediate(0x3c0), 0);
}
