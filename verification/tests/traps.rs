use kernel::allocator::Allocator;
use kernel::pi::interrupt::{Controller, Interrupt, Registers as IrqRegisters};
use kernel::pi::timer::{Registers as TimerRegisters, Timer};
use kernel::process::{GlobalScheduler, Process, TICK};
use kernel::traps::syscall::SYSCALL_SLEEP;
use kernel::traps::{
    handle_exception, handle_irq, handle_syscall, resume, sleep, Fault, Info, Kind, Outcome, Source,
    Syndrome, TrapFrame,
};

const ELR_A: u64 = 0x8_0000;
const ELR_B: u64 = 0x9_0000;
const SVC_SLEEP: u32 = 0x5600_0001;

fn timer_at(now: u64) -> Timer {
    Timer::new(TimerRegisters {
        CS: 0,
        CLO: now as u32,
        CHI: (now >> 32) as u32,
        COMPARE: [0; 4],
    })
}

fn timer_1_pending() -> Controller {
    Controller::new(IrqRegisters { IRQ_Pending_1: 1 << 1, ..IrqRegisters::default() })
}

fn nothing_pending() -> Controller {
    Controller::new(IrqRegisters::default())
}

fn info(kind: Kind) -> Info {
    Info { source: Source::LowerAArch64, kind }
}

/// A machine that has been started with the given entry points; the frame is
/// the one the first process starts with.
fn boot(entries: &[u64]) -> (GlobalScheduler, TrapFrame) {
    let mut heap = Allocator::new(0x10_0000, 0x1000_0000);
    let first = Process::new(&mut heap).unwrap();
    let mut seeds: Vec<(Process, u64)> = Vec::new();
    for entry in &entries[1..] {
        seeds.push((Process::new(&mut heap).unwrap(), *entry));
    }
    let mut scheduler = GlobalScheduler::uninitialized();
    let mut controller = nothing_pending();
    let mut timer = timer_at(0);
    let frame = scheduler.start(first, entries[0], seeds, &mut controller, &mut timer);
    (scheduler, frame)
}

fn tick(scheduler: &mut GlobalScheduler, tf: &mut TrapFrame, now: u64) -> Outcome {
    let mut timer = timer_at(now);
    handle_exception(info(Kind::Irq), 0, tf, &timer_1_pending(), &mut timer, scheduler)
}

#[test]
fn kinds_and_sources_by_number() {
    assert_eq!(Kind::from_code(0), Some(Kind::Synchronous));
    assert_eq!(Kind::from_code(1), Some(Kind::Irq));
    assert_eq!(Kind::from_code(2), Some(Kind::Fiq));
    assert_eq!(Kind::from_code(3), Some(Kind::SError));
    assert_eq!(Kind::from_code(4), None);
    assert_eq!(Source::from_code(0), Some(Source::CurrentSpEl0));
    assert_eq!(Source::from_code(1), Some(Source::CurrentSpElx));
    assert_eq!(Source::from_code(2), Some(Source::LowerAArch64));
    assert_eq!(Source::from_code(3), Some(Source::LowerAArch32));
    assert_eq!(Source::from_code(u16::MAX), None);
}

#[test]
fn uninitialized_scheduler() {
    let scheduler = GlobalScheduler::uninitialized();
    assert!(!scheduler.is_initialized());
}

#[test]
fn start_sets_up_the_first_process() {
    let mut heap = Allocator::new(0x10_0000, 0x1000_0000);
    let mut first = Process::new(&mut heap).unwrap();
    first.trap_frame.SPSR = 0xffff;
    first.trap_frame.x0 = 8;
    let top: u64 = first.stack.top() as u64;
    let mut scheduler = GlobalScheduler::uninitialized();
    let mut controller = nothing_pending();
    let mut timer = Timer::new(TimerRegisters { CS: 0, CLO: 500, CHI: 0, COMPARE: [9, 9, 9, 9] });
    let frame = scheduler.start(first, ELR_A, Vec::new(), &mut controller, &mut timer);

    let expected = TrapFrame { ELR: ELR_A, SP: top, SPSR: 0xfc3f, x0: 8, ..TrapFrame::default() };
    assert_eq!(frame, expected);
    assert!(scheduler.is_initialized());
    assert_eq!(scheduler.len(), 1);
    // Timer 1 is enabled and armed one tick from now.
    assert_eq!(
        controller.registers(),
        IrqRegisters { Enable_IRQ_1: 1 << 1, ..IrqRegisters::default() }
    );
    assert_eq!(
        timer.registers(),
        TimerRegisters { CS: 0b10, CLO: 500, CHI: 0, COMPARE: [9, 2_000_500, 9, 9] }
    );
    assert_eq!(TICK, 2_000_000);
}

#[test]
fn start_adds_the_seeds_in_order() {
    let (mut scheduler, frame) = boot(&[ELR_A, ELR_B, 0xa_0000]);
    assert_eq!(scheduler.len(), 3);
    assert_eq!(frame.ELR, ELR_A);
    let mut tf = frame;
    assert_eq!(tick(&mut scheduler, &mut tf, 10), Outcome::Tick(Some(1)));
    assert_eq!(tf.ELR, ELR_B);
    assert_eq!(tf.TPIDR, 1);
    assert_ne!(tf.SP, frame.SP);
    assert_eq!(tf.SP % 16, 0);
    assert_eq!(tick(&mut scheduler, &mut tf, 20), Outcome::Tick(Some(2)));
    assert_eq!(tf.ELR, 0xa_0000);
    assert_eq!(tick(&mut scheduler, &mut tf, 30), Outcome::Tick(Some(0)));
    assert_eq!(tf.ELR, ELR_A);
    assert_eq!(tf.SP, frame.SP);
}

#[test]
fn start_again_starts_anew() {
    let (mut scheduler, _) = boot(&[ELR_A, ELR_B]);
    let mut heap = Allocator::new(0x10_0000, 0x1000_0000);
    let first = Process::new(&mut heap).unwrap();
    let mut controller = nothing_pending();
    let mut timer = timer_at(0);
    scheduler.start(first, ELR_B, Vec::new(), &mut controller, &mut timer);
    assert_eq!(scheduler.len(), 1);
}

#[test]
fn global_add_after_start() {
    let (mut scheduler, _) = boot(&[ELR_A]);
    let mut heap = Allocator::new(0x4000_0000, 0x5000_0000);
    assert_eq!(scheduler.add(Process::new(&mut heap).unwrap()), Some(1));
    assert_eq!(scheduler.add(Process::new(&mut heap).unwrap()), Some(2));
    assert_eq!(scheduler.len(), 3);
}

#[test]
fn first_tick_with_one_process_continues_it() {
    let (mut scheduler, frame) = boot(&[ELR_A]);
    // The process has run for a while when the timer fires.
    let mut tf = frame;
    tf.ELR = ELR_A + 0x40;
    tf.x0 = 17;
    tf.SPSR = 0x80;
    let mut timer = timer_at(TICK as u64);
    let outcome = handle_exception(
        info(Kind::Irq),
        0,
        &mut tf,
        &timer_1_pending(),
        &mut timer,
        &mut scheduler,
    );
    assert_eq!(outcome, Outcome::Tick(Some(0)));
    let expected = TrapFrame { ELR: ELR_A + 0x40, x0: 17, SPSR: 0, ..frame };
    assert_eq!(tf, expected);
    // The next tick is set up.
    assert_eq!(timer.registers().COMPARE[1], 2 * TICK);
    assert_eq!(timer.registers().CS, 0b10);
}

#[test]
fn two_ticks_show_both_processes() {
    let (mut scheduler, frame) = boot(&[ELR_A, ELR_B]);
    let mut tf = frame;
    assert_eq!(tick(&mut scheduler, &mut tf, 2_000_000), Outcome::Tick(Some(1)));
    let after_first: u64 = tf.ELR;
    assert_eq!(tick(&mut scheduler, &mut tf, 4_000_000), Outcome::Tick(Some(0)));
    let after_second: u64 = tf.ELR;
    assert_eq!(after_first, ELR_B);
    assert_eq!(after_second, ELR_A);
}

#[test]
fn irq_without_timer_1_is_ignored() {
    let (mut scheduler, frame) = boot(&[ELR_A, ELR_B]);
    let mut tf = frame;
    tf.SPSR = 0x3c0;
    let mut timer = timer_at(77);
    let uart = Controller::new(IrqRegisters {
        IRQ_Pending_1: 1 << 3,
        IRQ_Pending_2: 1 << 25,
        ..IrqRegisters::default()
    });
    let outcome = handle_exception(info(Kind::Irq), 0, &mut tf, &uart, &mut timer, &mut scheduler);
    assert_eq!(outcome, Outcome::Ignored);
    assert_eq!(timer.registers(), timer_at(77).registers());
    let expected = TrapFrame { SPSR: 0x340, ..frame };
    assert_eq!(tf, expected);
    // The first process is still the one on the CPU.
    assert_eq!(tick(&mut scheduler, &mut tf, 100), Outcome::Tick(Some(1)));
}

#[test]
fn fiq_and_serror_are_ignored() {
    let mut scheduler = GlobalScheduler::uninitialized();
    for kind in [Kind::Fiq, Kind::SError] {
        let mut tf = TrapFrame { ELR: 0x100, SPSR: 0x3c0, ..TrapFrame::default() };
        let mut timer = timer_at(5);
        let outcome = handle_exception(
            info(kind),
            SVC_SLEEP,
            &mut tf,
            &timer_1_pending(),
            &mut timer,
            &mut scheduler,
        );
        assert_eq!(outcome, Outcome::Ignored);
        assert_eq!(tf, TrapFrame { ELR: 0x100, SPSR: 0x340, ..TrapFrame::default() });
        assert_eq!(timer.registers(), timer_at(5).registers());
    }
    assert!(!scheduler.is_initialized());
}

#[test]
fn faulting_load_is_reported() {
    let mut scheduler = GlobalScheduler::uninitialized();
    let mut tf = TrapFrame { ELR: 0x8_1000, SPSR: 0x80, x0: 3, ..TrapFrame::default() };
    let mut timer = timer_at(0);
    // Data abort from a lower exception level, translation fault.
    let esr: u32 = (0b100100 << 26) | 0b000110;
    let outcome = handle_exception(
        info(Kind::Synchronous),
        esr,
        &mut tf,
        &nothing_pending(),
        &mut timer,
        &mut scheduler,
    );
    assert_eq!(
        outcome,
        Outcome::Fault(Syndrome::DataAbort { kind: Fault::Translation, level: 0 })
    );
    assert_eq!(tf, TrapFrame { ELR: 0x8_1004, SPSR: 0, x0: 3, ..TrapFrame::default() });
}

#[test]
fn breakpoint_is_left_to_the_caller() {
    let mut scheduler = GlobalScheduler::uninitialized();
    let mut tf = TrapFrame { ELR: 0x2000, ..TrapFrame::default() };
    let mut timer = timer_at(0);
    let outcome = handle_exception(
        info(Kind::Synchronous),
        0xF200_0010,
        &mut tf,
        &timer_1_pending(),
        &mut timer,
        &mut scheduler,
    );
    assert_eq!(outcome, Outcome::Break(16));
    assert_eq!(tf.ELR, 0x2004);
    assert_eq!(timer.registers(), timer_at(0).registers());
}

#[test]
fn elr_wraps_at_the_end_of_the_address_space() {
    let mut scheduler = GlobalScheduler::uninitialized();
    let mut tf = TrapFrame { ELR: u64::MAX - 1, ..TrapFrame::default() };
    let mut timer = timer_at(0);
    let outcome = handle_exception(
        info(Kind::Synchronous),
        0,
        &mut tf,
        &nothing_pending(),
        &mut timer,
        &mut scheduler,
    );
    assert_eq!(outcome, Outcome::Fault(Syndrome::Unknown));
    assert_eq!(tf.ELR, 2);
}

#[test]
fn unknown_system_call_is_ignored() {
    let (mut scheduler, frame) = boot(&[ELR_A, ELR_B]);
    let mut tf = frame;
    tf.x1_x29[6] = 0xbad;
    tf.SPSR = 0x80;
    let mut timer = timer_at(9);
    let outcome = handle_exception(
        info(Kind::Synchronous),
        0x5600_0002,
        &mut tf,
        &nothing_pending(),
        &mut timer,
        &mut scheduler,
    );
    assert_eq!(outcome, Outcome::UnknownSyscall(2));
    let mut expected = frame;
    expected.ELR = ELR_A + 4;
    expected.x1_x29[6] = 0xbad;
    assert_eq!(tf, expected);
    assert_eq!(tick(&mut scheduler, &mut tf, 10), Outcome::Tick(Some(1)));
}

#[test]
fn sleep_of_100_ms() {
    let (mut scheduler, frame) = boot(&[ELR_A, ELR_B]);
    let start: u64 = 5_000_000;
    // The first process asks to sleep for 100 ms.
    let mut tf = frame;
    tf.ELR = ELR_A + 0x10;
    tf.x0 = 100;
    tf.x1_x29[6] = 0xbad;
    let mut timer = timer_at(start);
    let outcome = handle_exception(
        info(Kind::Synchronous),
        SVC_SLEEP,
        &mut tf,
        &nothing_pending(),
        &mut timer,
        &mut scheduler,
    );
    assert_eq!(outcome, Outcome::Sleep(Some(1)));
    assert_eq!(tf.ELR, ELR_B);
    assert_eq!(timer.registers(), timer_at(start).registers());

    // While it sleeps, every tick comes back to the second process.
    assert_eq!(tick(&mut scheduler, &mut tf, start + 50_000), Outcome::Tick(Some(1)));
    assert_eq!(tick(&mut scheduler, &mut tf, start + 99_999), Outcome::Tick(Some(1)));
    assert_eq!(tf.ELR, ELR_B);

    // At the first tick after 100 ms it is back, after the instruction that made the call.
    assert_eq!(tick(&mut scheduler, &mut tf, start + 123_000), Outcome::Tick(Some(0)));
    assert_eq!(tf.ELR, ELR_A + 0x14);
    assert_eq!(tf.x0, 123);
    assert!(tf.x0 >= 100);
    assert_eq!(tf.x1_x29[6], 0);
    assert_eq!(tf.SP, frame.SP);
}

#[test]
fn sleep_reads_the_low_half_of_x0() {
    let (mut scheduler, frame) = boot(&[ELR_A, ELR_B]);
    let mut tf = frame;
    tf.x0 = 0xffff_ffff_0000_0002;
    assert_eq!(handle_syscall(SYSCALL_SLEEP, &mut tf, &mut scheduler, 0), Outcome::Sleep(Some(1)));
    assert_eq!(tick(&mut scheduler, &mut tf, 1_999), Outcome::Tick(Some(1)));
    assert_eq!(tick(&mut scheduler, &mut tf, 2_000), Outcome::Tick(Some(0)));
    assert_eq!(tf.x0, 2);
}

#[test]
fn longest_sleep() {
    let (mut scheduler, frame) = boot(&[ELR_A, ELR_B]);
    let mut tf = frame;
    assert_eq!(sleep(u32::MAX, &mut tf, &mut scheduler, 7), Some(1));
    let end: u64 = 7 + (u32::MAX as u64) * 1000;
    assert_eq!(tick(&mut scheduler, &mut tf, end - 1), Outcome::Tick(Some(1)));
    assert_eq!(tick(&mut scheduler, &mut tf, end), Outcome::Tick(Some(0)));
    assert_eq!(tf.x0, u32::MAX as u64);
}

#[test]
fn all_asleep_waits_for_resume() {
    let (mut scheduler, frame) = boot(&[ELR_A]);
    let mut tf = frame;
    tf.x0 = 3;
    tf.SPSR = 0x3c0;
    let mut timer = timer_at(1_000);
    let outcome = handle_exception(
        info(Kind::Synchronous),
        SVC_SLEEP,
        &mut tf,
        &nothing_pending(),
        &mut timer,
        &mut scheduler,
    );
    // Nobody can run: the caller waits for an interrupt and asks again.
    assert_eq!(outcome, Outcome::Sleep(None));
    assert_eq!(scheduler.len(), 1);
    assert_eq!(resume(&mut tf, &mut scheduler, 3_999), None);
    assert_eq!(resume(&mut tf, &mut scheduler, 4_000), Some(0));
    let expected = TrapFrame { ELR: ELR_A + 4, x0: 3, SPSR: 0x340, ..frame };
    assert_eq!(tf, expected);
}

#[test]
fn tick_with_all_asleep() {
    let (mut scheduler, frame) = boot(&[ELR_A, ELR_B]);
    let mut tf = frame;
    assert_eq!(sleep(10, &mut tf, &mut scheduler, 0), Some(1));
    assert_eq!(sleep(1, &mut tf, &mut scheduler, 0), None);
    assert_eq!(resume(&mut tf, &mut scheduler, 999), None);
    // The second sleeper is due first, though the first went to sleep before it.
    assert_eq!(resume(&mut tf, &mut scheduler, 1_000), Some(1));
    assert_eq!(tf.x0, 1);
    assert_eq!(tick(&mut scheduler, &mut tf, 1_001), Outcome::Tick(Some(1)));
    assert_eq!(tick(&mut scheduler, &mut tf, 10_000), Outcome::Tick(Some(0)));
    assert_eq!(tf.x0, 10);
}

#[test]
fn handle_irq_serves_timer_1_only() {
    let (mut scheduler, frame) = boot(&[ELR_A, ELR_B]);
    for line in [
        Interrupt::Timer3,
        Interrupt::Usb,
        Interrupt::Gpio0,
        Interrupt::Gpio1,
        Interrupt::Gpio2,
        Interrupt::Gpio3,
        Interrupt::Uart,
    ] {
        let mut tf = TrapFrame { SPSR: 0xc0, ..frame };
        let mut timer = timer_at(40);
        assert_eq!(handle_irq(line, &mut tf, &mut timer, &mut scheduler), Outcome::Ignored);
        assert_eq!(tf, TrapFrame { SPSR: 0x40, ..frame });
        assert_eq!(timer.registers(), timer_at(40).registers());
    }
    let mut tf = TrapFrame { SPSR: 0xc0, ..frame };
    let mut timer = timer_at(0x1_ffff_fff0);
    assert_eq!(
        handle_irq(Interrupt::Timer1, &mut tf, &mut timer, &mut scheduler),
        Outcome::Tick(Some(1))
    );
    assert_eq!(tf.ELR, ELR_B);
    assert_eq!(timer.registers().COMPARE[1], 0xffff_fff0u32.wrapping_add(TICK));
    assert_eq!(timer.registers().CS, 0b10);
}

#[test]
fn restored_frame_has_irqs_unmasked() {
    let (mut scheduler, frame) = boot(&[ELR_A, ELR_B]);
    let mut tf = TrapFrame { SPSR: 0x3c0, ..frame };
    assert_eq!(tick(&mut scheduler, &mut tf, 1), Outcome::Tick(Some(1)));
    assert_eq!(tf.SPSR, 0);
    // The first process was saved with the mask it had; the mask is cleared on the way back.
    tf.SPSR = 0x80;
    assert_eq!(tick(&mut scheduler, &mut tf, 2), Outcome::Tick(Some(0)));
    assert_eq!(tf.SPSR, 0x340);
    assert_eq!(tick(&mut scheduler, &mut tf, 3), Outcome::Tick(Some(1)));
    assert_eq!(tf.SPSR, 0);
}
