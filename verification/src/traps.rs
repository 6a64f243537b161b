//! Exception entry: the saved register file, the decoding of the syndrome,
//! and the dispatcher that the exception vector calls.

pub mod irq;
pub mod syndrome;
pub mod syscall;
pub mod trap_frame;

pub use self::irq::handle_irq;
pub use self::syndrome::{Fault, Syndrome};
pub use self::syscall::{handle_syscall, sleep};
pub use self::trap_frame::TrapFrame;

use vstd::prelude::*;
use crate::pi::interrupt::{Controller, Interrupt};
use crate::pi::timer::Timer;
use crate::process::process::Id;
use crate::process::scheduler::{GlobalScheduler, TICK};
use crate::process::state::State;
use crate::traps::syscall::{sleep_state, SYSCALL_SLEEP};

verus! {

/// The kind of an exception. The vector passes it as a number: 0 for
/// `Synchronous`, 1 for `Irq`, 2 for `Fiq`, 3 for `SError`.
#[derive(Debug, PartialEq, Eq, Copy, Clone)]
pub enum Kind {
    Synchronous,
    Irq,
    Fiq,
    SError,
}

/// Where an exception was taken from. The vector passes it as a number: 0
/// for `CurrentSpEl0`, 1 for `CurrentSpElx`, 2 for `LowerAArch64`, 3 for
/// `LowerAArch32`.
#[derive(Debug, PartialEq, Eq, Copy, Clone)]
pub enum Source {
    CurrentSpEl0,
    CurrentSpElx,
    LowerAArch64,
    LowerAArch32,
}

/// The source and the kind of an exception.
#[derive(Debug, PartialEq, Eq, Copy, Clone)]
pub struct Info {
    pub source: Source,
    pub kind: Kind,
}

/// What a handler did, and what is left for its caller to do before the
/// exception returns.
#[derive(Debug, PartialEq, Eq, Copy, Clone)]
pub enum Outcome {
    /// Nothing was done: the exception is of a kind that is not served, or no
    /// wired interrupt line was pending.
    Ignored,
    /// Timer 1 had matched. The timer is armed for the next tick: its compare
    /// register 1 and `CS` are to be stored. The scheduler switched; this is
    /// what `switch` returned.
    Tick(Option<Id>),
    /// The process asked to sleep. The scheduler switched; this is what
    /// `switch` returned.
    Sleep(Option<Id>),
    /// A system call with a number that no call has. Nothing was done.
    UnknownSyscall(u16),
    /// A breakpoint instruction with this immediate: the caller opens the
    /// debug shell.
    Break(u16),
    /// Any other synchronous exception: the caller reports it.
    Fault(Syndrome),
}

impl Kind {
    /// The kind that the number `code` stands for.
    pub fn from_code(code: u16) -> (kind: Option<Kind>)
        ensures
            kind == match code {
                0 => Some(Kind::Synchronous),
                1 => Some(Kind::Irq),
                2 => Some(Kind::Fiq),
                3 => Some(Kind::SError),
                _ => None,
            },
    {
        match code {
            0 => Some(Kind::Synchronous),
            1 => Some(Kind::Irq),
            2 => Some(Kind::Fiq),
            3 => Some(Kind::SError),
            _ => None,
        }
    }
}

impl Source {
    /// The source that the number `code` stands for.
    pub fn from_code(code: u16) -> (source: Option<Source>)
        ensures
            source == match code {
                0 => Some(Source::CurrentSpEl0),
                1 => Some(Source::CurrentSpElx),
                2 => Some(Source::LowerAArch64),
                3 => Some(Source::LowerAArch32),
                _ => None,
            },
    {
        match code {
            0 => Some(Source::CurrentSpEl0),
            1 => Some(Source::CurrentSpElx),
            2 => Some(Source::LowerAArch64),
            3 => Some(Source::LowerAArch32),
            _ => None,
        }
    }
}

impl TrapFrame {
    /// The frame with `ELR` moved on by one instruction of four bytes. The
    /// address wraps around at the end of the address space.
    pub open spec fn advanced(self) -> TrapFrame {
        TrapFrame {
            ELR: if self.ELR + 4 > u64::MAX {
                (self.ELR + 4 - 0x1_0000_0000_0000_0000) as u64
            } else {
                (self.ELR + 4) as u64
            },
            ..self
        }
    }
}

/// Serving the exception takes a scheduler: it is a timer tick or a call to
/// sleep.
pub open spec fn takes_scheduler(
    info: Info,
    esr: u32,
    controller: crate::pi::interrupt::Registers,
) -> bool {
    match info.kind {
        Kind::Synchronous => Syndrome::decode(esr) == Syndrome::Svc(SYSCALL_SLEEP),
        Kind::Irq => controller.pending(Interrupt::Timer1),
        _ => false,
    }
}

/// Whether `handle_exception` takes an initialized scheduler to serve the
/// exception.
pub fn needs_scheduler(info: Info, esr: u32, controller: &Controller) -> (needed: bool)
    ensures
        needed == takes_scheduler(info, esr, controller@),
{
    match info.kind {
        Kind::Synchronous => match Syndrome::from(esr) {
            Syndrome::Svc(num) => num == SYSCALL_SLEEP,
            _ => false,
        },
        Kind::Irq => controller.is_pending(Interrupt::Timer1),
        _ => false,
    }
}

/// This function is called when an exception occurs. The `info` parameter
/// specifies the source and kind of exception that has occurred. The `esr` is
/// the value of the exception syndrome register. Finally, `tf` is the trap
/// frame for the exception. The time is the counter of `timer`.
///
///   * Synchronous: `ELR` is moved past the instruction that raised the
///     exception, and `esr` is decoded. A supervisor call goes to
///     `handle_syscall`. A breakpoint instruction and every other cause are
///     left to the caller.
///   * IRQ: if timer 1 is pending in `controller`, `handle_irq` serves it.
///   * FIQ and SError are ignored.
///
/// At the end the IRQ mask of `SPSR` is cleared in `tf`.
///
/// The scheduler must be initialized if the exception is a timer tick or a
/// call to sleep.
pub fn handle_exception(
    info: Info,
    esr: u32,
    tf: &mut TrapFrame,
    controller: &Controller,
    timer: &mut Timer,
    scheduler: &mut GlobalScheduler,
) -> (outcome: Outcome)
    requires
        takes_scheduler(info, esr, controller@) ==> old(scheduler)@ is Some,
    ensures
        match info.kind {
            Kind::Synchronous => {
                let frame = old(tf).advanced();
                let now = old(timer)@.counter();
                &&& final(timer)@ == old(timer)@
                &&& match Syndrome::decode(esr) {
                    Syndrome::Svc(num) => if num == SYSCALL_SLEEP {
                        let state = sleep_state((frame.x0 % 0x1_0000_0000) as u32, now);
                        let before = old(scheduler)@->0;
                        &&& outcome == Outcome::Sleep(before.switch_chosen(state, frame, now))
                        &&& final(scheduler)@ == Some(before.switched(state, frame, now))
                        &&& *final(tf) == before.switch_restored(
                            state,
                            frame,
                            now,
                        ).irq_unmasked()
                    } else {
                        &&& outcome == Outcome::UnknownSyscall(num)
                        &&& final(scheduler)@ == old(scheduler)@
                        &&& *final(tf) == frame.irq_unmasked()
                    },
                    Syndrome::Brk(imm) => {
                        &&& outcome == Outcome::Break(imm)
                        &&& final(scheduler)@ == old(scheduler)@
                        &&& *final(tf) == frame.irq_unmasked()
                    },
                    other => {
                        &&& outcome == Outcome::Fault(other)
                        &&& final(scheduler)@ == old(scheduler)@
                        &&& *final(tf) == frame.irq_unmasked()
                    },
                }
            },
            Kind::Irq => if controller@.pending(Interrupt::Timer1) {
                let now = old(timer)@.counter();
                let before = old(scheduler)@->0;
                &&& outcome == Outcome::Tick(before.switch_chosen(State::Ready, *old(tf), now))
                &&& final(timer)@ == old(timer)@.armed(TICK)
                &&& final(scheduler)@ == Some(before.switched(State::Ready, *old(tf), now))
                &&& *final(tf) == before.switch_restored(
                    State::Ready,
                    *old(tf),
                    now,
                ).irq_unmasked()
            } else {
                &&& outcome == Outcome::Ignored
                &&& final(timer)@ == old(timer)@
                &&& final(scheduler)@ == old(scheduler)@
                &&& *final(tf) == old(tf).irq_unmasked()
            },
            _ => {
                &&& outcome == Outcome::Ignored
                &&& final(timer)@ == old(timer)@
                &&& final(scheduler)@ == old(scheduler)@
                &&& *final(tf) == old(tf).irq_unmasked()
            },
        },
        old(scheduler)@ is Some && old(scheduler)@->0.inv() && (old(scheduler)@->0.processes.len()
            > 0 ==> old(tf).TPIDR == old(scheduler)@->0.processes[0].id())
            ==> final(scheduler)@ is Some && final(scheduler)@->0.inv(),
{
    let outcome = match info.kind {
        Kind::Synchronous => {
            // The CPU stores the address of the instruction that raised the
            // exception; the return goes to the one after it.
            tf.ELR = tf.ELR.wrapping_add(4);
            match Syndrome::from(esr) {
                Syndrome::Svc(num) => handle_syscall(num, tf, scheduler, timer.read()),
                Syndrome::Brk(imm) => Outcome::Break(imm),
                other => Outcome::Fault(other),
            }
        },
        Kind::Irq => {
            if controller.is_pending(Interrupt::Timer1) {
                proof {
                    // `handle_irq` clears the IRQ mask too; once more changes nothing.
                    crate::traps::trap_frame::lemma_irq_unmasked_bits(
                        scheduler@->0.switch_restored(State::Ready, *tf, timer@.counter()),
                    );
                }
                handle_irq(Interrupt::Timer1, tf, timer, scheduler)
            } else {
                Outcome::Ignored
            }
        },
        _ => Outcome::Ignored,
    };
    tf.unmask_irq();
    outcome
}

/// Chooses a process at the time `now` after a handler found none to switch
/// to and the caller has waited for an interrupt. If there is one, `tf` holds
/// its registers, and its ID is returned. The IRQ mask of `SPSR` is cleared
/// in `tf`.
pub fn resume(tf: &mut TrapFrame, scheduler: &mut GlobalScheduler, now: u64) -> (next: Option<Id>)
    requires
        old(scheduler)@ is Some,
    ensures
        next == old(scheduler)@->0.chosen(now),
        final(scheduler)@ == Some(old(scheduler)@->0.dispatched(now)),
        *final(tf) == old(scheduler)@->0.restored(*old(tf), now).irq_unmasked(),
        old(scheduler)@->0.inv() && old(scheduler)@->0.idle() ==> final(scheduler)@->0.inv(),
{
    let next = scheduler.dispatch(tf, now);
    tf.unmask_irq();
    next
}

} // verus!
