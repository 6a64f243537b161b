use vstd::prelude::*;
use crate::pi::interrupt::Interrupt;
use crate::pi::timer::Timer;
use crate::process::scheduler::{GlobalScheduler, TICK};
use crate::process::state::State;
use crate::traps::trap_frame::TrapFrame;
use crate::traps::Outcome;

verus! {

/// Serves the interrupt `interrupt`, taken while the CPU held the registers
/// `tf`, and clears the IRQ mask of `SPSR` in `tf`.
///
/// For timer 1 the match is acknowledged and `timer` is armed to match again
/// in `TICK` microseconds. Then the scheduler retires the current process as
/// `Ready` and switches to the next one at the time of `timer`'s counter. No
/// other interrupt is served.
///
/// The scheduler must be initialized if the interrupt is timer 1.
pub fn handle_irq(
    interrupt: Interrupt,
    tf: &mut TrapFrame,
    timer: &mut Timer,
    scheduler: &mut GlobalScheduler,
) -> (outcome: Outcome)
    requires
        interrupt == Interrupt::Timer1 ==> old(scheduler)@ is Some,
    ensures
        interrupt == Interrupt::Timer1 ==> {
            let now = old(timer)@.counter();
            let before = old(scheduler)@->0;
            &&& outcome == Outcome::Tick(before.switch_chosen(State::Ready, *old(tf), now))
            &&& final(timer)@ == old(timer)@.armed(TICK)
            &&& final(scheduler)@ == Some(before.switched(State::Ready, *old(tf), now))
            &&& *final(tf) == before.switch_restored(State::Ready, *old(tf), now).irq_unmasked()
            &&& before.inv() && (before.processes.len() > 0 ==> old(tf).TPIDR
                == before.processes[0].id()) ==> final(scheduler)@->0.inv()
        },
        interrupt != Interrupt::Timer1 ==> {
            &&& outcome == Outcome::Ignored
            &&& final(timer)@ == old(timer)@
            &&& final(scheduler)@ == old(scheduler)@
            &&& *final(tf) == old(tf).irq_unmasked()
        },
{
    let outcome = match interrupt {
        Interrupt::Timer1 => {
            // Acknowledge the match and set up the next one.
            timer.tick_in(TICK);
            let now: u64 = timer.read();
            Outcome::Tick(scheduler.switch(State::Ready, tf, now))
        },
        _ => Outcome::Ignored,
    };
    // Enable interrupts again.
    tf.unmask_irq();
    outcome
}

} // verus!
