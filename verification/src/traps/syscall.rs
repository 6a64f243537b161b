use vstd::prelude::*;
use crate::process::process::{Id, Process};
use crate::process::schedule::{lemma_not_ready_stays, Schedule};
use crate::process::scheduler::GlobalScheduler;
use crate::process::state::State;
use crate::traps::trap_frame::TrapFrame;
use crate::traps::Outcome;

verus! {

/// The number of the system call `sleep`: the process passes the milliseconds
/// to sleep in x0, and finds the milliseconds that it slept in x0 and the
/// status in x7.
pub const SYSCALL_SLEEP: u16 = 1;

/// The state of a process that went to sleep at the time `now` for `ms`
/// milliseconds.
pub open spec fn sleep_state(ms: u32, now: u64) -> State {
    State::Waiting { start_us: now, duration_us: (ms * 1000) as u64 }
}

/// Sleep for `ms` milliseconds.
///
/// This system call takes one parameter: the number of milliseconds to sleep.
///
/// In addition to the usual status value, this system call returns one
/// parameter: the approximate true elapsed time from when `sleep` was called to
/// when `sleep` returned.
///
/// The calling process is retired at the time `now`, in microseconds, with
/// the registers `tf`, and is not scheduled again before `ms` milliseconds
/// have passed. The scheduler switches to the next process; what `switch`
/// returned is returned.
pub fn sleep(ms: u32, tf: &mut TrapFrame, scheduler: &mut GlobalScheduler, now: u64) -> (next:
    Option<Id>)
    requires
        old(scheduler)@ is Some,
    ensures
        next == old(scheduler)@->0.switch_chosen(sleep_state(ms, now), *old(tf), now),
        final(scheduler)@ == Some(
            old(scheduler)@->0.switched(sleep_state(ms, now), *old(tf), now),
        ),
        *final(tf) == old(scheduler)@->0.switch_restored(sleep_state(ms, now), *old(tf), now),
        old(scheduler)@->0.inv() && (old(scheduler)@->0.processes.len() > 0 ==> old(tf).TPIDR
            == old(scheduler)@->0.processes[0].id()) ==> final(scheduler)@->0.inv(),
{
    let t_us: u64 = (ms as u64) * 1000;
    // Do not reschedule until the time has passed.
    scheduler.switch(State::Waiting { start_us: now, duration_us: t_us }, tf, now)
}

/// Serves the system call with the number `num`, made at the time `now` by
/// the process whose registers are `tf`. A number that no call has is
/// ignored.
///
/// The scheduler must be initialized if the call is `sleep`.
pub fn handle_syscall(
    num: u16,
    tf: &mut TrapFrame,
    scheduler: &mut GlobalScheduler,
    now: u64,
) -> (outcome: Outcome)
    requires
        num == SYSCALL_SLEEP ==> old(scheduler)@ is Some,
    ensures
        num == SYSCALL_SLEEP ==> {
            let state = sleep_state((old(tf).x0 % 0x1_0000_0000) as u32, now);
            let before = old(scheduler)@->0;
            &&& outcome == Outcome::Sleep(before.switch_chosen(state, *old(tf), now))
            &&& final(scheduler)@ == Some(before.switched(state, *old(tf), now))
            &&& *final(tf) == before.switch_restored(state, *old(tf), now)
            &&& before.inv() && (before.processes.len() > 0 ==> old(tf).TPIDR
                == before.processes[0].id()) ==> final(scheduler)@->0.inv()
        },
        num != SYSCALL_SLEEP ==> {
            &&& outcome == Outcome::UnknownSyscall(num)
            &&& final(scheduler)@ == old(scheduler)@
            &&& *final(tf) == *old(tf)
        },
{
    match num {
        SYSCALL_SLEEP => {
            let x0: u64 = tf.x0;
            assert(x0 & 0xFFFF_FFFF == x0 % 0x1_0000_0000) by (bit_vector);
            let t_ms: u32 = (x0 & 0xFFFF_FFFF) as u32;
            Outcome::Sleep(sleep(t_ms, tf, scheduler, now))
        },
        _ => Outcome::UnknownSyscall(num),
    }
}

/// A process that went to sleep at `start` for `ms` milliseconds can be
/// scheduled at `now` exactly when `ms` milliseconds have passed since
/// `start`. Before that, asking it whether it is ready changes nothing. From
/// then on, asking makes it ready, with status 0 in x7 and in x0 the
/// milliseconds from `start` to `now`, which are `ms` or more.
pub proof fn lemma_sleep(p: Process, ms: u32, start: u64, now: u64)
    requires
        p.state == sleep_state(ms, start),
    ensures
        p.ready_at(now) <==> start + ms * 1000 <= now,
        !p.ready_at(now) ==> p.polled(now) == p,
        p.ready_at(now) ==> {
            &&& p.polled(now).state == State::Ready
            &&& p.polled(now).trap_frame.x0 == (now - start) / 1000
            &&& p.polled(now).trap_frame.x0 >= ms
            &&& p.polled(now).trap_frame.x1_x29[6] == 0
        },
{
    crate::traps::trap_frame::lemma_returned(*p.trap_frame, ((now - start) / 1000) as u64, 0);
}

/// A sleeper is not put on the CPU before its time: while fewer than `ms`
/// milliseconds have passed since it went to sleep at `start`, the scheduler
/// does not choose it, and it stays in the queue as it is.
pub proof fn lemma_sleeper_stays(s: Schedule, k: int, ms: u32, start: u64, now: u64)
    requires
        0 <= k < s.processes.len(),
        s.processes[k].state == sleep_state(ms, start),
        now < start + ms * 1000,
    ensures
        s.first_ready(now) != k,
        s.dispatched(now).processes.contains(s.processes[k]),
{
    lemma_sleep(s.processes[k], ms, start, now);
    lemma_not_ready_stays(s, k, now);
}

} // verus!
