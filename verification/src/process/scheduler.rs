use vstd::prelude::*;
use std::collections::VecDeque;
use crate::pi::interrupt::{Controller, Interrupt};
use crate::pi::timer::Timer;
use crate::process::process::{Id, Process};
use crate::process::schedule::{
    first_ready_from, launched_all, lemma_added_inv, lemma_booted_inv, lemma_dispatched_inv,
    lemma_switched_inv, Schedule,
};
use crate::process::state::State;
use crate::traps::trap_frame::{TrapFrame, SPSR_DAIF_MASK};

verus! {

/// The `tick` time: the microseconds between two timer interrupts.
pub const TICK: u32 = 2 * 1000 * 1000;

/// Round-robin scheduler over a queue of processes.
#[derive(Debug)]
pub struct Scheduler {
    processes: VecDeque<Process>,
    current: Option<Id>,
    last_id: Option<Id>,
}

impl View for Scheduler {
    type V = Schedule;

    closed spec fn view(&self) -> Schedule {
        Schedule { processes: self.processes@, current: self.current, last_id: self.last_id }
    }
}

impl Scheduler {
    /// Returns a new `Scheduler` with an empty queue.
    pub fn new() -> (scheduler: Scheduler)
        ensures
            scheduler@ == Schedule::empty(),
    {
        Scheduler { processes: VecDeque::new(), current: None, last_id: None }
    }

    /// The number of processes in the queue.
    pub fn len(&self) -> (len: usize)
        ensures
            len == self@.processes.len(),
    {
        self.processes.len()
    }

    /// The ID of the process that was last put on the CPU by `switch` or
    /// `dispatch`, or retired by `switch`.
    pub fn current(&self) -> (current: Option<Id>)
        ensures
            current == self@.current,
    {
        self.current
    }

    /// Adds a process to the scheduler's queue and returns that process's ID.
    /// The process ID is newly allocated for the process and saved in its
    /// `trap_frame`.
    ///
    /// It is the caller's responsibility to ensure that the first time
    /// `switch` is called, the process that was added first is executing on
    /// the CPU.
    pub fn add(&mut self, process: Process) -> (id: Option<Id>)
        ensures
            id == Some(old(self)@.next_id()),
            final(self)@ == old(self)@.added(process),
            old(self)@.inv() && (process.state is Running ==> old(self)@.processes.len() == 0)
                ==> final(self)@.inv() && id == Some(old(self)@.processes.len() as u64),
    {
        let id_generate: Id = match self.last_id {
            None => 0,
            Some(x) => x.wrapping_add(1),
        };
        self.last_id = Some(id_generate);
        let mut added = process;
        added.trap_frame.TPIDR = id_generate;
        self.processes.push_back(added);
        proof {
            vstd::std_specs::vecdeque::axiom_spec_len(&self.processes);
            if old(self)@.inv() && (process.state is Running ==> old(self)@.processes.len() == 0) {
                lemma_added_inv(old(self)@, process);
            }
        }
        Some(id_generate)
    }

    /// Sets the current process's state to `new_state`, finds the next process
    /// to switch to at the time `now`, and performs the context switch on `tf`
    /// by saving `tf` into the current process and restoring the next
    /// process's trap frame into `tf`. Returns `Some` of the process ID that
    /// was context switched into `tf`.
    ///
    /// Returns `None` if there is no process to switch to: the queue is
    /// empty, or no process can be scheduled at `now`. In the second case the
    /// current process is retired all the same and `tf` is as it was; the
    /// caller waits for an interrupt, reads the clock and calls `dispatch`.
    pub fn switch(&mut self, new_state: State, tf: &mut TrapFrame, now: u64) -> (next: Option<Id>)
        ensures
            final(self)@ == old(self)@.switched(new_state, *old(tf), now),
            next == old(self)@.switch_chosen(new_state, *old(tf), now),
            *final(tf) == old(self)@.switch_restored(new_state, *old(tf), now),
            old(self)@.inv() && !(new_state is Running) && (old(self)@.processes.len() > 0
                ==> old(tf).TPIDR == old(self)@.processes[0].id()) ==> final(self)@.inv(),
    {
        proof {
            if old(self)@.inv() && !(new_state is Running) && (old(self)@.processes.len() > 0
                ==> old(tf).TPIDR == old(self)@.processes[0].id()) {
                lemma_switched_inv(old(self)@, new_state, *old(tf), now);
            }
        }
        // The current process is at the front of the queue.
        match self.processes.pop_front() {
            Some(mut x) => {
                self.current = Some(x.trap_frame.TPIDR);
                x.state = new_state;
                x.trap_frame = Box::new(*tf);
                self.processes.push_back(x);
            },
            None => {
                return None;
            },
        }
        self.dispatch(tf, now)
    }

    /// Goes through the queue once, front to tail, for a process that can be
    /// scheduled at the time `now`. The first one found is marked `Running`,
    /// stays at the front, has its trap frame copied into `tf`, and its ID is
    /// returned. The processes passed over go to the tail in their order.
    ///
    /// Returns `None`, with nothing changed, if no process can be scheduled.
    pub fn dispatch(&mut self, tf: &mut TrapFrame, now: u64) -> (next: Option<Id>)
        ensures
            final(self)@ == old(self)@.dispatched(now),
            next == old(self)@.chosen(now),
            *final(tf) == old(self)@.restored(*old(tf), now),
            old(self)@.inv() && old(self)@.idle() ==> final(self)@.inv(),
    {
        let ghost queue = self.processes@;
        let n: usize = self.processes.len();
        let mut i: usize = 0;
        while i < n
            invariant
                0 <= i <= n,
                n == queue.len(),
                queue == old(self)@.processes,
                self.processes@ =~= queue.subrange(i as int, n as int) + queue.subrange(
                    0,
                    i as int,
                ),
                first_ready_from(queue, now, i as int) == first_ready_from(queue, now, 0),
                self.current == old(self).current,
                self.last_id == old(self).last_id,
                *tf == *old(tf),
            decreases n - i,
        {
            match self.processes.pop_front() {
                Some(mut x) => {
                    assert(x == queue[i as int]);
                    if x.is_ready(now) {
                        self.current = Some(x.trap_frame.TPIDR);
                        *tf = *x.trap_frame;
                        x.state = State::Running;
                        self.processes.push_front(x);
                        proof {
                            assert(self.processes@ =~= old(self)@.dispatched(now).processes);
                            if old(self)@.inv() && old(self)@.idle() {
                                lemma_dispatched_inv(old(self)@, now);
                            }
                        }
                        return self.current;
                    } else {
                        self.processes.push_back(x);
                    }
                },
                None => {
                    return None;
                },
            }
            i += 1;
        }
        assert(self.processes@ =~= queue);
        None
    }
}

/// Process scheduler for the entire machine: a scheduler that is there once
/// `start` has run.
#[derive(Debug)]
pub struct GlobalScheduler(Option<Scheduler>);

impl View for GlobalScheduler {
    type V = Option<Schedule>;

    closed spec fn view(&self) -> Option<Schedule> {
        match self.0 {
            Some(scheduler) => Some(scheduler@),
            None => None,
        }
    }
}

impl GlobalScheduler {
    /// Returns an uninitialized wrapper around a local scheduler.
    pub fn uninitialized() -> (scheduler: GlobalScheduler)
        ensures
            scheduler@ is None,
    {
        GlobalScheduler(None)
    }

    /// Whether `start` has run.
    pub fn is_initialized(&self) -> (initialized: bool)
        ensures
            initialized == self@ is Some,
    {
        self.0.is_some()
    }

    /// The number of processes in the queue.
    pub fn len(&self) -> (len: usize)
        requires
            self@ is Some,
        ensures
            len == self@->0.processes.len(),
    {
        match &self.0 {
            Some(scheduler) => scheduler.len(),
            None => 0,
        }
    }

    /// Adds a process to the scheduler's queue and returns that process's ID.
    /// For more details, see the documentation on `Scheduler::add()`.
    pub fn add(&mut self, process: Process) -> (id: Option<Id>)
        requires
            old(self)@ is Some,
        ensures
            id == Some(old(self)@->0.next_id()),
            final(self)@ == Some(old(self)@->0.added(process)),
            old(self)@->0.inv() && (process.state is Running ==> old(self)@->0.processes.len()
                == 0) ==> final(self)@->0.inv(),
    {
        match &mut self.0 {
            Some(scheduler) => scheduler.add(process),
            None => None,
        }
    }

    /// Performs a context switch using `tf` by setting the state of the current
    /// process to `new_state`, saving `tf` into the current process, and
    /// restoring the next process's trap frame into `tf`. For more details, see
    /// the documentation on `Scheduler::switch()`.
    pub fn switch(&mut self, new_state: State, tf: &mut TrapFrame, now: u64) -> (next: Option<Id>)
        requires
            old(self)@ is Some,
        ensures
            final(self)@ == Some(old(self)@->0.switched(new_state, *old(tf), now)),
            next == old(self)@->0.switch_chosen(new_state, *old(tf), now),
            *final(tf) == old(self)@->0.switch_restored(new_state, *old(tf), now),
            old(self)@->0.inv() && !(new_state is Running) && (old(self)@->0.processes.len() > 0
                ==> old(tf).TPIDR == old(self)@->0.processes[0].id()) ==> final(self)@->0.inv(),
    {
        match &mut self.0 {
            Some(scheduler) => scheduler.switch(new_state, tf, now),
            None => None,
        }
    }

    /// Chooses the next process at the time `now` after `switch` found none
    /// to switch to. For more details, see the documentation on
    /// `Scheduler::dispatch()`.
    pub fn dispatch(&mut self, tf: &mut TrapFrame, now: u64) -> (next: Option<Id>)
        requires
            old(self)@ is Some,
        ensures
            final(self)@ == Some(old(self)@->0.dispatched(now)),
            next == old(self)@->0.chosen(now),
            *final(tf) == old(self)@->0.restored(*old(tf), now),
            old(self)@->0.inv() && old(self)@->0.idle() ==> final(self)@->0.inv(),
    {
        match &mut self.0 {
            Some(scheduler) => scheduler.dispatch(tf, now),
            None => None,
        }
    }

    /// Initializes the scheduler for timer interrupt based preemptive
    /// scheduling, and returns the trap frame to restore in order to start
    /// executing the first process in user space.
    ///
    /// The process `first` is set up to start at the address `entry` on its
    /// own stack with interrupts on, and each process of `seeds` to start at
    /// the address that comes with it. They are added to a new scheduler in
    /// this order. Then the timer 1 interrupt is enabled in `controller`, and
    /// `timer` is armed to match in `TICK` microseconds.
    pub fn start(
        &mut self,
        first: Process,
        entry: u64,
        seeds: Vec<(Process, u64)>,
        controller: &mut Controller,
        timer: &mut Timer,
    ) -> (frame: TrapFrame)
        ensures
            final(self)@ == Some(Schedule::booted(first, entry, seeds@)),
            frame == *first.launched(entry).unmasked().trap_frame,
            final(controller)@ == old(controller)@.enabled(Interrupt::Timer1),
            final(timer)@ == old(timer)@.armed(TICK),
            (forall|i: int| 0 <= i < seeds@.len() ==> !((#[trigger] seeds@[i]).0.state is Running))
                ==> final(self)@->0.inv(),
    {
        let ghost started = first.launched(entry).unmasked();
        let mut shell = first;
        shell.launch(entry);
        // Clear the interrupt mask bits DAIF.
        shell.trap_frame.SPSR = shell.trap_frame.SPSR & !SPSR_DAIF_MASK;
        let frame: TrapFrame = *shell.trap_frame;
        let mut scheduler = Scheduler::new();
        scheduler.add(shell);
        let ghost all = seeds@;
        for seed in iter: seeds
            invariant
                iter.seq() == all,
                scheduler@ == Schedule::empty().added(started).added_all(
                    launched_all(all.take(iter.index())),
                ),
        {
            let ghost i = iter.index();
            let (mut process, start_at) = seed;
            process.launch(start_at);
            scheduler.add(process);
            proof {
                assert(launched_all(all.take(i + 1)).drop_last() =~= launched_all(all.take(i)));
                assert(launched_all(all.take(i + 1)).last() == all[i].0.launched(all[i].1));
            }
        }
        proof {
            assert(all.take(all.len() as int) =~= all);
            vstd::std_specs::vecdeque::axiom_spec_len(&scheduler.processes);
            if forall|i: int| 0 <= i < all.len() ==> !((#[trigger] all[i]).0.state is Running) {
                lemma_booted_inv(first, entry, all);
            }
        }
        self.0 = Some(scheduler);
        controller.enable(Interrupt::Timer1);
        timer.tick_in(TICK);
        frame
    }
}

} // verus!
