use vstd::prelude::*;
use crate::allocator::bump::Allocator;
use crate::pi::timer::has_elapsed;
use crate::process::stack::{Stack, STACK_ALIGN, STACK_SIZE};
use crate::process::state::State;
use crate::traps::trap_frame::TrapFrame;

verus! {

/// Type alias for the type of a process ID.
pub type Id = u64;

/// A structure that represents the complete state of a process.
#[derive(Debug)]
pub struct Process {
    /// The saved trap frame of a process.
    pub trap_frame: Box<TrapFrame>,
    /// The memory allocation used for the process's stack.
    pub stack: Stack,
    /// The scheduling state of the process.
    pub state: State,
}

impl Process {
    /// The ID of the process: what its saved thread-pointer register holds.
    pub open spec fn id(self) -> Id {
        self.trap_frame.TPIDR
    }

    /// The process can be scheduled at time `now`: it is ready, or it sleeps
    /// and its time has passed.
    pub open spec fn ready_at(self, now: u64) -> bool {
        match self.state {
            State::Ready => true,
            State::Waiting { start_us, duration_us } => has_elapsed(start_us, duration_us, now),
            _ => false,
        }
    }

    /// The process after it was asked at time `now` whether it is ready. A
    /// sleeper whose time has passed is made ready and handed the
    /// milliseconds that it slept, in x0, with status 0 in x7. Any other
    /// process is as it was.
    pub open spec fn polled(self, now: u64) -> Process {
        match self.state {
            State::Waiting { start_us, duration_us } if has_elapsed(start_us, duration_us, now) => {
                Process {
                    trap_frame: Box::new(
                        self.trap_frame.returned(((now - start_us) / 1000) as u64, 0),
                    ),
                    state: State::Ready,
                    ..self
                }
            },
            _ => self,
        }
    }

    /// The process set up to start at the address `entry` on an empty stack:
    /// its saved `ELR` is `entry` and its saved stack pointer is the top of
    /// its stack.
    pub open spec fn launched(self, entry: u64) -> Process {
        Process {
            trap_frame: Box::new(
                TrapFrame { ELR: entry, SP: self.stack.top() as u64, ..*self.trap_frame },
            ),
            ..self
        }
    }

    /// Sets the process up to start at the address `entry` on an empty
    /// stack.
    pub fn launch(&mut self, entry: u64)
        ensures
            *final(self) == old(self).launched(entry),
    {
        self.trap_frame.ELR = entry;
        self.trap_frame.SP = self.stack.top() as u64;
    }

    /// Creates a new process with a zeroed `TrapFrame`, a stack taken from
    /// `heap`, and a state of `Ready`.
    ///
    /// If `heap` has no room for the stack, returns `None` and leaves `heap`
    /// as it was. Otherwise returns `Some` of the new `Process`.
    pub fn new(heap: &mut Allocator) -> (process: Option<Process>)
        ensures
            process is Some <==> old(heap)@.fits(STACK_SIZE, STACK_ALIGN),
            process matches Some(p) ==> {
                &&& p.trap_frame.is_zeroed()
                &&& p.state == State::Ready
                &&& p.stack.wf()
                &&& p.stack.bottom() == old(heap)@.placed(STACK_ALIGN)
                &&& final(heap)@ == old(heap)@.taken(STACK_SIZE, STACK_ALIGN)
            },
            process is None ==> final(heap)@ == old(heap)@,
    {
        let stack = match Stack::new(heap) {
            Some(stack) => stack,
            None => {
                return None;
            },
        };
        Some(Process { trap_frame: Box::new(TrapFrame::default()), stack, state: State::Ready })
    }

    /// Returns `true` if this process is ready to be scheduled at the time
    /// `now`, in microseconds.
    ///
    /// This function returns `true` only if one of the following holds:
    ///
    ///   * The state is currently `Ready`.
    ///
    ///   * The process sleeps and its time has passed at `now`. The state is
    ///     then switched to `Ready`, and the process finds the milliseconds
    ///     that it slept in x0 and status 0 in x7.
    ///
    /// Returns `false` in all other cases, and leaves the process unchanged.
    pub fn is_ready(&mut self, now: u64) -> (ready: bool)
        ensures
            ready == old(self).ready_at(now),
            *final(self) == old(self).polled(now),
    {
        match self.state {
            State::Ready => true,
            State::Waiting { start_us, duration_us } => {
                if has_elapsed(start_us, duration_us, now) {
                    self.trap_frame.set_return((now - start_us) / 1000, 0);
                    self.state = State::Ready;
                    true
                } else {
                    false
                }
            },
            _ => false,
        }
    }
}

/// Asking a process whether it is ready changes it only if it sleeps and its
/// time has passed. A process that was ready at `now` is in state `Ready`
/// afterwards, one that was not is in the state it was in, and neither its ID
/// nor its stack changes.
pub proof fn lemma_polled(p: Process, now: u64)
    ensures
        p.ready_at(now) ==> p.polled(now).state == State::Ready,
        !p.ready_at(now) ==> p.polled(now) == p,
        p.state == State::Ready ==> p.polled(now) == p,
        p.polled(now).id() == p.id(),
        p.polled(now).stack == p.stack,
        p.polled(now).ready_at(now) == p.ready_at(now),
{
}

} // verus!
