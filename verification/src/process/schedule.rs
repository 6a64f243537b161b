use vstd::prelude::*;
use crate::process::process::{Id, Process};
use crate::process::state::State;
use crate::traps::trap_frame::{TrapFrame, SPSR_DAIF_MASK};

verus! {

/// What a scheduler holds: the processes in the order of the run queue, the
/// ID of the process that was last put on the CPU, and the ID that was last
/// given out.
pub struct Schedule {
    pub processes: Seq<Process>,
    pub current: Option<Id>,
    pub last_id: Option<Id>,
}

/// The index of the first process of `queue`, at or after `from`, that can be
/// scheduled at time `now`; the length of `queue` if there is none.
pub open spec fn first_ready_from(queue: Seq<Process>, now: u64, from: int) -> int
    decreases queue.len() - from,
{
    if from >= queue.len() {
        queue.len() as int
    } else if queue[from].ready_at(now) {
        from
    } else {
        first_ready_from(queue, now, from + 1)
    }
}

impl Process {
    /// The process with `id` in its saved thread-pointer register.
    pub open spec fn with_id(self, id: Id) -> Process {
        Process { trap_frame: Box::new(TrapFrame { TPIDR: id, ..*self.trap_frame }), ..self }
    }

    /// The process taken off the CPU: in state `state`, with the registers
    /// `tf` that the CPU held.
    pub open spec fn saved(self, state: State, tf: TrapFrame) -> Process {
        Process { trap_frame: Box::new(tf), state, ..self }
    }

    /// The process with the D, A, I and F masks clear in its saved `SPSR`, so
    /// that it runs with interrupts on.
    pub open spec fn unmasked(self) -> Process {
        Process {
            trap_frame: Box::new(
                TrapFrame { SPSR: self.trap_frame.SPSR & !SPSR_DAIF_MASK, ..*self.trap_frame },
            ),
            ..self
        }
    }

    /// The process put on the CPU: in state `Running`.
    pub open spec fn running(self) -> Process {
        Process { state: State::Running, ..self }
    }
}

impl Schedule {
    /// A scheduler without processes.
    pub open spec fn empty() -> Schedule {
        Schedule { processes: Seq::empty(), current: None, last_id: None }
    }

    /// The ID that the next process gets: 0 for the first, then one more than
    /// the last, and 0 again after the largest.
    pub open spec fn next_id(self) -> Id {
        match self.last_id {
            None => 0,
            Some(last) => if last == u64::MAX {
                0
            } else {
                (last + 1) as u64
            },
        }
    }

    /// The scheduler after `process` was added: it has the next ID in its
    /// trap frame and stands at the tail of the queue.
    pub open spec fn added(self, process: Process) -> Schedule {
        Schedule {
            processes: self.processes.push(process.with_id(self.next_id())),
            current: self.current,
            last_id: Some(self.next_id()),
        }
    }

    /// The scheduler after the process at the front was taken off the CPU:
    /// it is saved in state `state` with the registers `tf`, and stands at
    /// the tail of the queue.
    pub open spec fn retired(self, state: State, tf: TrapFrame) -> Schedule
        recommends
            self.processes.len() > 0,
    {
        Schedule {
            processes: self.processes.drop_first().push(self.processes[0].saved(state, tf)),
            current: Some(self.processes[0].id()),
            last_id: self.last_id,
        }
    }

    /// The index of the first process in the queue that can be scheduled at
    /// time `now`; the length of the queue if there is none.
    pub open spec fn first_ready(self, now: u64) -> int {
        first_ready_from(self.processes, now, 0)
    }

    /// Some process can be scheduled at time `now`.
    pub open spec fn some_ready(self, now: u64) -> bool {
        self.first_ready(now) < self.processes.len()
    }

    /// The ID of the process that is put on the CPU at time `now`: the first
    /// in the queue that can be scheduled then.
    pub open spec fn chosen(self, now: u64) -> Option<Id> {
        if self.some_ready(now) {
            Some(self.processes[self.first_ready(now)].id())
        } else {
            None
        }
    }

    /// The registers that the CPU is to hold after the scheduler chose at
    /// time `now`: those of the chosen process, or `tf` if none was chosen.
    pub open spec fn restored(self, tf: TrapFrame, now: u64) -> TrapFrame {
        if self.some_ready(now) {
            *self.processes[self.first_ready(now)].polled(now).trap_frame
        } else {
            tf
        }
    }

    /// The scheduler after it chose at time `now`. The chosen process runs
    /// and stands at the front; behind it stand those that followed it, then
    /// those that were passed over, each group in its old order. If no
    /// process can be scheduled, nothing changes.
    pub open spec fn dispatched(self, now: u64) -> Schedule {
        if self.some_ready(now) {
            let k = self.first_ready(now);
            let chosen = self.processes[k].polled(now);
            Schedule {
                processes: seq![chosen.running()] + self.processes.subrange(
                    k + 1,
                    self.processes.len() as int,
                ) + self.processes.subrange(0, k),
                current: Some(chosen.id()),
                last_id: self.last_id,
            }
        } else {
            self
        }
    }

    /// The scheduler after a context switch at time `now`: the process at the
    /// front is retired with `state` and `tf`, then the next one is chosen.
    /// Without processes there is nothing to switch.
    pub open spec fn switched(self, state: State, tf: TrapFrame, now: u64) -> Schedule {
        if self.processes.len() == 0 {
            self
        } else {
            self.retired(state, tf).dispatched(now)
        }
    }

    /// The ID of the process that a context switch at time `now` puts on the
    /// CPU.
    pub open spec fn switch_chosen(self, state: State, tf: TrapFrame, now: u64) -> Option<Id> {
        if self.processes.len() == 0 {
            None
        } else {
            self.retired(state, tf).chosen(now)
        }
    }

    /// The registers that the CPU is to hold after a context switch at time
    /// `now`.
    pub open spec fn switch_restored(self, state: State, tf: TrapFrame, now: u64) -> TrapFrame {
        if self.processes.len() == 0 {
            tf
        } else {
            self.retired(state, tf).restored(tf, now)
        }
    }
}

impl Schedule {
    /// No process is marked as running: the CPU waits for one to become
    /// ready.
    pub open spec fn idle(self) -> bool {
        forall|i: int|
            0 <= i < self.processes.len() ==> !((#[trigger] self.processes[i]).state is Running)
    }

    /// What holds of a scheduler at all times, as long as `switch` is handed
    /// the registers of the process at the front and a state other than
    /// `Running`:
    ///
    ///   * the IDs given out are 0, 1, 2, and so on, without a gap, and each
    ///     process in the queue holds one of them, no two the same;
    ///   * at most one process is marked as running, and it stands at the
    ///     front;
    ///   * `current` is `None` or the ID of a process in the queue.
    pub open spec fn inv(self) -> bool {
        let n = self.processes.len();
        &&& n <= u64::MAX
        &&& self.last_id == if n == 0 {
            None::<Id>
        } else {
            Some((n - 1) as u64)
        }
        &&& forall|i: int| 0 <= i < n ==> (#[trigger] self.processes[i]).id() < n
        &&& forall|i: int, j: int|
            0 <= i < j < n ==> (#[trigger] self.processes[i]).id() != (
            #[trigger] self.processes[j]).id()
        &&& forall|i: int| 0 < i < n ==> !((#[trigger] self.processes[i]).state is Running)
        &&& self.current matches Some(c) ==> exists|i: int|
            0 <= i < n && (#[trigger] self.processes[i]).id() == c
    }

    /// The scheduler that the kernel starts with. The process `first` is set
    /// up to start at `entry` with interrupts on and is added first. Each
    /// of `seeds` is a process with the address at which it starts; they are
    /// added after it in order.
    pub open spec fn booted(first: Process, entry: u64, seeds: Seq<(Process, u64)>) -> Schedule {
        Schedule::empty().added(first.launched(entry).unmasked()).added_all(launched_all(seeds))
    }

    /// The scheduler after one timer tick for each of `frames`, all at time
    /// `now`: at each tick the process at the front is retired as `Ready`
    /// with the next of `frames`, and the next process is chosen.
    pub open spec fn ticked(self, frames: Seq<TrapFrame>, now: u64) -> Schedule
        decreases frames.len(),
    {
        if frames.len() == 0 {
            self
        } else {
            self.ticked(frames.drop_last(), now).switched(State::Ready, frames.last(), now)
        }
    }

    /// The scheduler after the processes `processes` were added in order.
    pub open spec fn added_all(self, processes: Seq<Process>) -> Schedule
        decreases processes.len(),
    {
        if processes.len() == 0 {
            self
        } else {
            self.added_all(processes.drop_last()).added(processes.last())
        }
    }
}

/// Each process of `seeds` set up to start at the address that comes with it.
pub open spec fn launched_all(seeds: Seq<(Process, u64)>) -> Seq<Process> {
    Seq::new(seeds.len(), |i: int| seeds[i].0.launched(seeds[i].1))
}

/// Where the process at place `m` of a queue of length `n` stood before the
/// queue was turned so that place `k` came to the front.
pub open spec fn turned(m: int, k: int, n: int) -> int {
    if m + k < n {
        m + k
    } else {
        m + k - n
    }
}

/// `first_ready_from` finds the first process that can be scheduled: none
/// between `from` and its result can be, and the one at its result can,
/// unless the result is the length of the queue.
pub proof fn lemma_first_ready(queue: Seq<Process>, now: u64, from: int)
    requires
        0 <= from <= queue.len(),
    ensures
        from <= first_ready_from(queue, now, from) <= queue.len(),
        forall|j: int|
            from <= j < first_ready_from(queue, now, from) ==> !(#[trigger] queue[j]).ready_at(now),
        first_ready_from(queue, now, from) < queue.len() ==> queue[first_ready_from(
            queue,
            now,
            from,
        )].ready_at(now),
    decreases queue.len() - from,
{
    if from < queue.len() && !queue[from].ready_at(now) {
        lemma_first_ready(queue, now, from + 1);
    }
}

/// The scheduler chooses a process exactly when some process can be
/// scheduled, and then it chooses the first such in the queue. The queue is
/// turned so that the chosen process stands at the front: every other process
/// is as it was, also one that sleeps on.
pub proof fn lemma_dispatched(s: Schedule, now: u64)
    ensures
        s.some_ready(now) <==> exists|i: int|
            0 <= i < s.processes.len() && (#[trigger] s.processes[i]).ready_at(now),
        s.chosen(now) is Some <==> s.some_ready(now),
        0 <= s.first_ready(now) <= s.processes.len(),
        forall|j: int| 0 <= j < s.first_ready(now) ==> !(#[trigger] s.processes[j]).ready_at(now),
        s.some_ready(now) ==> s.processes[s.first_ready(now)].ready_at(now),
        s.dispatched(now).processes.len() == s.processes.len(),
        s.dispatched(now).last_id == s.last_id,
        s.some_ready(now) ==> {
            &&& s.dispatched(now).processes[0] == s.processes[s.first_ready(now)].polled(
                now,
            ).running()
            &&& s.dispatched(now).current == s.chosen(now)
            &&& forall|m: int|
                0 < m < s.processes.len() ==> #[trigger] s.dispatched(now).processes[m]
                    == s.processes[turned(m, s.first_ready(now), s.processes.len() as int)]
        },
        !s.some_ready(now) ==> s.dispatched(now) == s,
{
    lemma_first_ready(s.processes, now, 0);
}

/// A scheduler without processes is as it should be.
pub proof fn lemma_empty_inv()
    ensures
        Schedule::empty().inv(),
        Schedule::empty().idle(),
{
}

/// Adding a process keeps the scheduler as it should be, and gives the
/// process the number of processes before it as its ID. A process that is
/// marked as running can only be the first.
pub proof fn lemma_added_inv(s: Schedule, process: Process)
    requires
        s.inv(),
        s.processes.len() < u64::MAX,
        process.state is Running ==> s.processes.len() == 0,
    ensures
        s.added(process).inv(),
        s.next_id() == s.processes.len(),
        s.added(process).processes.last().id() == s.next_id(),
{
    let t = s.added(process);
    let n = s.processes.len() as int;
    assert forall|i: int| 0 <= i < n + 1 implies (#[trigger] t.processes[i]).id() < n + 1 by {
        if i < n {
            assert(t.processes[i] == s.processes[i]);
        }
    }
    assert forall|i: int, j: int| 0 <= i < j < n + 1 implies (#[trigger] t.processes[i]).id() != (
    #[trigger] t.processes[j]).id() by {
        assert(t.processes[i] == s.processes[i]);
        if j < n {
            assert(t.processes[j] == s.processes[j]);
        }
    }
    assert forall|i: int| 0 < i < n + 1 implies !((#[trigger] t.processes[i]).state is Running) by {
        if i < n {
            assert(t.processes[i] == s.processes[i]);
        }
    }
    if let Some(c) = s.current {
        let i = choose|i: int| 0 <= i < n && (#[trigger] s.processes[i]).id() == c;
        assert(t.processes[i] == s.processes[i]);
    }
}

/// Choosing a process while none is marked as running keeps the scheduler as
/// it should be. Afterwards the chosen process is the only one marked as
/// running; if none was chosen, none is.
pub proof fn lemma_dispatched_inv(s: Schedule, now: u64)
    requires
        s.inv(),
        s.idle(),
    ensures
        s.dispatched(now).inv(),
        s.chosen(now) is Some ==> s.dispatched(now).processes[0].state is Running,
        s.chosen(now) is None ==> s.dispatched(now).idle(),
{
    lemma_dispatched(s, now);
    if s.some_ready(now) {
        let t = s.dispatched(now);
        let n = s.processes.len() as int;
        let k = s.first_ready(now);
        assert forall|m: int| 0 <= m < n implies (#[trigger] t.processes[m]).id()
            == s.processes[turned(m, k, n)].id() by {
            if m > 0 {
                assert(t.processes[m] == s.processes[turned(m, k, n)]);
            }
        }
        assert forall|i: int| 0 <= i < n implies (#[trigger] t.processes[i]).id() < n by {
            assert(t.processes[i].id() == s.processes[turned(i, k, n)].id());
        }
        assert forall|i: int, j: int| 0 <= i < j < n implies (#[trigger] t.processes[i]).id() != (
        #[trigger] t.processes[j]).id() by {
            let a = turned(i, k, n);
            let b = turned(j, k, n);
            assert(t.processes[i].id() == s.processes[a].id());
            assert(t.processes[j].id() == s.processes[b].id());
            if a < b {
                assert(s.processes[a].id() != s.processes[b].id());
            } else {
                assert(s.processes[b].id() != s.processes[a].id());
            }
        }
        assert forall|i: int| 0 < i < n implies !((#[trigger] t.processes[i]).state is Running) by {
            assert(t.processes[i] == s.processes[turned(i, k, n)]);
        }
        assert(t.processes[0].id() == t.current->0);
    }
}

/// A context switch keeps the scheduler as it should be, when the registers
/// handed in are those of the process at the front, which hold its ID, and
/// the state handed in is not `Running`. Afterwards the chosen process is the
/// only one marked as running; if none was chosen, none is.
pub proof fn lemma_switched_inv(s: Schedule, state: State, tf: TrapFrame, now: u64)
    requires
        s.inv(),
        !(state is Running),
        s.processes.len() > 0 ==> tf.TPIDR == s.processes[0].id(),
    ensures
        s.switched(state, tf, now).inv(),
        s.processes.len() > 0 ==> s.retired(state, tf).inv() && s.retired(state, tf).idle(),
        s.switch_chosen(state, tf, now) is Some ==> s.switched(
            state,
            tf,
            now,
        ).processes[0].state is Running,
        s.switch_chosen(state, tf, now) is None ==> s.switched(state, tf, now).idle(),
{
    if s.processes.len() > 0 {
        let r = s.retired(state, tf);
        let n = s.processes.len() as int;
        assert forall|m: int| 0 <= m < n implies (#[trigger] r.processes[m]).id()
            == s.processes[turned(m, 1, n)].id() && !(r.processes[m].state is Running) by {
            if m < n - 1 {
                assert(r.processes[m] == s.processes[m + 1]);
            }
        }
        assert forall|i: int, j: int| 0 <= i < j < n implies (#[trigger] r.processes[i]).id() != (
        #[trigger] r.processes[j]).id() by {
            let a = turned(i, 1, n);
            let b = turned(j, 1, n);
            assert(r.processes[i].id() == s.processes[a].id());
            assert(r.processes[j].id() == s.processes[b].id());
            if a < b {
                assert(s.processes[a].id() != s.processes[b].id());
            } else {
                assert(s.processes[b].id() != s.processes[a].id());
            }
        }
        assert forall|i: int| 0 <= i < n implies (#[trigger] r.processes[i]).id() < n by {
            assert(r.processes[i].id() == s.processes[turned(i, 1, n)].id());
        }
        assert(r.processes[n - 1].id() == r.current->0);
        assert(r.inv());
        assert(r.idle());
        lemma_dispatched_inv(r, now);
    }
}

/// Processes added to a new scheduler get the IDs 0, 1, 2 and so on in the
/// order in which they are added, starting again at 0 after the largest ID,
/// and each holds its ID in its trap frame.
pub proof fn lemma_ids_count_up(processes: Seq<Process>, i: int)
    requires
        0 <= i < processes.len(),
    ensures
        Schedule::empty().added_all(processes.take(i)).next_id() == i % 0x1_0000_0000_0000_0000,
        Schedule::empty().added_all(processes).processes.len() == processes.len(),
        Schedule::empty().added_all(processes).processes[i] == processes[i].with_id(
            (i % 0x1_0000_0000_0000_0000) as u64,
        ),
        Schedule::empty().added_all(processes).processes[i].id() == i % 0x1_0000_0000_0000_0000,
{
    lemma_added_all(processes.take(i));
    lemma_added_all(processes);
}

proof fn lemma_added_all(processes: Seq<Process>)
    ensures
        Schedule::empty().added_all(processes).processes.len() == processes.len(),
        Schedule::empty().added_all(processes).next_id() == processes.len()
            % 0x1_0000_0000_0000_0000,
        Schedule::empty().added_all(processes).last_id is None <==> processes.len() == 0,
        forall|i: int|
            0 <= i < processes.len() ==> #[trigger] Schedule::empty().added_all(
                processes,
            ).processes[i] == processes[i].with_id((i % 0x1_0000_0000_0000_0000) as u64),
    decreases processes.len(),
{
    if processes.len() > 0 {
        let before = Schedule::empty().added_all(processes.drop_last());
        lemma_added_all(processes.drop_last());
        let after = before.added(processes.last());
        assert forall|i: int| 0 <= i < processes.len() implies #[trigger] after.processes[i]
            == processes[i].with_id((i % 0x1_0000_0000_0000_0000) as u64) by {
            if i < processes.len() - 1 {
                assert(after.processes[i] == before.processes[i]);
                assert(processes.drop_last()[i] == processes[i]);
            }
        }
    }
}

/// Round robin: while every process but the one on the CPU is ready, each
/// timer tick puts the next process of the queue on the CPU, and after the
/// last the first again. With `n` processes, tick `k` (counted from 0)
/// chooses the process that stood at place `(k + 1) % n` at the start. The
/// trap frame handed in at each tick holds the ID of the process that the
/// tick before it chose.
pub proof fn lemma_round_robin(s: Schedule, frames: Seq<TrapFrame>, now: u64, k: int)
    requires
        s.processes.len() > 0,
        forall|i: int| 0 < i < s.processes.len() ==> (#[trigger] s.processes[i]).state == State::Ready,
        forall|j: int|
            0 <= j < frames.len() ==> (#[trigger] frames[j]).TPIDR == s.processes[j % (
            s.processes.len() as int)].id(),
        0 <= k < frames.len(),
    ensures
        s.ticked(frames.take(k), now).switch_chosen(State::Ready, frames[k], now) == Some(
            s.processes[(k + 1) % (s.processes.len() as int)].id(),
        ),
        s.ticked(frames.take(k + 1), now).processes[0].id() == s.processes[(k + 1) % (
        s.processes.len() as int)].id(),
        s.ticked(frames.take(k + 1), now).processes[0].state == State::Running,
        s.ticked(frames.take(k + 1), now).processes.len() == s.processes.len(),
{
    lemma_ticked(s, frames, now, k);
    lemma_ticked(s, frames, now, k + 1);
    let n = s.processes.len() as int;
    let t = s.ticked(frames.take(k), now);
    lemma_next_place(k, n);
    lemma_tick(t, frames[k], now);
    assert(frames.take(k + 1).drop_last() =~= frames.take(k));
    if n > 1 {
        assert(t.processes[1].id() == s.processes[turned(1, k % n, n)].id());
    }
}

/// One step around a ring of `n` places.
proof fn lemma_next_place(k: int, n: int)
    requires
        0 <= k,
        0 < n,
    ensures
        0 <= k % n < n,
        (k + 1) % n == if k % n == n - 1 {
            0
        } else {
            k % n + 1
        },
{
    vstd::arithmetic::div_mod::lemma_fundamental_div_mod(k, n);
    vstd::arithmetic::div_mod::lemma_mod_bound(k, n);
    let q = k / n;
    let r = k % n;
    if r == n - 1 {
        assert(k + 1 == (q + 1) * n + 0) by (nonlinear_arith)
            requires
                k == n * q + r,
                r == n - 1,
        ;
        vstd::arithmetic::div_mod::lemma_fundamental_div_mod_converse(k + 1, n, q + 1, 0);
    } else {
        assert(k + 1 == q * n + (r + 1)) by (nonlinear_arith)
            requires
                k == n * q + r,
        ;
        vstd::arithmetic::div_mod::lemma_fundamental_div_mod_converse(k + 1, n, q, r + 1);
    }
}

/// A tick while every process behind the front is ready: the second process
/// comes to the front and runs, the one that ran goes to the tail and is
/// ready, and the others move up by one place.
proof fn lemma_tick(t: Schedule, tf: TrapFrame, now: u64)
    requires
        t.processes.len() > 0,
        forall|i: int| 0 < i < t.processes.len() ==> (#[trigger] t.processes[i]).state == State::Ready,
    ensures
        t.switched(State::Ready, tf, now).processes.len() == t.processes.len(),
        t.processes.len() == 1 ==> {
            &&& t.switch_chosen(State::Ready, tf, now) == Some(tf.TPIDR)
            &&& t.switched(State::Ready, tf, now).processes[0] == t.processes[0].saved(
                State::Ready,
                tf,
            ).running()
            &&& t.switch_restored(State::Ready, tf, now) == tf
        },
        t.processes.len() > 1 ==> {
            &&& t.switch_chosen(State::Ready, tf, now) == Some(t.processes[1].id())
            &&& t.switched(State::Ready, tf, now).processes[0] == t.processes[1].running()
            &&& t.switch_restored(State::Ready, tf, now) == *t.processes[1].trap_frame
            &&& t.switched(State::Ready, tf, now).processes.last() == t.processes[0].saved(
                State::Ready,
                tf,
            )
            &&& forall|m: int|
                0 < m < t.processes.len() - 1 ==> #[trigger] t.switched(
                    State::Ready,
                    tf,
                    now,
                ).processes[m] == t.processes[m + 1]
        },
{
    let r = t.retired(State::Ready, tf);
    let n = t.processes.len() as int;
    if n > 1 {
        assert(r.processes[0] == t.processes[1]);
    }
    assert(r.processes[0].ready_at(now));
    assert(r.first_ready(now) == 0);
    lemma_dispatched(r, now);
    let u = r.dispatched(now);
    if n > 1 {
        assert(u.processes[n - 1] == r.processes[turned(n - 1, 0, n)]);
        assert forall|m: int| 0 < m < n - 1 implies #[trigger] u.processes[m] == t.processes[m
            + 1] by {
            assert(u.processes[m] == r.processes[turned(m, 0, n)]);
            assert(r.processes[m] == t.processes[m + 1]);
        }
    }
}

/// After `k` ticks of round robin the queue has turned by `k` places: the
/// process at place `m` holds the ID that stood at place `m + k`, counted
/// around the ring, and every process behind the front is ready.
proof fn lemma_ticked(s: Schedule, frames: Seq<TrapFrame>, now: u64, k: int)
    requires
        s.processes.len() > 0,
        forall|i: int| 0 < i < s.processes.len() ==> (#[trigger] s.processes[i]).state == State::Ready,
        forall|j: int|
            0 <= j < frames.len() ==> (#[trigger] frames[j]).TPIDR == s.processes[j % (
            s.processes.len() as int)].id(),
        0 <= k <= frames.len(),
    ensures
        s.ticked(frames.take(k), now).processes.len() == s.processes.len(),
        forall|m: int|
            0 <= m < s.processes.len() ==> (#[trigger] s.ticked(
                frames.take(k),
                now,
            ).processes[m]).id() == s.processes[turned(
                m,
                k % (s.processes.len() as int),
                s.processes.len() as int,
            )].id(),
        forall|m: int|
            0 < m < s.processes.len() ==> (#[trigger] s.ticked(
                frames.take(k),
                now,
            ).processes[m]).state == State::Ready,
        k > 0 ==> s.ticked(frames.take(k), now).processes[0].state == State::Running,
    decreases k,
{
    let n = s.processes.len() as int;
    if k == 0 {
        assert(frames.take(0).len() == 0);
        vstd::arithmetic::div_mod::lemma_small_mod(0, n as nat);
    } else {
        lemma_ticked(s, frames, now, k - 1);
        lemma_next_place(k - 1, n);
        assert(frames.take(k).drop_last() =~= frames.take(k - 1));
        assert(frames.take(k).last() == frames[k - 1]);
        let t = s.ticked(frames.take(k - 1), now);
        let tf = frames[k - 1];
        let u = s.ticked(frames.take(k), now);
        assert(u == t.switched(State::Ready, tf, now));
        lemma_tick(t, tf, now);
        let p = (k - 1) % n;
        assert(tf.TPIDR == s.processes[p].id());
        assert(t.processes[0].id() == s.processes[turned(0, p, n)].id());
        assert forall|m: int| 0 <= m < n implies (#[trigger] u.processes[m]).id()
            == s.processes[turned(m, k % n, n)].id() by {
            if n > 1 {
                if m == 0 {
                    assert(t.processes[1].id() == s.processes[turned(1, p, n)].id());
                } else if m < n - 1 {
                    assert(u.processes[m] == t.processes[m + 1]);
                    assert(t.processes[m + 1].id() == s.processes[turned(m + 1, p, n)].id());
                } else {
                    assert(u.processes[m] == u.processes.last());
                }
            }
        }
        assert forall|m: int| 0 < m < n implies (#[trigger] u.processes[m]).state
            == State::Ready by {
            if m < n - 1 {
                assert(u.processes[m] == t.processes[m + 1]);
            } else {
                assert(u.processes[m] == u.processes.last());
            }
        }
    }
}

/// A process that cannot be scheduled at `now` is not chosen then. It stays
/// in the queue as it is.
pub proof fn lemma_not_ready_stays(s: Schedule, k: int, now: u64)
    requires
        0 <= k < s.processes.len(),
        !s.processes[k].ready_at(now),
    ensures
        s.first_ready(now) != k,
        s.dispatched(now).processes.contains(s.processes[k]),
{
    lemma_dispatched(s, now);
    if s.some_ready(now) {
        let n = s.processes.len() as int;
        let f = s.first_ready(now);
        let m = if k > f {
            k - f
        } else {
            k - f + n
        };
        assert(s.dispatched(now).processes[m] == s.processes[turned(m, f, n)]);
    }
}

/// A process that can be scheduled at some time can be scheduled at any later
/// time.
pub proof fn lemma_ready_later(p: Process, now: u64, later: u64)
    requires
        p.ready_at(now),
        now <= later,
    ensures
        p.ready_at(later),
{
}

/// A process that can be scheduled is chosen within one pass of the queue:
/// each context switch either chooses it or brings it at least one place
/// nearer to the front, as it is. At place `k` behind the front it is chosen
/// by the `k`-th switch at the latest.
pub proof fn lemma_ready_moves_up(s: Schedule, state: State, tf: TrapFrame, now: u64, k: int)
    requires
        0 < k < s.processes.len(),
        s.processes[k].ready_at(now),
    ensures
        s.switch_chosen(state, tf, now) is Some,
        ({
            let f = s.retired(state, tf).first_ready(now);
            &&& 0 <= f < k
            &&& f == k - 1 ==> s.switched(state, tf, now).processes[0] == s.processes[k].polled(
                now,
            ).running() && s.switch_chosen(state, tf, now) == Some(s.processes[k].id())
            &&& f < k - 1 ==> s.switched(state, tf, now).processes[k - 1 - f] == s.processes[k]
        }),
{
    let r = s.retired(state, tf);
    let n = s.processes.len() as int;
    assert(r.processes[k - 1] == s.processes[k]);
    lemma_dispatched(r, now);
    let f = r.first_ready(now);
    if f > k - 1 {
        assert(!r.processes[k - 1].ready_at(now));
    }
    if f < k - 1 {
        assert(r.dispatched(now).processes[k - 1 - f] == r.processes[turned(k - 1 - f, f, n)]);
    }
}

/// Adding processes of which none is marked as running keeps the scheduler
/// as it should be: each gets the number of processes before it as its
/// ID.
pub proof fn lemma_added_all_inv(s: Schedule, processes: Seq<Process>)
    requires
        s.inv(),
        s.processes.len() + processes.len() <= u64::MAX,
        forall|i: int| 0 <= i < processes.len() ==> !((#[trigger] processes[i]).state is Running),
    ensures
        s.added_all(processes).inv(),
        s.added_all(processes).current == s.current,
        s.added_all(processes).processes.len() == s.processes.len() + processes.len(),
        forall|i: int|
            0 <= i < s.processes.len() ==> #[trigger] s.added_all(processes).processes[i]
                == s.processes[i],
        forall|i: int|
            0 <= i < processes.len() ==> #[trigger] s.added_all(processes).processes[s.processes.len()
                + i] == processes[i].with_id((s.processes.len() + i) as u64),
    decreases processes.len(),
{
    if processes.len() > 0 {
        let before = s.added_all(processes.drop_last());
        lemma_added_all_inv(s, processes.drop_last());
        lemma_added_inv(before, processes.last());
        let after = before.added(processes.last());
        assert forall|i: int| 0 <= i < s.processes.len() implies #[trigger] after.processes[i]
            == s.processes[i] by {
            assert(after.processes[i] == before.processes[i]);
        }
        assert forall|i: int| 0 <= i < processes.len() implies #[trigger] after.processes[s.processes.len()
            + i] == processes[i].with_id((s.processes.len() + i) as u64) by {
            if i < processes.len() - 1 {
                assert(after.processes[s.processes.len() + i] == before.processes[s.processes.len()
                    + i]);
                assert(processes.drop_last()[i] == processes[i]);
            }
        }
    }
}

/// Each process that is added makes the queue longer by one.
pub proof fn lemma_added_all_len(s: Schedule, processes: Seq<Process>)
    ensures
        s.added_all(processes).processes.len() == s.processes.len() + processes.len(),
    decreases processes.len(),
{
    if processes.len() > 0 {
        lemma_added_all_len(s, processes.drop_last());
    }
}

/// The scheduler that the kernel starts with is as it should be, if no seed
/// is marked as running. The first process has ID 0 and the seeds have the
/// IDs 1, 2 and so on; no process has been put on the CPU yet.
pub proof fn lemma_booted_inv(first: Process, entry: u64, seeds: Seq<(Process, u64)>)
    requires
        Schedule::booted(first, entry, seeds).processes.len() <= u64::MAX,
        forall|i: int| 0 <= i < seeds.len() ==> !((#[trigger] seeds[i]).0.state is Running),
    ensures
        Schedule::booted(first, entry, seeds).inv(),
        Schedule::booted(first, entry, seeds).current is None,
        Schedule::booted(first, entry, seeds).processes.len() == seeds.len() + 1,
        Schedule::booted(first, entry, seeds).processes[0] == first.launched(
            entry,
        ).unmasked().with_id(0),
        forall|i: int|
            0 <= i < seeds.len() ==> #[trigger] Schedule::booted(first, entry, seeds).processes[1
                + i] == seeds[i].0.launched(seeds[i].1).with_id((1 + i) as u64),
{
    let started = first.launched(entry).unmasked();
    lemma_empty_inv();
    lemma_added_inv(Schedule::empty(), started);
    let one = Schedule::empty().added(started);
    lemma_added_all_len(one, launched_all(seeds));
    lemma_added_all_inv(one, launched_all(seeds));
    let all = one.added_all(launched_all(seeds));
    assert(all.processes[0] == one.processes[0]);
    assert forall|i: int| 0 <= i < seeds.len() implies #[trigger] all.processes[1 + i]
        == seeds[i].0.launched(seeds[i].1).with_id((1 + i) as u64) by {
        assert(all.processes[one.processes.len() + i] == launched_all(seeds)[i].with_id(
            (one.processes.len() + i) as u64,
        ));
    }
}

} // verus!
