//! The life cycle of one generation of producer tasks.
//!
//! A runtime owns the watcher and coordinator tasks that were started
//! together. It is shut down, reset and restarted as one unit. The tasks
//! themselves run elsewhere: the runtime keeps the books.

use vstd::prelude::*;

verus! {

/// One step of a restart, in the order in which the steps are made.
#[derive(Debug, Clone, Copy, PartialEq, Eq, Structural)]
pub enum RuntimeStep {
    /// Broadcast the cleanup signal and wait, up to the deadline, until the
    /// tasks have ended.
    Shutdown,
    /// Discard the task set and begin a new generation.
    Reset,
    /// Call the producer that was registered at this position.
    Start(usize),
}

/// The steps of a restart with `producers` registered producers: a shutdown,
/// a reset, then every producer in the order of registration.
pub open spec fn restart_steps(producers: nat) -> Seq<RuntimeStep> {
    seq![RuntimeStep::Shutdown, RuntimeStep::Reset] + Seq::new(
        producers,
        |i: int| RuntimeStep::Start(i as usize),
    )
}

/// Plans a restart with `producers` registered producers.
pub fn restart_producers(producers: usize) -> (steps: Vec<RuntimeStep>)
    ensures
        steps@ == restart_steps(producers as nat),
{
    let mut steps: Vec<RuntimeStep> = Vec::new();
    steps.push(RuntimeStep::Shutdown);
    steps.push(RuntimeStep::Reset);
    assert(steps@ =~= restart_steps(0));
    let mut i: usize = 0;
    while i < producers
        invariant
            i <= producers,
            steps@ == restart_steps(i as nat),
        decreases producers - i,
    {
        steps.push(RuntimeStep::Start(i));
        assert(steps@ =~= restart_steps((i + 1) as nat));
        i += 1;
    }
    steps
}

/// How a shutdown ended.
#[derive(Debug, PartialEq, Eq)]
pub enum ShutdownOutcome {
    /// Every task has ended.
    Clean,
    /// The deadline passed with these tasks still running. This is worth a
    /// warning; a reset goes ahead all the same.
    TimedOut { running: Vec<u64> },
}

/// The state of a runtime, as mathematical values.
pub ghost struct RuntimeView {
    /// How many resets the runtime has seen.
    pub generation: u64,
    /// The tasks of this generation that have not ended, in the order in
    /// which they were started.
    pub tasks: Seq<u64>,
    /// How many tasks this generation has started.
    pub started: u64,
    /// Whether the cleanup signal was broadcast to this generation.
    pub stopping: bool,
}

/// The tasks of one generation.
#[derive(Debug)]
pub struct ProducerRuntime {
    generation: u64,
    tasks: Vec<u64>,
    started: u64,
    stopping: bool,
}

impl View for ProducerRuntime {
    type V = RuntimeView;

    closed spec fn view(&self) -> RuntimeView {
        RuntimeView {
            generation: self.generation,
            tasks: self.tasks@,
            started: self.started,
            stopping: self.stopping,
        }
    }
}

impl RuntimeView {
    /// The runtime after a reset: a fresh, empty task set in the next
    /// generation. The count of generations wraps around.
    pub open spec fn reset(self) -> RuntimeView {
        RuntimeView {
            generation: if self.generation == u64::MAX {
                0
            } else {
                (self.generation + 1) as u64
            },
            tasks: Seq::empty(),
            started: 0,
            stopping: false,
        }
    }
}

impl ProducerRuntime {
    /// Every running task was started by this generation, and no task runs
    /// twice.
    #[verifier::type_invariant]
    closed spec fn wf(&self) -> bool {
        &&& self.tasks@.no_duplicates()
        &&& forall|i: int| 0 <= i < self.tasks@.len() ==> self.tasks@[i] < self.started
    }

    /// A runtime in its first generation, without tasks.
    pub fn new() -> (runtime: ProducerRuntime)
        ensures
            runtime@ == (RuntimeView {
                generation: 0,
                tasks: Seq::empty(),
                started: 0,
                stopping: false,
            }),
    {
        ProducerRuntime { generation: 0, tasks: Vec::new(), started: 0, stopping: false }
    }

    /// The generation that the runtime is in.
    pub fn generation(&self) -> (generation: u64)
        ensures
            generation == self@.generation,
    {
        self.generation
    }

    /// The tasks that have not ended.
    pub fn running(&self) -> (tasks: Vec<u64>)
        ensures
            tasks@ == self@.tasks,
            tasks@.no_duplicates(),
    {
        proof {
            use_type_invariant(self);
        }
        self.tasks.clone()
    }

    /// Takes a new task into the generation and names it. A runtime that is
    /// shutting down takes none, nor does one that has named every task it
    /// can.
    pub fn spawn(&mut self) -> (task: Option<u64>)
        ensures
            task == if old(self)@.stopping || old(self)@.started == u64::MAX {
                None::<u64>
            } else {
                Some(old(self)@.started)
            },
            final(self)@ == if task is Some {
                RuntimeView {
                    tasks: old(self)@.tasks.push(old(self)@.started),
                    started: (old(self)@.started + 1) as u64,
                    ..old(self)@
                }
            } else {
                old(self)@
            },
    {
        proof {
            use_type_invariant(&*self);
        }
        if self.stopping || self.started == u64::MAX {
            return None;
        }
        let mut taken = ProducerRuntime::new();
        core::mem::swap(self, &mut taken);
        let ProducerRuntime { generation, tasks, started, stopping } = taken;
        let mut tasks = tasks;
        tasks.push(started);
        *self = ProducerRuntime { generation, tasks, started: started + 1, stopping };
        Some(started)
    }

    /// Begins a shutdown: from now on no task is taken. Returns the tasks
    /// that the cleanup signal goes to.
    pub fn shutdown(&mut self) -> (signalled: Vec<u64>)
        ensures
            final(self)@ == (RuntimeView { stopping: true, ..old(self)@ }),
            signalled@ == old(self)@.tasks,
    {
        proof {
            use_type_invariant(&*self);
        }
        let mut taken = ProducerRuntime::new();
        core::mem::swap(self, &mut taken);
        let ProducerRuntime { generation, tasks, started, stopping: _ } = taken;
        let signalled = tasks.clone();
        *self = ProducerRuntime { generation, tasks, started, stopping: true };
        signalled
    }

    /// Notes that `task` has ended.
    pub fn task_exited(&mut self, task: u64)
        ensures
            final(self)@ == (RuntimeView {
                tasks: old(self)@.tasks.filter(|t: u64| t != task),
                ..old(self)@
            }),
            !final(self)@.tasks.contains(task),
    {
        proof {
            use_type_invariant(&*self);
        }
        let mut taken = ProducerRuntime::new();
        core::mem::swap(self, &mut taken);
        let ProducerRuntime { generation, tasks, started, stopping } = taken;
        let ghost differs = |t: u64| t != task;
        let mut left: Vec<u64> = Vec::new();
        let mut i: usize = 0;
        assert(tasks@.take(0) =~= Seq::<u64>::empty());
        while i < tasks.len()
            invariant
                i <= tasks.len(),
                left@ == tasks@.take(i as int).filter(|t: u64| t != task),
            decreases tasks.len() - i,
        {
            proof {
                assert(tasks@.take(i + 1) =~= tasks@.take(i as int).push(tasks@[i as int]));
                tasks@.take(i as int).lemma_filter_push(tasks@[i as int], |t: u64| t != task);
            }
            if tasks[i] != task {
                left.push(tasks[i]);
            }
            i += 1;
        }
        proof {
            assert(tasks@.take(tasks@.len() as int) =~= tasks@);
            let kept = tasks@.filter(differs);
            assert forall|k: int| 0 <= k < kept.len() implies #[trigger] kept[k] != task
                && kept[k] < started && tasks@.contains(kept[k]) by {
                tasks@.lemma_filter_pred(differs, k);
                assert(kept.contains(kept[k]));
                tasks@.lemma_filter_contains_rev(differs, kept[k]);
            }
            lemma_filter_distinct(tasks@, differs);
        }
        *self = ProducerRuntime { generation, tasks: left, started, stopping };
    }

    /// How the shutdown stands at the deadline.
    pub fn shutdown_outcome(&self) -> (outcome: ShutdownOutcome)
        ensures
            outcome is Clean <==> self@.tasks.len() == 0,
            outcome matches ShutdownOutcome::TimedOut { running } ==> running@ == self@.tasks,
    {
        if self.tasks.len() == 0 {
            ShutdownOutcome::Clean
        } else {
            ShutdownOutcome::TimedOut { running: self.tasks.clone() }
        }
    }

    /// Discards the task set and begins the next generation, whether or not
    /// every task has ended.
    pub fn reset(&mut self)
        ensures
            final(self)@ == old(self)@.reset(),
    {
        let generation = if self.generation == u64::MAX {
            0
        } else {
            self.generation + 1
        };
        *self = ProducerRuntime { generation, tasks: Vec::new(), started: 0, stopping: false };
    }
}

/// A filter leaves distinct numbers distinct.
proof fn lemma_filter_distinct(list: Seq<u64>, keep: spec_fn(u64) -> bool)
    requires
        list.no_duplicates(),
    ensures
        list.filter(keep).no_duplicates(),
    decreases list.len(),
{
    if list.len() == 0 {
        assert(list.filter(keep) =~= list);
    } else {
        let front = list.drop_last();
        let last = list.last();
        assert(list =~= front.push(last));
        front.lemma_filter_push(last, keep);
        lemma_filter_distinct(front, keep);
        if keep(last) {
            let kept = front.filter(keep);
            assert forall|k: int| 0 <= k < kept.len() implies kept[k] != last by {
                assert(kept.contains(kept[k]));
                front.lemma_filter_contains_rev(keep, kept[k]);
                let at = choose|at: int| 0 <= at < front.len() && front[at] == kept[k];
                assert(list[at] == kept[k]);
                assert(list[list.len() - 1] == last);
            }
        }
    }
}

} // verus!
