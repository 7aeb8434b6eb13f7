use vstd::prelude::*;

verus! {

/// Where the run of an update through the middlewares and handlers stands.
#[derive(Debug, Clone, Copy, PartialEq, Eq)]
pub enum DispatchStep {
    /// Waiting for the answer of the middleware with this index: go on or not.
    Before(usize),
    /// Every middleware agreed; the handlers are to run.
    Handlers,
    /// The handlers ran; the middleware with this index is to be told.
    After(usize),
    /// Every middleware was told; the update is done with.
    Finished,
    /// A middleware refused the update; nothing more is run.
    Stopped,
    /// A middleware or a handler failed; nothing more is run and the
    /// dispatch gives back that error.
    Failed,
}

/// What the dispatcher is to do next for an update.
#[derive(Debug, Clone, Copy, PartialEq, Eq)]
pub enum DispatchAction {
    /// Ask the middleware with this index whether to go on.
    AskBefore(usize),
    /// Run all the event handlers.
    RunHandlers,
    /// Tell the middleware with this index that the handlers ran.
    TellAfter(usize),
    /// Nothing more to do.
    Done,
}

/// Whether every answer was "go on".
pub open spec fn all_agreed(answers: Seq<bool>) -> bool {
    forall|j: int| 0 <= j < answers.len() ==> #[trigger] answers[j]
}

/// The run of one update: first each middleware in order is asked whether
/// to go on, and the first refusal ends the run; when all agree, the
/// handlers run; then each middleware in order is told. An error from a
/// middleware or a handler ends the run too (the caller gives it back).
pub struct DispatchRun {
    step: DispatchStep,
    middlewares: usize,
    answers: Ghost<Seq<bool>>,
    handler_runs: Ghost<nat>,
    told: Ghost<nat>,
}

impl DispatchRun {
    /// Where the run stands.
    pub closed spec fn step(&self) -> DispatchStep {
        self.step
    }

    /// How many middlewares take part.
    pub closed spec fn middleware_count(&self) -> nat {
        self.middlewares as nat
    }

    /// The answers the middlewares gave so far, in order.
    pub closed spec fn answers(&self) -> Seq<bool> {
        self.answers@
    }

    /// How many times the handlers ran to completion in this run.
    pub closed spec fn handler_runs(&self) -> nat {
        self.handler_runs@
    }

    /// How many middlewares were told, after the handlers, that they ran.
    pub closed spec fn told(&self) -> nat {
        self.told@
    }

    /// Where a run with this many middlewares starts.
    pub open spec fn initial_step(middlewares: nat) -> DispatchStep {
        if middlewares == 0 {
            DispatchStep::Handlers
        } else {
            DispatchStep::Before(0)
        }
    }

    /// The step and the answers agree: a run is past the first middlewares
    /// only when they all agreed, and stopped only on a refusal.
    pub open spec fn wf(&self) -> bool {
        let n = self.middleware_count();
        let a = self.answers();
        let h = self.handler_runs();
        let t = self.told();
        match self.step() {
            DispatchStep::Before(i) => i < n && a.len() == i && all_agreed(a) && h == 0 && t == 0,
            DispatchStep::Handlers => a.len() == n && all_agreed(a) && h == 0 && t == 0,
            DispatchStep::After(i) => i < n && a.len() == n && all_agreed(a) && h == 1 && t == i,
            DispatchStep::Finished => a.len() == n && all_agreed(a) && h == 1 && t == n,
            DispatchStep::Stopped => 1 <= a.len() <= n && !a.last() && all_agreed(a.drop_last()) && h
                == 0 && t == 0,
            DispatchStep::Failed => a.len() <= n && all_agreed(a) && h <= 1 && t <= n && (t > 0 ==> h
                == 1) && (h == 1 ==> a.len() == n),
        }
    }

    /// What is to be done in a step.
    pub open spec fn action_of(step: DispatchStep) -> DispatchAction {
        match step {
            DispatchStep::Before(i) => DispatchAction::AskBefore(i),
            DispatchStep::Handlers => DispatchAction::RunHandlers,
            DispatchStep::After(i) => DispatchAction::TellAfter(i),
            DispatchStep::Finished => DispatchAction::Done,
            DispatchStep::Stopped => DispatchAction::Done,
            DispatchStep::Failed => DispatchAction::Done,
        }
    }

    /// Whether something is being run: a middleware asked or told, or the handlers.
    pub open spec fn is_running(step: DispatchStep) -> bool {
        step is Before || step is Handlers || step is After
    }

    /// The run of an update with this many middlewares.
    pub fn start(middlewares: usize) -> (r: Self)
        ensures
            r.wf(),
            r.middleware_count() == middlewares,
            r.answers() == Seq::<bool>::empty(),
            r.handler_runs() == 0,
            r.told() == 0,
            r.step() == Self::initial_step(middlewares as nat),
            middlewares > 0 ==> r.step() == DispatchStep::Before(0),
            middlewares == 0 ==> r.step() == DispatchStep::Handlers,
    {
        let step = if middlewares == 0 {
            DispatchStep::Handlers
        } else {
            DispatchStep::Before(0)
        };
        DispatchRun { step, middlewares, answers: Ghost(Seq::empty()), handler_runs: Ghost(0), told: Ghost(0) }
    }

    /// Where the run stands.
    pub fn current_step(&self) -> (r: DispatchStep)
        ensures
            r == self.step(),
    {
        self.step
    }

    /// What is to be done next.
    pub fn next_action(&self) -> (r: DispatchAction)
        ensures
            r == Self::action_of(self.step()),
    {
        match self.step {
            DispatchStep::Before(i) => DispatchAction::AskBefore(i),
            DispatchStep::Handlers => DispatchAction::RunHandlers,
            DispatchStep::After(i) => DispatchAction::TellAfter(i),
            DispatchStep::Finished => DispatchAction::Done,
            DispatchStep::Stopped => DispatchAction::Done,
            DispatchStep::Failed => DispatchAction::Done,
        }
    }

    /// Records that the middleware or the handlers being run failed: the
    /// run ends, and the caller gives the error back.
    pub fn failed(&mut self)
        requires
            old(self).wf(),
            Self::is_running(old(self).step()),
        ensures
            final(self).wf(),
            final(self).step() == DispatchStep::Failed,
            final(self).middleware_count() == old(self).middleware_count(),
            final(self).answers() == old(self).answers(),
            final(self).handler_runs() == old(self).handler_runs(),
            final(self).told() == old(self).told(),
    {
        self.step = DispatchStep::Failed;
    }

    /// Records the answer of the middleware that was asked.
    pub fn before_answered(&mut self, proceed: bool)
        requires
            old(self).wf(),
            old(self).step() is Before,
        ensures
            final(self).wf(),
            final(self).middleware_count() == old(self).middleware_count(),
            final(self).answers() == old(self).answers().push(proceed),
            final(self).handler_runs() == old(self).handler_runs(),
            final(self).told() == old(self).told(),
            final(self).step() == (if !proceed {
                DispatchStep::Stopped
            } else if old(self).answers().len() + 1 == old(self).middleware_count() {
                DispatchStep::Handlers
            } else {
                DispatchStep::Before((old(self).answers().len() + 1) as usize)
            }),
    {
        let ghost a = self.answers@.push(proceed);
        proof {
            assert(a.drop_last() =~= self.answers@);
        }
        let i = match self.step {
            DispatchStep::Before(i) => i,
            _ => 0,
        };
        self.answers = Ghost(a);
        if !proceed {
            self.step = DispatchStep::Stopped;
        } else if i + 1 == self.middlewares {
            self.step = DispatchStep::Handlers;
        } else {
            self.step = DispatchStep::Before(i + 1);
        }
    }

    /// Records that the handlers ran without error.
    pub fn handlers_finished(&mut self)
        requires
            old(self).wf(),
            old(self).step() is Handlers,
        ensures
            final(self).wf(),
            final(self).middleware_count() == old(self).middleware_count(),
            final(self).answers() == old(self).answers(),
            final(self).handler_runs() == old(self).handler_runs() + 1,
            final(self).told() == old(self).told(),
            final(self).step() == (if old(self).middleware_count() == 0 {
                DispatchStep::Finished
            } else {
                DispatchStep::After(0)
            }),
    {
        self.handler_runs = Ghost(self.handler_runs@ + 1);
        if self.middlewares == 0 {
            self.step = DispatchStep::Finished;
        } else {
            self.step = DispatchStep::After(0);
        }
    }

    /// Records that the middleware that was told returned without error.
    pub fn after_finished(&mut self)
        requires
            old(self).wf(),
            old(self).step() is After,
        ensures
            final(self).wf(),
            final(self).middleware_count() == old(self).middleware_count(),
            final(self).answers() == old(self).answers(),
            final(self).handler_runs() == old(self).handler_runs(),
            final(self).told() == old(self).told() + 1,
            final(self).step() == (match old(self).step() {
                DispatchStep::After(i) => if i + 1 == old(self).middleware_count() {
                    DispatchStep::Finished
                } else {
                    DispatchStep::After((i + 1) as usize)
                },
                _ => DispatchStep::Finished,
            }),
    {
        let i = match self.step {
            DispatchStep::After(i) => i,
            _ => 0,
        };
        self.told = Ghost(self.told@ + 1);
        if i + 1 == self.middlewares {
            self.step = DispatchStep::Finished;
        } else {
            self.step = DispatchStep::After(i + 1);
        }
    }
}

/// The handlers of an update run, and the middlewares are told about it,
/// only when every middleware agreed to go on.
pub proof fn lemma_handlers_only_when_all_agree(run: DispatchRun)
    requires
        run.wf(),
        run.step() is Handlers || run.step() is After || run.step() is Finished,
    ensures
        run.answers().len() == run.middleware_count(),
        all_agreed(run.answers()),
{
}

/// A run is stopped only because some middleware refused, and a stopped run
/// has nothing more to do.
pub proof fn lemma_stopped_means_refused(run: DispatchRun)
    requires
        run.wf(),
        run.step() is Stopped,
    ensures
        exists|j: int| 0 <= j < run.answers().len() && !#[trigger] run.answers()[j],
        DispatchRun::action_of(run.step()) == DispatchAction::Done,
{
    assert(!run.answers()[run.answers().len() - 1]);
}

/// A run neither stops nor asks another middleware once the first refusal
/// came: the answers hold at most one "no", and only as the last one.
pub proof fn lemma_at_most_one_refusal(run: DispatchRun)
    requires
        run.wf(),
    ensures
        forall|j: int| 0 <= j < run.answers().len() - 1 ==> #[trigger] run.answers()[j],
{
    let a = run.answers();
    assert forall|j: int| 0 <= j < a.len() - 1 implies #[trigger] a[j] by {
        if run.step() is Stopped {
            assert(a.drop_last()[j] == a[j]);
        }
    }
}

/// The order of a dispatch: the handlers run (once) only after every
/// middleware was asked in order and agreed; middlewares are told only
/// after the handlers ran, one after the other in order; a finished run
/// told every middleware once; a stopped run ran no handler and told no one.
pub proof fn lemma_dispatch_order(run: DispatchRun)
    requires
        run.wf(),
    ensures
        run.handler_runs() <= 1,
        run.handler_runs() == 1 ==> run.answers().len() == run.middleware_count() && all_agreed(
            run.answers(),
        ),
        run.step() is Handlers ==> run.handler_runs() == 0 && run.answers().len()
            == run.middleware_count() && all_agreed(run.answers()),
        run.told() > 0 ==> run.handler_runs() == 1,
        run.step() matches DispatchStep::After(i) ==> run.told() == i && run.handler_runs() == 1,
        run.step() is Finished ==> run.told() == run.middleware_count() && run.handler_runs() == 1,
        run.step() is Stopped ==> run.handler_runs() == 0 && run.told() == 0,
        run.step() matches DispatchStep::Before(i) ==> run.answers().len() == i && all_agreed(
            run.answers(),
        ),
{
}

/// The first error ends a run: a failed run has nothing more to do, and
/// no step of the run leads out of it (every step other than `failed`
/// requires a running step, and `failed` itself is only taken while
/// something runs). A failure while asking the middlewares leaves the
/// handlers unrun.
pub proof fn lemma_failure_ends_run(run: DispatchRun)
    requires
        run.wf(),
        run.step() is Failed,
    ensures
        DispatchRun::action_of(run.step()) == DispatchAction::Done,
        !DispatchRun::is_running(run.step()),
        run.handler_runs() <= 1,
        run.told() > 0 ==> run.handler_runs() == 1,
        run.handler_runs() == 1 ==> all_agreed(run.answers()) && run.answers().len()
            == run.middleware_count(),
{
}

/// A run starts by asking the first middleware, or, with no middleware,
/// by running the handlers; it never starts finished, stopped or failed,
/// and nothing has run or been told yet.
pub proof fn lemma_start_runs_something(middlewares: nat)
    ensures
        middlewares > 0 ==> DispatchRun::initial_step(middlewares) == DispatchStep::Before(0),
        middlewares == 0 ==> DispatchRun::initial_step(middlewares) == DispatchStep::Handlers,
        DispatchRun::is_running(DispatchRun::initial_step(middlewares)),
        DispatchRun::action_of(DispatchRun::initial_step(middlewares)) != DispatchAction::Done,
{
}

} // verus!
