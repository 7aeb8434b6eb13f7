//! A dispatcher that runs, for every update, the global middlewares around
//! all handlers and each handler's own middlewares around that handler.
use vstd::prelude::*;

verus! {

/// One stage of the handling of an update.
#[derive(Debug, Clone, Copy, PartialEq, Eq)]
pub enum Stage {
    /// The global middlewares run before everything else.
    GlobalBefore,
    /// The middlewares of the handler with this index run before it.
    HandlerBefore(usize),
    /// The handler with this index handles the update.
    Handle(usize),
    /// The middlewares of the handler with this index run after it.
    HandlerAfter(usize),
    /// The global middlewares run after everything else.
    GlobalAfter,
}

/// The stages of the first `n` handlers, in order.
pub open spec fn handler_stages(n: nat) -> Seq<Stage>
    decreases n,
{
    if n == 0 {
        Seq::empty()
    } else {
        let i = (n - 1) as usize;
        handler_stages((n - 1) as nat) + seq![Stage::HandlerBefore(i), Stage::Handle(i), Stage::HandlerAfter(i)]
    }
}

/// The stages of the handling of an update with `n` handlers.
pub open spec fn schedule_spec(n: nat) -> Seq<Stage> {
    seq![Stage::GlobalBefore] + handler_stages(n) + seq![Stage::GlobalAfter]
}

/// Handles every update in stages: the global middlewares before, then
/// each handler in order wrapped in its own middlewares, then the global
/// middlewares after. The first error ends the handling.
pub struct EventDispatcher<H, M> {
    handlers: Vec<H>,
    middlewares: Vec<M>,
}

impl<H, M> EventDispatcher<H, M> {
    /// The handlers, in order.
    pub closed spec fn handler_list(&self) -> Seq<H> {
        self.handlers@
    }

    /// The global middlewares, in order.
    pub closed spec fn middleware_list(&self) -> Seq<M> {
        self.middlewares@
    }

    /// A dispatcher with no handlers and no middlewares.
    pub fn new() -> (r: Self)
        ensures
            r.handler_list() == Seq::<H>::empty(),
            r.middleware_list() == Seq::<M>::empty(),
    {
        EventDispatcher { handlers: Vec::new(), middlewares: Vec::new() }
    }

    /// Adds a handler after the ones added before.
    pub fn register_handler(&mut self, handler: H)
        ensures
            final(self).handler_list() == old(self).handler_list().push(handler),
            final(self).middleware_list() == old(self).middleware_list(),
    {
        self.handlers.push(handler);
    }

    /// Adds a global middleware after the ones added before.
    pub fn register_middleware(&mut self, middleware: M)
        ensures
            final(self).handler_list() == old(self).handler_list(),
            final(self).middleware_list() == old(self).middleware_list().push(middleware),
    {
        self.middlewares.push(middleware);
    }

    /// The handlers, in order.
    pub fn handlers(&self) -> (r: &Vec<H>)
        ensures
            r@ == self.handler_list(),
    {
        &self.handlers
    }

    /// The global middlewares, in order.
    pub fn middlewares(&self) -> (r: &Vec<M>)
        ensures
            r@ == self.middleware_list(),
    {
        &self.middlewares
    }

    /// The stages of the handling of an update, in the order they run.
    pub fn schedule(&self) -> (r: Vec<Stage>)
        ensures
            r@ == schedule_spec(self.handler_list().len()),
    {
        let mut out: Vec<Stage> = Vec::new();
        out.push(Stage::GlobalBefore);
        let n = self.handlers.len();
        let mut i: usize = 0;
        while i < n
            invariant
                n == self.handler_list().len(),
                i <= n,
                out@ == seq![Stage::GlobalBefore] + handler_stages(i as nat),
            decreases n - i,
        {
            out.push(Stage::HandlerBefore(i));
            out.push(Stage::Handle(i));
            out.push(Stage::HandlerAfter(i));
            assert(handler_stages((i + 1) as nat) == handler_stages(i as nat) + seq![
                Stage::HandlerBefore(i),
                Stage::Handle(i),
                Stage::HandlerAfter(i),
            ]);
            assert(out@ =~= seq![Stage::GlobalBefore] + handler_stages((i + 1) as nat));
            i = i + 1;
        }
        out.push(Stage::GlobalAfter);
        assert(out@ =~= schedule_spec(n as nat));
        out
    }
}

impl<H, M> Default for EventDispatcher<H, M> {
    fn default() -> (r: Self)
        ensures
            r.handler_list() == Seq::<H>::empty(),
            r.middleware_list() == Seq::<M>::empty(),
    {
        Self::new()
    }
}

/// Every handler runs exactly once, in order, directly wrapped in its own
/// middlewares: for handler `i` the stages at `3i + 1`, `3i + 2` and
/// `3i + 3` are its middlewares before, its handling and its middlewares
/// after; the global middlewares come first and last.
pub proof fn lemma_schedule_layout(n: nat)
    ensures
        schedule_spec(n).len() == 3 * n + 2,
        schedule_spec(n)[0] == Stage::GlobalBefore,
        schedule_spec(n)[(3 * n + 1) as int] == Stage::GlobalAfter,
        forall|i: int|
            0 <= i < n ==> {
                &&& #[trigger] schedule_spec(n)[3 * i + 1] == Stage::HandlerBefore(i as usize)
                &&& schedule_spec(n)[3 * i + 2] == Stage::Handle(i as usize)
                &&& schedule_spec(n)[3 * i + 3] == Stage::HandlerAfter(i as usize)
            },
{
    lemma_handler_stages_layout(n);
    let s = schedule_spec(n);
    let h = handler_stages(n);
    assert forall|i: int| 0 <= i < n implies {
        &&& #[trigger] s[3 * i + 1] == Stage::HandlerBefore(i as usize)
        &&& s[3 * i + 2] == Stage::Handle(i as usize)
        &&& s[3 * i + 3] == Stage::HandlerAfter(i as usize)
    } by {
        assert(s[3 * i + 1] == h[3 * i]);
        assert(s[3 * i + 2] == h[3 * i + 1]);
        assert(s[3 * i + 3] == h[3 * i + 2]);
    }
}

proof fn lemma_handler_stages_layout(n: nat)
    ensures
        handler_stages(n).len() == 3 * n,
        forall|i: int|
            0 <= i < n ==> {
                &&& #[trigger] handler_stages(n)[3 * i] == Stage::HandlerBefore(i as usize)
                &&& handler_stages(n)[3 * i + 1] == Stage::Handle(i as usize)
                &&& handler_stages(n)[3 * i + 2] == Stage::HandlerAfter(i as usize)
            },
    decreases n,
{
    if n > 0 {
        let m = (n - 1) as nat;
        lemma_handler_stages_layout(m);
        let prev = handler_stages(m);
        let cur = handler_stages(n);
        assert forall|i: int| 0 <= i < n implies {
            &&& #[trigger] cur[3 * i] == Stage::HandlerBefore(i as usize)
            &&& cur[3 * i + 1] == Stage::Handle(i as usize)
            &&& cur[3 * i + 2] == Stage::HandlerAfter(i as usize)
        } by {
            if i < m {
                assert(cur[3 * i] == prev[3 * i]);
                assert(cur[3 * i + 1] == prev[3 * i + 1]);
                assert(cur[3 * i + 2] == prev[3 * i + 2]);
            }
        }
    }
}

} // verus!
