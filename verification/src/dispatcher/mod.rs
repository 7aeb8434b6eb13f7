//! Dispatching updates: to an open conversation, or through the
//! middlewares to every event handler.
pub mod builder;
pub mod run;

use vstd::prelude::*;
use std::sync::Arc;

use crate::middleware::MiddlewareContainer;
use crate::shared::share;

pub use builder::EventDispatcherBuilder;
pub use run::{DispatchAction, DispatchRun, DispatchStep};

verus! {

/// What the dispatcher needs to know of an update to route it.
#[derive(Debug, Clone, Copy, PartialEq, Eq)]
pub enum UpdateKind {
    /// A new message in the chat with this id.
    NewMessage { chat: i64 },
    /// A callback query from the chat with this id.
    CallbackQuery { chat: i64 },
    /// Any other update.
    Other,
}

/// The chat whose conversation an update may belong to: none when no
/// conversation is open at all, or when the update is neither a message
/// nor a callback query.
pub open spec fn conversation_chat_spec(conversations_empty: bool, update: UpdateKind) -> Option<i64> {
    if conversations_empty {
        None
    } else {
        match update {
            UpdateKind::NewMessage { chat } => Some(chat),
            UpdateKind::CallbackQuery { chat } => Some(chat),
            UpdateKind::Other => None,
        }
    }
}

/// The chat whose open conversation should receive the update, if that
/// chat has one; the caller then forwards the update there and nothing
/// else sees it.
pub fn conversation_chat(conversations_empty: bool, update: &UpdateKind) -> (r: Option<i64>)
    ensures
        r == conversation_chat_spec(conversations_empty, *update),
        conversations_empty ==> r is None,
        !conversations_empty ==> (*update matches UpdateKind::NewMessage { chat } ==> r == Some(chat)),
        !conversations_empty ==> (*update matches UpdateKind::CallbackQuery { chat } ==> r == Some(
            chat,
        )),
        *update is Other ==> r is None,
{
    if conversations_empty {
        return None;
    }
    match update {
        UpdateKind::NewMessage { chat } => Some(*chat),
        UpdateKind::CallbackQuery { chat } => Some(*chat),
        UpdateKind::Other => None,
    }
}

/// The parts a dispatcher shares between the tasks that handle updates.
pub struct EventDispatcherInner<H, M> {
    handlers: Vec<H>,
    middlewares: MiddlewareContainer<M>,
}

/// Routes every update: to the open conversation of its chat, or else
/// through the middlewares to all event handlers. Copies share the same
/// handlers and middlewares.
pub struct EventDispatcher<H, M> {
    inner: Arc<EventDispatcherInner<H, M>>,
}

impl<H, M> EventDispatcher<H, M> {
    /// The event handlers, in order.
    pub closed spec fn handler_list(&self) -> Seq<H> {
        self.inner.handlers@
    }

    /// The middlewares, in the order they run.
    pub closed spec fn middleware_list(&self) -> Seq<M> {
        self.inner.middlewares.members()
    }

    /// A dispatcher with no handlers and no middlewares.
    pub fn new() -> (r: Self)
        ensures
            r.handler_list() == Seq::<H>::empty(),
            r.middleware_list() == Seq::<M>::empty(),
    {
        Self::with_parts(Vec::new(), Vec::new())
    }

    pub(crate) fn with_parts(handlers: Vec<H>, middlewares: Vec<M>) -> (r: Self)
        ensures
            r.handler_list() == handlers@,
            r.middleware_list() == middlewares@,
    {
        EventDispatcher {
            inner: Arc::new(
                EventDispatcherInner { handlers, middlewares: MiddlewareContainer::new(middlewares) },
            ),
        }
    }

    /// A builder with no handlers and no middlewares.
    pub fn builder() -> (r: EventDispatcherBuilder<H, M>)
        ensures
            r.handler_list() == Seq::<H>::empty(),
            r.middleware_list() == Seq::<M>::empty(),
    {
        EventDispatcherBuilder::new()
    }

    /// The event handlers, in order.
    pub fn handlers(&self) -> (r: &Vec<H>)
        ensures
            r@ == self.handler_list(),
    {
        &self.inner.handlers
    }

    /// The middlewares.
    pub fn middlewares(&self) -> (r: &MiddlewareContainer<M>)
        ensures
            r.members() == self.middleware_list(),
    {
        &self.inner.middlewares
    }

    /// The run of one update through the middlewares and handlers.
    pub fn start_run(&self) -> (r: DispatchRun)
        ensures
            r.wf(),
            r.middleware_count() == self.middleware_list().len(),
            r.answers() == Seq::<bool>::empty(),
            r.handler_runs() == 0,
            r.told() == 0,
            r.step() == DispatchRun::initial_step(self.middleware_list().len()),
    {
        DispatchRun::start(self.inner.middlewares.len())
    }
}

impl<H, M> Clone for EventDispatcher<H, M> {
    fn clone(&self) -> (r: Self)
        ensures
            r.handler_list() == self.handler_list(),
            r.middleware_list() == self.middleware_list(),
    {
        EventDispatcher { inner: share(&self.inner) }
    }
}

impl<H, M> Default for EventDispatcher<H, M> {
    fn default() -> (r: Self)
        ensures
            r.handler_list() == Seq::<H>::empty(),
            r.middleware_list() == Seq::<M>::empty(),
    {
        Self::new()
    }
}

/// While any conversation is open, every new message and every callback
/// query is checked against the open conversation of its own chat,
/// whatever the chat's id; other updates, and every update while no
/// conversation is open, are never routed to a conversation.
pub proof fn lemma_conversation_routing(chat: i64)
    ensures
        conversation_chat_spec(false, UpdateKind::NewMessage { chat }) == Some(chat),
        conversation_chat_spec(false, UpdateKind::CallbackQuery { chat }) == Some(chat),
        conversation_chat_spec(true, UpdateKind::NewMessage { chat }) == None::<i64>,
        conversation_chat_spec(true, UpdateKind::CallbackQuery { chat }) == None::<i64>,
        conversation_chat_spec(false, UpdateKind::Other) == None::<i64>,
{
}

} // verus!
