//! What the dispatchers and the event loop share: the command channel, the
//! queue of main-thread tasks, the reply channels, the slots for declared
//! windows, and the registries of listeners.

use crate::message::{CreateWebviewHandler, Message, Reply, ReplyId};
use crate::webview::PendingWindow;
use crate::window::{Callback, ListenerId};
use vstd::prelude::*;

verus! {

/// The sending end of the command channel, with the messages that are under
/// way: first in, first out.
pub struct EventLoopProxy {
    queue: Vec<Message>,
    open: bool,
}

impl EventLoopProxy {
    /// The messages under way, oldest first.
    pub closed spec fn messages(&self) -> Seq<Message> {
        self.queue@
    }

    /// Whether the event loop still exists.
    pub closed spec fn is_open(&self) -> bool {
        self.open
    }

    /// The channel of a new event loop: open, with nothing under way.
    pub fn new() -> (proxy: EventLoopProxy)
        ensures
            proxy.is_open(),
            proxy.messages() == Seq::<Message>::empty(),
    {
        EventLoopProxy { queue: Vec::new(), open: true }
    }

    /// Sends a message to the event loop. While the loop exists the message
    /// joins the queue behind all earlier ones; once it is gone the message
    /// comes back as the error and nothing changes.
    pub fn send_event(&mut self, event: Message) -> (r: Result<(), Message>)
        ensures
            old(self).is_open() ==> r is Ok && final(self).is_open() && final(self).messages()
                == old(self).messages().push(event),
            !old(self).is_open() ==> r == Err::<(), Message>(event) && *final(self) == *old(self),
    {
        if self.open {
            self.queue.push(event);
            Ok(())
        } else {
            Err(event)
        }
    }

    /// Takes the oldest message under way, if there is one.
    pub fn next_event(&mut self) -> (event: Option<Message>)
        ensures
            final(self).is_open() == old(self).is_open(),
            old(self).messages().len() == 0 ==> event is None && final(self).messages() == old(
                self,
            ).messages(),
            old(self).messages().len() > 0 ==> event == Some(old(self).messages()[0])
                && final(self).messages() == old(self).messages().drop_first(),
    {
        if self.queue.len() == 0 {
            None
        } else {
            let event = self.queue.remove(0);
            assert(self.queue@ =~= old(self).queue@.drop_first());
            Some(event)
        }
    }

    /// Whether the event loop still exists.
    pub fn is_open_now(&self) -> (open: bool)
        ensures
            open == self.is_open(),
    {
        self.open
    }

    /// Whether a message is under way.
    pub fn has_event(&self) -> (b: bool)
        ensures
            b == (self.messages().len() > 0),
    {
        self.queue.len() > 0
    }

    /// Marks the event loop as gone. What is under way stays where it is and
    /// is never delivered.
    pub fn close(&mut self)
        ensures
            !final(self).is_open(),
            final(self).messages() == old(self).messages(),
    {
        self.open = false;
    }
}

/// The sending end of the queue of main-thread tasks, with the tasks that
/// wait: first in, first out.
pub struct TaskSender {
    queue: Vec<Callback>,
    open: bool,
}

impl TaskSender {
    /// The tasks that wait, oldest first.
    pub closed spec fn tasks(&self) -> Seq<Callback> {
        self.queue@
    }

    /// Whether the runtime that drains the queue still exists.
    pub closed spec fn is_open(&self) -> bool {
        self.open
    }

    /// The queue of a new runtime: open and empty.
    pub fn new() -> (sender: TaskSender)
        ensures
            sender.is_open(),
            sender.tasks() == Seq::<Callback>::empty(),
    {
        TaskSender { queue: Vec::new(), open: true }
    }

    /// Queues a task behind all earlier ones; once the runtime is gone the
    /// task comes back as the error and nothing changes.
    pub fn send(&mut self, task: Callback) -> (r: Result<(), Callback>)
        ensures
            old(self).is_open() ==> r is Ok && final(self).is_open() && final(self).tasks() == old(
                self,
            ).tasks().push(task),
            !old(self).is_open() ==> r == Err::<(), Callback>(task) && *final(self) == *old(self),
    {
        if self.open {
            self.queue.push(task);
            Ok(())
        } else {
            Err(task)
        }
    }

    /// Takes every task that waits, oldest first, and leaves the queue empty.
    pub fn drain(&mut self) -> (tasks: Vec<Callback>)
        ensures
            tasks@ == old(self).tasks(),
            final(self).tasks() == Seq::<Callback>::empty(),
            final(self).is_open() == old(self).is_open(),
    {
        let mut tasks: Vec<Callback> = Vec::new();
        tasks.append(&mut self.queue);
        assert(tasks@ =~= old(self).queue@);
        tasks
    }

    /// Marks the runtime as gone.
    pub fn close(&mut self)
        ensures
            !final(self).is_open(),
            final(self).tasks() == old(self).tasks(),
    {
        self.open = false;
    }
}

/// The listeners of one kind of event: each registered identity once, in
/// the order of registration, which is the order in which a step names
/// them to be told.
pub struct Listeners {
    ids: Vec<ListenerId>,
}

impl View for Listeners {
    type V = Seq<ListenerId>;

    closed spec fn view(&self) -> Seq<ListenerId> {
        self.ids@
    }
}

impl Listeners {
    /// No identity is registered twice.
    pub open spec fn wf(&self) -> bool {
        self@.no_duplicates()
    }

    /// The registry with `id` in it: unchanged where `id` is registered
    /// already.
    pub open spec fn with(ids: Seq<ListenerId>, id: ListenerId) -> Seq<ListenerId> {
        if ids.contains(id) {
            ids
        } else {
            ids.push(id)
        }
    }

    /// An empty registry.
    pub fn new() -> (listeners: Listeners)
        ensures
            listeners.wf(),
            listeners@ == Seq::<ListenerId>::empty(),
    {
        Listeners { ids: Vec::new() }
    }

    /// Whether `id` is registered.
    pub fn contains(&self, id: ListenerId) -> (found: bool)
        ensures
            found == self@.contains(id),
    {
        let mut i: usize = 0;
        while i < self.ids.len()
            invariant
                i <= self.ids@.len(),
                forall|j: int| 0 <= j < i ==> self.ids@[j] != id,
            decreases self.ids@.len() - i,
        {
            if self.ids[i] == id {
                return true;
            }
            i = i + 1;
        }
        false
    }

    /// Registers `id`. An identity that is registered already stays
    /// registered once.
    pub fn insert(&mut self, id: ListenerId)
        requires
            old(self).wf(),
        ensures
            final(self).wf(),
            final(self)@ == Listeners::with(old(self)@, id),
    {
        if !self.contains(id) {
            self.ids.push(id);
        }
    }

    /// The registered identities, in the order of registration.
    pub fn ids(&self) -> (ids: Vec<ListenerId>)
        ensures
            ids@ == self@,
    {
        let mut ids: Vec<ListenerId> = Vec::new();
        let mut i: usize = 0;
        while i < self.ids.len()
            invariant
                i <= self.ids@.len(),
                ids@ == self.ids@.take(i as int),
            decreases self.ids@.len() - i,
        {
            ids.push(self.ids[i]);
            assert(self.ids@.take(i + 1) =~= self.ids@.take(i as int).push(self.ids@[i as int]));
            i = i + 1;
        }
        assert(self.ids@.take(i as int) =~= self.ids@);
        ids
    }

    /// How many listeners are registered.
    pub fn len(&self) -> (n: usize)
        ensures
            n == self@.len(),
    {
        self.ids.len()
    }
}

/// The state of a reply channel.
#[derive(Debug, PartialEq, Eq)]
pub enum ReplySlot {
    /// The answer is owed.
    Waiting,
    /// The answer is there and has not been read.
    Ready(Reply),
    /// The answer has been read.
    Done,
}

/// The reply channels made so far, by their identity.
pub struct Replies {
    slots: Vec<ReplySlot>,
}

impl View for Replies {
    type V = Seq<ReplySlot>;

    closed spec fn view(&self) -> Seq<ReplySlot> {
        self.slots@
    }
}

impl Replies {
    /// The channels after an answer arrives for `id`: a channel that waits
    /// holds the answer, any other is as before.
    pub open spec fn completed(slots: Seq<ReplySlot>, id: ReplyId, reply: Reply) -> Seq<
        ReplySlot,
    > {
        if id.0 < slots.len() && slots[id.0 as int] is Waiting {
            slots.update(id.0 as int, ReplySlot::Ready(reply))
        } else {
            slots
        }
    }

    /// The answer that reading `id` yields.
    pub open spec fn ready(slots: Seq<ReplySlot>, id: ReplyId) -> Option<Reply> {
        if id.0 < slots.len() {
            match slots[id.0 as int] {
                ReplySlot::Ready(reply) => Some(reply),
                _ => None,
            }
        } else {
            None
        }
    }

    /// Whether the answer on `id` is still owed.
    pub open spec fn waiting(slots: Seq<ReplySlot>, id: ReplyId) -> bool {
        id.0 < slots.len() && slots[id.0 as int] is Waiting
    }

    /// There are no more channels than a machine word counts.
    pub proof fn lemma_len_fits(&self)
        ensures
            self@.len() <= usize::MAX,
    {
        vstd::std_specs::vec::axiom_spec_len(&self.slots);
    }

    /// No channels.
    pub fn new() -> (replies: Replies)
        ensures
            replies@ == Seq::<ReplySlot>::empty(),
    {
        Replies { slots: Vec::new() }
    }

    /// Makes a channel that no earlier call has: its answer is owed.
    pub fn open(&mut self) -> (id: ReplyId)
        ensures
            id.0 == old(self)@.len(),
            final(self)@ == old(self)@.push(ReplySlot::Waiting),
    {
        let id = ReplyId(self.slots.len());
        self.slots.push(ReplySlot::Waiting);
        id
    }

    /// Delivers an answer. A channel takes one answer; an answer for a
    /// channel that has one, or that was never made, is dropped.
    pub fn complete(&mut self, id: ReplyId, reply: Reply)
        ensures
            final(self)@ == Replies::completed(old(self)@, id, reply),
    {
        if id.0 < self.slots.len() {
            let waiting = match &self.slots[id.0] {
                ReplySlot::Waiting => true,
                _ => false,
            };
            if waiting {
                self.slots.set(id.0, ReplySlot::Ready(reply));
            }
        }
    }

    /// Reads the answer on a channel, once: `None` while the answer is owed,
    /// after it was read, and for a channel that was never made.
    pub fn take(&mut self, id: ReplyId) -> (reply: Option<Reply>)
        ensures
            reply == Replies::ready(old(self)@, id),
            reply is Some ==> final(self)@ == old(self)@.update(id.0 as int, ReplySlot::Done),
            reply is None ==> final(self)@ == old(self)@,
    {
        if id.0 < self.slots.len() {
            let ready = match &self.slots[id.0] {
                ReplySlot::Ready(_) => true,
                _ => false,
            };
            if ready {
                let mut slot = ReplySlot::Done;
                self.slots.set_and_swap(id.0, &mut slot);
                return match slot {
                    ReplySlot::Ready(reply) => Some(reply),
                    _ => None,
                };
            }
        }
        None
    }

    /// Whether the answer on a channel is still owed.
    pub fn is_waiting(&self, id: ReplyId) -> (waiting: bool)
        ensures
            waiting == Replies::waiting(self@, id),
    {
        if id.0 < self.slots.len() {
            match &self.slots[id.0] {
                ReplySlot::Waiting => true,
                _ => false,
            }
        } else {
            false
        }
    }
}

/// The slots that keep declared windows until the event loop makes them.
pub struct Handlers {
    slots: Vec<Option<PendingWindow>>,
}

impl View for Handlers {
    type V = Seq<Option<PendingWindow>>;

    closed spec fn view(&self) -> Seq<Option<PendingWindow>> {
        self.slots@
    }
}

impl Handlers {
    /// What taking from a slot yields: the declaration in it, once.
    pub open spec fn held(slots: Seq<Option<PendingWindow>>, handler: CreateWebviewHandler)
        -> Option<PendingWindow> {
        if handler.0 < slots.len() {
            slots[handler.0 as int]
        } else {
            None
        }
    }

    /// The slots after one was taken from.
    pub open spec fn emptied(slots: Seq<Option<PendingWindow>>, handler: CreateWebviewHandler)
        -> Seq<Option<PendingWindow>> {
        if handler.0 < slots.len() {
            slots.update(handler.0 as int, None)
        } else {
            slots
        }
    }

    /// There are no more slots than a machine word counts.
    pub proof fn lemma_len_fits(&self)
        ensures
            self@.len() <= usize::MAX,
    {
        vstd::std_specs::vec::axiom_spec_len(&self.slots);
    }

    /// No slots.
    pub fn new() -> (handlers: Handlers)
        ensures
            handlers@ == Seq::<Option<PendingWindow>>::empty(),
    {
        Handlers { slots: Vec::new() }
    }

    /// Keeps a declaration in a slot of its own.
    pub fn store(&mut self, pending: PendingWindow) -> (handler: CreateWebviewHandler)
        ensures
            handler.0 == old(self)@.len(),
            final(self)@ == old(self)@.push(Some(pending)),
    {
        let handler = CreateWebviewHandler(self.slots.len());
        self.slots.push(Some(pending));
        handler
    }

    /// Takes the declaration out of a slot. A slot gives its declaration
    /// once: taking again, or from a slot that was never made, yields `None`.
    pub fn take(&mut self, handler: CreateWebviewHandler) -> (pending: Option<PendingWindow>)
        ensures
            pending == Handlers::held(old(self)@, handler),
            final(self)@ == Handlers::emptied(old(self)@, handler),
    {
        if handler.0 < self.slots.len() {
            let mut slot: Option<PendingWindow> = None;
            self.slots.set_and_swap(handler.0, &mut slot);
            slot
        } else {
            None
        }
    }
}

/// What every dispatcher of one runtime shares with its event loop.
pub struct DispatcherContext {
    /// The command channel.
    pub proxy: EventLoopProxy,
    /// The queue of main-thread tasks.
    pub task_tx: TaskSender,
    /// The listeners of window events.
    pub window_event_listeners: Listeners,
    /// The listeners of menu events.
    pub menu_event_listeners: Listeners,
    /// The reply channels.
    pub replies: Replies,
    /// The declared windows that wait to be made.
    pub handlers: Handlers,
}

impl DispatcherContext {
    /// Every registry holds each listener once.
    pub open spec fn wf(&self) -> bool {
        self.window_event_listeners.wf() && self.menu_event_listeners.wf()
    }

    /// The context of a new runtime: both channels open and empty, no
    /// listener, no reply channel, no declared window.
    pub fn new() -> (context: DispatcherContext)
        ensures
            context.wf(),
            context.proxy.is_open(),
            context.proxy.messages() == Seq::<Message>::empty(),
            context.task_tx.is_open(),
            context.task_tx.tasks() == Seq::<Callback>::empty(),
            context.window_event_listeners@ == Seq::<ListenerId>::empty(),
            context.menu_event_listeners@ == Seq::<ListenerId>::empty(),
            context.replies@ == Seq::<ReplySlot>::empty(),
            context.handlers@ == Seq::<Option<PendingWindow>>::empty(),
    {
        DispatcherContext {
            proxy: EventLoopProxy::new(),
            task_tx: TaskSender::new(),
            window_event_listeners: Listeners::new(),
            menu_event_listeners: Listeners::new(),
            replies: Replies::new(),
            handlers: Handlers::new(),
        }
    }
}

} // verus!
