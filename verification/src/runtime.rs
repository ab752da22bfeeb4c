//! The event-loop side of the protocol: the table of live windows and the
//! step that the loop takes for each event.

use crate::context::{DispatcherContext, Handlers, Listeners, Replies, ReplySlot};
use crate::dispatcher::{
    is_random_id, new_listener_id, request_window, requested, DetachedWindow, WindowRequest,
    WryDispatcher,
};
use crate::error::Error;
use crate::message::{
    reply_of, window_action, CreateWebviewHandler, Message, NativeAnswer, Reply, ReplyId,
    WebviewMessage, WindowAction, WindowMessage,
};
use crate::icon::Icon;
use crate::webview::{MenuItem, PendingWindow, WindowAttributes};
use crate::window::{
    Callback, ListenerId, MenuEvent, MenuType, NativeWindowEvent, SystemTrayEvent, WindowEvent,
    WindowEventWrapper, WindowId, translate_window_event,
};
use vstd::prelude::*;

verus! {

/// What the native loop does once a step is over.
#[derive(Clone, Copy, Debug, PartialEq, Eq, Structural)]
pub enum ControlFlow {
    /// Sleep until the next event.
    Wait,
    /// Stop: the last window is gone.
    Exit,
}

/// The summary of one step.
#[derive(Clone, Copy, Debug, PartialEq, Eq, Structural)]
pub struct RunIteration {
    /// How many windows are alive.
    pub webview_count: usize,
}

/// What the native loop hands the runtime.
#[derive(Debug, PartialEq, Eq)]
pub enum Event {
    /// An item of a menu was chosen.
    MenuEvent { menu_id: u32, origin: MenuType },
    /// Something happened to a window.
    WindowEvent { window_id: WindowId, event: NativeWindowEvent },
    /// A message from a client thread has arrived.
    UserEvent(Message),
    /// Any other native event. The runtime has no answer to it.
    Other,
}

/// What listeners are told.
#[derive(Clone, Copy, Debug, PartialEq, Eq, Structural)]
pub enum Notification {
    Menu(MenuEvent),
    SystemTray(SystemTrayEvent),
    Window(WindowEvent),
}

/// Everything the native side needs to make a window and its webview.
#[derive(Debug, PartialEq, Eq)]
pub struct WebviewPlan {
    /// The name of the window, which every call from its content carries.
    pub label: String,
    /// The attributes of the native window.
    pub window: WindowAttributes,
    /// The address to load.
    pub url: String,
    /// Whether the webview is transparent: as its window is.
    pub transparent: bool,
    /// The handler of calls from web content.
    pub rpc_handler: Option<Callback>,
    /// The handler of file drops.
    pub file_drop_handler: Option<Callback>,
    /// The handlers of the application's own URI schemes, by scheme.
    pub custom_protocols: Vec<(String, Callback)>,
    /// Where the webview keeps its data.
    pub data_directory: Option<String>,
    /// Scripts to run before any page script, in this order.
    pub initialization_scripts: Vec<String>,
}

/// An operation on native objects.
#[derive(Debug, PartialEq, Eq)]
pub enum Action {
    /// Give up the window and its webview.
    DropWebview(WindowId),
    /// Fit the webview to its window.
    ResizeWebview(WindowId),
    /// Do this to the window.
    Window(WindowId, WindowAction),
    /// Hand the script to the webview.
    DispatchScript(WindowId, String),
    /// Print the content of the webview.
    Print(WindowId),
    /// Make a window and its webview, and report its identity for this
    /// reply channel.
    CreateWebview(WebviewPlan, ReplyId),
}

/// What one step asks of the native side, in the order in which it is to be
/// done: flush, run the tasks, tell the listeners, perform the actions.
#[derive(Debug, PartialEq, Eq)]
pub struct Tick {
    /// The webviews that flush their queued scripts.
    pub flushed: Vec<WindowId>,
    /// The main-thread tasks to run, oldest first.
    pub tasks: Vec<Callback>,
    /// What the listeners are told, if anything.
    pub notification: Option<Notification>,
    /// The listeners to tell, each once.
    pub listeners: Vec<ListenerId>,
    /// The operations on native objects.
    pub actions: Vec<Action>,
    /// The summary of the step: how many windows are alive once the table
    /// is settled for the event. A window that the step asks to be made is
    /// not counted yet: it enters the table when the native side reports
    /// it made (see [`Wry::webview_created`]), and [`Wry::iteration`] gives
    /// the summary then.
    pub iteration: RunIteration,
}

/// The windows without `id`.
pub open spec fn without(windows: Seq<WindowId>, id: WindowId) -> Seq<WindowId>
    decreases windows.len(),
{
    if windows.len() == 0 {
        windows
    } else if windows.last() == id {
        without(windows.drop_last(), id)
    } else {
        without(windows.drop_last(), id).push(windows.last())
    }
}

/// The windows with `id` among them: unchanged where `id` is there already.
pub open spec fn with(windows: Seq<WindowId>, id: WindowId) -> Seq<WindowId> {
    if windows.contains(id) {
        windows
    } else {
        windows.push(id)
    }
}

/// The table of live windows: the identity of each, once, in the order in
/// which they were made. A step names the windows in that order, so that
/// what it asks of the native side is the same whenever it is taken on the
/// same table.
pub struct Webviews {
    ids: Vec<WindowId>,
}

impl View for Webviews {
    type V = Seq<WindowId>;

    closed spec fn view(&self) -> Seq<WindowId> {
        self.ids@
    }
}

/// Removing a window leaves the others, in their order, and never the
/// window itself.
pub proof fn lemma_without(windows: Seq<WindowId>, id: WindowId)
    ensures
        !without(windows, id).contains(id),
        forall|other: WindowId|
            other != id ==> (#[trigger] without(windows, id).contains(other) <==> windows.contains(
                other,
            )),
        windows.no_duplicates() ==> without(windows, id).no_duplicates(),
        without(windows, id).len() <= windows.len(),
        !windows.contains(id) ==> without(windows, id) == windows,
        windows.no_duplicates() && windows.contains(id) ==> without(windows, id).len()
            == windows.len() - 1,
    decreases windows.len(),
{
    if windows.len() == 0 {
    } else {
        let rest = windows.drop_last();
        let last = windows.last();
        lemma_without(rest, id);
        let removed = without(rest, id);
        assert(windows =~= rest.push(last));
        assert forall|other: WindowId| other != id implies (#[trigger] without(
            windows,
            id,
        ).contains(other) <==> windows.contains(other)) by {
            if windows.contains(other) {
                let i = choose|i: int| 0 <= i < windows.len() && windows[i] == other;
                if i < rest.len() {
                    assert(rest[i] == other);
                    assert(rest.contains(other));
                    assert(removed.contains(other));
                    let j = choose|j: int| 0 <= j < removed.len() && removed[j] == other;
                    assert(without(windows, id)[j] == other);
                } else {
                    assert(last == other);
                    assert(without(windows, id).last() == other);
                }
            }
            if without(windows, id).contains(other) {
                let j = choose|j: int|
                    0 <= j < without(windows, id).len() && without(windows, id)[j] == other;
                if j < removed.len() {
                    assert(removed[j] == other);
                    assert(removed.contains(other));
                    assert(rest.contains(other));
                    let i = choose|i: int| 0 <= i < rest.len() && rest[i] == other;
                    assert(windows[i] == other);
                } else {
                    assert(last == other);
                    assert(windows[windows.len() - 1] == other);
                }
            }
        }
        if windows.no_duplicates() {
            assert(rest.no_duplicates());
            if last != id {
                assert(!rest.contains(last)) by {
                    if rest.contains(last) {
                        let i = choose|i: int| 0 <= i < rest.len() && rest[i] == last;
                        assert(windows[i] == windows[windows.len() - 1]);
                    }
                }
                assert(!removed.contains(last));
                assert(without(windows, id).no_duplicates());
            }
        }
        if !windows.contains(id) {
            assert(last != id) by {
                if last == id {
                    assert(windows[windows.len() - 1] == id);
                }
            }
            assert(!rest.contains(id)) by {
                if rest.contains(id) {
                    let i = choose|i: int| 0 <= i < rest.len() && rest[i] == id;
                    assert(windows[i] == id);
                }
            }
            assert(without(windows, id) =~= windows);
        }
        if windows.no_duplicates() && windows.contains(id) {
            if last == id {
                assert(!rest.contains(id)) by {
                    if rest.contains(id) {
                        let i = choose|i: int| 0 <= i < rest.len() && rest[i] == id;
                        assert(windows[i] == windows[windows.len() - 1]);
                    }
                }
            } else {
                let i = choose|i: int| 0 <= i < windows.len() && windows[i] == id;
                assert(rest[i] == id);
                assert(rest.contains(id));
            }
        }
    }
}

impl Webviews {
    /// No window is in the table twice.
    pub open spec fn wf(&self) -> bool {
        self@.no_duplicates()
    }

    /// An empty table.
    pub fn new() -> (webviews: Webviews)
        ensures
            webviews.wf(),
            webviews@ == Seq::<WindowId>::empty(),
    {
        Webviews { ids: Vec::new() }
    }

    /// Whether the window is alive.
    pub fn contains(&self, id: WindowId) -> (found: bool)
        ensures
            found == self@.contains(id),
    {
        let mut i: usize = 0;
        while i < self.ids.len()
            invariant
                i <= self.ids@.len(),
                forall|j: int| 0 <= j < i ==> self.ids@[j] != id,
            decreases self.ids@.len() - i,
        {
            if self.ids[i] == id {
                return true;
            }
            i = i + 1;
        }
        false
    }

    /// Enters a window. A window that is in the table already stays in it
    /// once.
    pub fn insert(&mut self, id: WindowId)
        requires
            old(self).wf(),
        ensures
            final(self).wf(),
            final(self)@ == with(old(self)@, id),
    {
        if !self.contains(id) {
            self.ids.push(id);
        }
    }

    /// Takes a window out of the table, and says whether it was in it.
    pub fn remove(&mut self, id: WindowId) -> (found: bool)
        requires
            old(self).wf(),
        ensures
            final(self).wf(),
            final(self)@ == without(old(self)@, id),
            found == old(self)@.contains(id),
    {
        let mut kept: Vec<WindowId> = Vec::new();
        let mut found = false;
        let mut i: usize = 0;
        while i < self.ids.len()
            invariant
                i <= self.ids@.len(),
                kept@ == without(self.ids@.take(i as int), id),
                found == self.ids@.take(i as int).contains(id),
            decreases self.ids@.len() - i,
        {
            let ghost before = self.ids@.take(i as int);
            let ghost after = self.ids@.take(i + 1);
            assert(after.drop_last() =~= before);
            assert(after.last() == self.ids@[i as int]);
            assert(after.contains(id) <==> before.contains(id) || self.ids@[i as int] == id) by {
                if before.contains(id) {
                    let j = choose|j: int| 0 <= j < before.len() && before[j] == id;
                    assert(after[j] == id);
                }
                if self.ids@[i as int] == id {
                    assert(after[i as int] == id);
                }
                if after.contains(id) {
                    let j = choose|j: int| 0 <= j < after.len() && after[j] == id;
                    if j < i {
                        assert(before[j] == id);
                    }
                }
            }
            if self.ids[i] == id {
                found = true;
            } else {
                kept.push(self.ids[i]);
            }
            i = i + 1;
        }
        assert(self.ids@.take(i as int) =~= self.ids@);
        proof {
            lemma_without(self.ids@, id);
        }
        self.ids = kept;
        found
    }

    /// How many windows are alive.
    pub fn len(&self) -> (n: usize)
        ensures
            n == self@.len(),
    {
        self.ids.len()
    }

    /// Whether no window is alive.
    pub fn is_empty(&self) -> (empty: bool)
        ensures
            empty == (self@.len() == 0),
    {
        self.ids.len() == 0
    }

    /// The live windows, in the order in which they were made.
    pub fn ids(&self) -> (ids: Vec<WindowId>)
        ensures
            ids@ == self@,
    {
        let mut ids: Vec<WindowId> = Vec::new();
        let mut i: usize = 0;
        while i < self.ids.len()
            invariant
                i <= self.ids@.len(),
                ids@ == self.ids@.take(i as int),
            decreases self.ids@.len() - i,
        {
            ids.push(self.ids[i]);
            assert(self.ids@.take(i + 1) =~= self.ids@.take(i as int).push(self.ids@[i as int]));
            i = i + 1;
        }
        assert(self.ids@.take(i as int) =~= self.ids@);
        ids
    }
}

/// The plan for a declared window: its attributes as declared, its webview
/// as transparent as its window, and its handlers, protocols, data
/// directory and initialization scripts as declared.
pub open spec fn webview_plan(pending: PendingWindow) -> WebviewPlan {
    WebviewPlan {
        label: pending.label,
        window: pending.window_builder.0,
        url: pending.url,
        transparent: pending.window_builder.0.transparent,
        rpc_handler: pending.rpc_handler,
        file_drop_handler: pending.file_drop_handler,
        custom_protocols: pending.webview_attributes.uri_scheme_protocols,
        data_directory: pending.webview_attributes.data_directory,
        initialization_scripts: pending.webview_attributes.initialization_scripts,
    }
}

/// Turns a declared window into the plan by which the native side makes it.
pub fn create_webview(pending: PendingWindow) -> (plan: WebviewPlan)
    ensures
        plan == webview_plan(pending),
{
    let PendingWindow {
        webview_attributes,
        window_builder,
        rpc_handler,
        file_drop_handler,
        label,
        url,
    } = pending;
    let is_window_transparent = window_builder.0.transparent;
    WebviewPlan {
        label,
        window: window_builder.0,
        url,
        transparent: is_window_transparent,
        rpc_handler,
        file_drop_handler,
        custom_protocols: webview_attributes.uri_scheme_protocols,
        data_directory: webview_attributes.data_directory,
        initialization_scripts: webview_attributes.initialization_scripts,
    }
}

/// What the listeners are told of an event: of a menu event its item, of a
/// window event its translation, of anything else nothing.
pub open spec fn tick_notification(event: Event) -> Option<Notification> {
    match event {
        Event::MenuEvent { menu_id, origin: MenuType::Menubar } => Some(
            Notification::Menu(MenuEvent { menu_item_id: menu_id }),
        ),
        Event::MenuEvent { menu_id, origin: MenuType::SystemTray } => Some(
            Notification::SystemTray(SystemTrayEvent { menu_item_id: menu_id }),
        ),
        Event::WindowEvent { window_id, event } => match translate_window_event(event) {
            Some(translated) => Some(Notification::Window(translated)),
            None => None,
        },
        _ => None,
    }
}

/// The listeners that are told of an event: every listener of its kind,
/// whatever window it was registered through.
pub open spec fn tick_listeners(
    event: Event,
    window_listeners: Seq<ListenerId>,
    menu_listeners: Seq<ListenerId>,
    tray_listeners: Seq<ListenerId>,
) -> Seq<ListenerId> {
    match tick_notification(event) {
        Some(Notification::Menu(_)) => menu_listeners,
        Some(Notification::SystemTray(_)) => tray_listeners,
        Some(Notification::Window(_)) => window_listeners,
        None => Seq::empty(),
    }
}

/// The window that an event takes out of the table: the window that is asked
/// to close, and a live window that a client closes.
pub open spec fn tick_closes(event: Event, webviews: Seq<WindowId>) -> Option<WindowId> {
    match event {
        Event::WindowEvent { window_id, event: NativeWindowEvent::CloseRequested } => Some(
            window_id,
        ),
        Event::UserEvent(Message::Window(id, WindowMessage::Close)) => if webviews.contains(id) {
            Some(id)
        } else {
            None
        },
        _ => None,
    }
}

/// The table after an event.
pub open spec fn tick_webviews(event: Event, webviews: Seq<WindowId>) -> Seq<WindowId> {
    match tick_closes(event, webviews) {
        Some(id) => without(webviews, id),
        None => webviews,
    }
}

/// How the loop goes on after an event: it stops when the event closes a
/// window and leaves the table empty, and waits otherwise.
pub open spec fn tick_control_flow(event: Event, webviews: Seq<WindowId>) -> ControlFlow {
    if tick_closes(event, webviews) is Some && tick_webviews(event, webviews).len() == 0 {
        ControlFlow::Exit
    } else {
        ControlFlow::Wait
    }
}

/// The native operations that an event calls for. `webviews` is the table
/// before the event and `held` what the slot of a creation request holds.
///
/// A message for a window that is not in the table calls for nothing.
pub open spec fn tick_actions(event: Event, webviews: Seq<WindowId>, held: Option<PendingWindow>)
    -> Seq<Action> {
    match event {
        Event::WindowEvent { window_id, event: NativeWindowEvent::CloseRequested } => {
            if webviews.contains(window_id) {
                seq![Action::DropWebview(window_id)]
            } else {
                Seq::empty()
            }
        },
        Event::WindowEvent { window_id, event: NativeWindowEvent::Resized(_) } => {
            if webviews.contains(window_id) {
                seq![Action::ResizeWebview(window_id)]
            } else {
                Seq::empty()
            }
        },
        Event::UserEvent(Message::Window(id, message)) => {
            if webviews.contains(id) {
                match window_action(message) {
                    Some(action) => seq![Action::Window(id, action)],
                    None => seq![Action::DropWebview(id)],
                }
            } else {
                Seq::empty()
            }
        },
        Event::UserEvent(Message::Webview(id, message)) => {
            if webviews.contains(id) {
                match message {
                    WebviewMessage::EvaluateScript(script) => seq![
                        Action::DispatchScript(id, script),
                    ],
                    WebviewMessage::Print => seq![Action::Print(id)],
                }
            } else {
                Seq::empty()
            }
        },
        Event::UserEvent(Message::CreateWebview(_, reply)) => match held {
            Some(pending) => seq![Action::CreateWebview(webview_plan(pending), reply)],
            None => Seq::empty(),
        },
        _ => Seq::empty(),
    }
}

/// The slot that an event takes from, if any.
pub open spec fn tick_handler(event: Event) -> Option<CreateWebviewHandler> {
    match event {
        Event::UserEvent(Message::CreateWebview(handler, _)) => Some(handler),
        _ => None,
    }
}

/// What the slot of an event holds.
pub open spec fn tick_held(event: Event, slots: Seq<Option<PendingWindow>>) -> Option<
    PendingWindow,
> {
    match tick_handler(event) {
        Some(handler) => Handlers::held(slots, handler),
        None => None,
    }
}

/// The slots after an event.
pub open spec fn tick_slots(event: Event, slots: Seq<Option<PendingWindow>>) -> Seq<
    Option<PendingWindow>,
> {
    match tick_handler(event) {
        Some(handler) => Handlers::emptied(slots, handler),
        None => slots,
    }
}

/// The runtime: the owner of the table of live windows, and the receiving
/// end of everything the dispatchers send.
pub struct Wry {
    /// What the runtime shares with its dispatchers.
    pub context: DispatcherContext,
    /// The live windows.
    pub webviews: Webviews,
    /// The listeners of system-tray events.
    pub system_tray_event_listeners: Listeners,
}

/// The icon of a system tray, in the form that the platform takes.
#[derive(Clone, Debug, PartialEq, Eq)]
pub enum TrayIcon {
    /// The path of an icon file: Linux.
    Path(String),
    /// The bytes of an icon: every other platform.
    Bytes(Vec<u8>),
}

/// Everything the native side needs to make a system tray.
#[derive(Clone, Debug, PartialEq, Eq)]
pub struct SystemTrayPlan {
    pub icon: TrayIcon,
    pub menu_items: Vec<MenuItem>,
}

/// A handle to the runtime, with which any thread requests a new window.
#[derive(Clone, Copy, Debug, PartialEq, Eq, Structural)]
pub struct WryHandle {}

impl WryHandle {
    /// Requests a new window from the event loop. The window is made when
    /// the loop gets to the request, and its identity is then sent on the
    /// reply channel of the request.
    pub fn create_window(&self, context: &mut DispatcherContext, pending: PendingWindow) -> (r:
        Result<WindowRequest, Error>)
        ensures
            requested(*old(context), *final(context), r, pending),
    {
        request_window(context, pending)
    }
}

impl Wry {
    /// The table and the registries hold each entry once.
    pub open spec fn wf(&self) -> bool {
        self.context.wf() && self.webviews.wf() && self.system_tray_event_listeners.wf()
    }

    /// A runtime with no window, no listener and nothing under way.
    pub fn new() -> (runtime: Wry)
        ensures
            runtime.wf(),
            runtime.webviews@ == Seq::<WindowId>::empty(),
            runtime.system_tray_event_listeners@ == Seq::<ListenerId>::empty(),
            runtime.context.proxy.is_open(),
            runtime.context.proxy.messages() == Seq::<Message>::empty(),
            runtime.context.task_tx.is_open(),
            runtime.context.task_tx.tasks() == Seq::<Callback>::empty(),
            runtime.context.window_event_listeners@ == Seq::<ListenerId>::empty(),
            runtime.context.menu_event_listeners@ == Seq::<ListenerId>::empty(),
            runtime.context.replies@ == Seq::<ReplySlot>::empty(),
            runtime.context.handlers@ == Seq::<Option<PendingWindow>>::empty(),
    {
        Wry {
            context: DispatcherContext::new(),
            webviews: Webviews::new(),
            system_tray_event_listeners: Listeners::new(),
        }
    }

    /// A handle to the runtime.
    pub fn handle(&self) -> (handle: WryHandle) {
        WryHandle {  }
    }

    /// Plans a window that the thread of the event loop itself makes,
    /// without a message: the plan is the one a request would lead to.
    /// Once the native side has made the window, or failed to,
    /// [`Wry::attach_window`] takes the outcome.
    pub fn create_window(&self, pending: PendingWindow) -> (plan: WebviewPlan)
        ensures
            plan == webview_plan(pending),
    {
        create_webview(pending)
    }

    /// Takes the outcome of making a planned window. A window that was made
    /// enters the table and comes back with its dispatcher; a failure comes
    /// back as the error that wraps the native cause, and the table stays
    /// as it is.
    pub fn attach_window(&mut self, label: String, created: Result<WindowId, String>) -> (r:
        Result<DetachedWindow, Error>)
        requires
            old(self).wf(),
        ensures
            final(self).wf(),
            final(self).context == old(self).context,
            final(self).system_tray_event_listeners == old(self).system_tray_event_listeners,
            match created {
                Ok(window_id) => r == Ok::<DetachedWindow, Error>(
                    DetachedWindow { label, dispatcher: WryDispatcher { window_id } },
                ) && final(self).webviews@ == with(old(self).webviews@, window_id),
                Err(cause) => r == Err::<DetachedWindow, Error>(Error::CreateWebview(cause))
                    && final(self).webviews@ == old(self).webviews@,
            },
    {
        match created {
            Ok(window_id) => {
                self.webviews.insert(window_id);
                Ok(DetachedWindow { label, dispatcher: WryDispatcher { window_id } })
            },
            Err(cause) => Err(Error::CreateWebview(cause)),
        }
    }

    /// Takes the outcome of making a requested window. A window that was
    /// made enters the table and its identity is sent on the reply channel
    /// of the request. A failure changes nothing: no answer is sent, and
    /// whoever waits for one waits on.
    pub fn webview_created(&mut self, sender: ReplyId, created: Result<WindowId, String>)
        requires
            old(self).wf(),
        ensures
            final(self).wf(),
            final(self).system_tray_event_listeners == old(self).system_tray_event_listeners,
            final(self).context.proxy == old(self).context.proxy,
            final(self).context.task_tx == old(self).context.task_tx,
            final(self).context.window_event_listeners == old(self).context.window_event_listeners,
            final(self).context.menu_event_listeners == old(self).context.menu_event_listeners,
            final(self).context.handlers == old(self).context.handlers,
            match created {
                Ok(window_id) => final(self).webviews@ == with(old(self).webviews@, window_id)
                    && final(self).context.replies@ == Replies::completed(
                    old(self).context.replies@,
                    sender,
                    Reply::WindowCreated(window_id),
                ),
                Err(_) => final(self).webviews@ == old(self).webviews@
                    && final(self).context.replies@ == old(self).context.replies@,
            },
    {
        match created {
            Ok(window_id) => {
                self.webviews.insert(window_id);
                self.context.replies.complete(sender, Reply::WindowCreated(window_id));
            },
            Err(_) => {},
        }
    }

    /// Sends back what a native window answered to a query: the reply that
    /// the answer becomes goes on the reply channel of the question.
    pub fn answer(&mut self, sender: ReplyId, answer: NativeAnswer)
        ensures
            final(self).webviews == old(self).webviews,
            final(self).system_tray_event_listeners == old(self).system_tray_event_listeners,
            final(self).context.proxy == old(self).context.proxy,
            final(self).context.task_tx == old(self).context.task_tx,
            final(self).context.window_event_listeners == old(self).context.window_event_listeners,
            final(self).context.menu_event_listeners == old(self).context.menu_event_listeners,
            final(self).context.handlers == old(self).context.handlers,
            final(self).context.replies@ == Replies::completed(
                old(self).context.replies@,
                sender,
                reply_of(answer),
            ),
    {
        self.context.replies.complete(sender, Reply::from_native(answer));
    }

    /// Plans the system tray. Linux takes the icon as a file and every
    /// other platform as bytes, and the icon must have that form.
    pub fn system_tray(&self, linux: bool, icon: Icon, menu_items: Vec<MenuItem>) -> (plan:
        SystemTrayPlan)
        requires
            linux <==> icon is File,
        ensures
            plan.menu_items == menu_items,
            match icon {
                Icon::File(path) => plan.icon == TrayIcon::Path(path),
                Icon::Raw(bytes) => plan.icon == TrayIcon::Bytes(bytes),
            },
    {
        let icon = match icon {
            Icon::File(path) => TrayIcon::Path(path),
            Icon::Raw(bytes) => TrayIcon::Bytes(bytes),
        };
        SystemTrayPlan { icon, menu_items }
    }

    /// Takes the outcome of making the system tray: a failure comes back
    /// as the error that wraps the native cause.
    pub fn system_tray_built(&self, built: Result<(), String>) -> (r: Result<(), Error>)
        ensures
            match built {
                Ok(()) => r is Ok,
                Err(cause) => r == Err::<(), Error>(Error::SystemTray(cause)),
            },
    {
        match built {
            Ok(()) => Ok(()),
            Err(cause) => Err(Error::SystemTray(cause)),
        }
    }

    /// Registers a listener of system-tray events and returns the identity
    /// under which it is registered.
    pub fn on_system_tray_event(&mut self) -> (id: ListenerId)
        requires
            old(self).wf(),
        ensures
            final(self).wf(),
            is_random_id(id),
            final(self).system_tray_event_listeners@ == Listeners::with(
                old(self).system_tray_event_listeners@,
                id,
            ),
            final(self).context == old(self).context,
            final(self).webviews == old(self).webviews,
    {
        let id = new_listener_id();
        self.system_tray_event_listeners.insert(id);
        id
    }

    /// Takes one step of the event loop for the oldest message that is under
    /// way; where none is, the step has no event to answer, and still
    /// flushes the webviews and runs the waiting tasks. The summary in the
    /// step counts the windows before any that the step asks for is made:
    /// see [`Tick::iteration`].
    pub fn run_iteration(&mut self, control_flow: &mut ControlFlow) -> (tick: Tick)
        requires
            old(self).wf(),
        ensures
            final(self).wf(),
            tick_of(*old(self), next_event(old(self).context.proxy.messages()), *final(self), tick),
            *final(control_flow) == tick_control_flow(
                next_event(old(self).context.proxy.messages()),
                old(self).webviews@,
            ),
            final(self).context.proxy.is_open() == old(self).context.proxy.is_open(),
            final(self).context.proxy.messages() == if old(self).context.proxy.messages().len()
                > 0 {
                old(self).context.proxy.messages().drop_first()
            } else {
                old(self).context.proxy.messages()
            },
    {
        let event = match self.context.proxy.next_event() {
            Some(message) => Event::UserEvent(message),
            None => Event::Other,
        };
        handle_event_loop(event, control_flow, self)
    }

    /// Takes the main-thread tasks that wait, oldest first, and leaves the
    /// queue empty; nothing else changes.
    ///
    /// The thread of the event loop runs them then and there, and takes
    /// again until none waits, for a task may queue tasks. Only then does
    /// it take the step for an event (see [`handle_event_loop`]): what a
    /// task has sent or registered is then there when the event is looked
    /// at, and the step itself hands over no task.
    pub fn take_tasks(&mut self) -> (tasks: Vec<Callback>)
        ensures
            tasks@ == old(self).context.task_tx.tasks(),
            final(self).context.task_tx.tasks() == Seq::<Callback>::empty(),
            final(self).context.task_tx.is_open() == old(self).context.task_tx.is_open(),
            final(self).context.proxy == old(self).context.proxy,
            final(self).context.window_event_listeners == old(self).context.window_event_listeners,
            final(self).context.menu_event_listeners == old(self).context.menu_event_listeners,
            final(self).context.replies == old(self).context.replies,
            final(self).context.handlers == old(self).context.handlers,
            final(self).webviews == old(self).webviews,
            final(self).system_tray_event_listeners == old(self).system_tray_event_listeners,
    {
        self.context.task_tx.drain()
    }

    /// The summary of the runtime as it stands: how many windows are alive.
    /// After the operations of a step are performed and their outcomes
    /// taken, this is the summary of the step.
    pub fn iteration(&self) -> (summary: RunIteration)
        ensures
            summary.webview_count == self.webviews@.len(),
    {
        RunIteration { webview_count: self.webviews.len() }
    }

    /// How many windows are alive.
    pub fn webview_count(&self) -> (n: usize)
        ensures
            n == self.webviews@.len(),
    {
        self.webviews.len()
    }
}

/// The event of a step that is taken for the command channel alone: the
/// oldest message under way, or no event to answer.
pub open spec fn next_event(messages: Seq<Message>) -> Event {
    if messages.len() > 0 {
        Event::UserEvent(messages[0])
    } else {
        Event::Other
    }
}

/// Whether `tick` and `after` are what a step for `event` makes of `before`,
/// the command channel apart.
pub open spec fn tick_of(before: Wry, event: Event, after: Wry, tick: Tick) -> bool {
    &&& tick.flushed@ == before.webviews@
    &&& tick.tasks@ == before.context.task_tx.tasks()
    &&& tick.notification == tick_notification(event)
    &&& tick.listeners@ == tick_listeners(
        event,
        before.context.window_event_listeners@,
        before.context.menu_event_listeners@,
        before.system_tray_event_listeners@,
    )
    &&& tick.actions@ == tick_actions(
        event,
        before.webviews@,
        tick_held(event, before.context.handlers@),
    )
    &&& tick.iteration.webview_count == after.webviews@.len()
    &&& after.webviews@ == tick_webviews(event, before.webviews@)
    &&& after.context.handlers@ == tick_slots(event, before.context.handlers@)
    &&& after.context.task_tx.tasks() == Seq::<Callback>::empty()
    &&& after.context.task_tx.is_open() == before.context.task_tx.is_open()
    &&& after.context.replies == before.context.replies
    &&& after.context.window_event_listeners == before.context.window_event_listeners
    &&& after.context.menu_event_listeners == before.context.menu_event_listeners
    &&& after.system_tray_event_listeners == before.system_tray_event_listeners
}

/// Takes one step of the event loop.
///
/// Every live webview flushes its queued scripts, every main-thread task
/// that still waits runs, oldest first, and then the one event is answered.
/// The step names the listeners as they stand when it is taken: the thread
/// of the event loop takes and runs the waiting tasks first (see
/// [`Wry::take_tasks`]), until none waits, and the step then finds the
/// queue empty. The event is answered so:
/// - a menu event is told to the listeners of its origin;
/// - a window event is told to the window listeners if it is a resize, a
///   move, a close request, a destruction, a change of focus or of scale
///   factor; a close request then takes the window out of the table, and a
///   resize fits the webview of a live window to it;
/// - a message for a live window becomes the native operation it stands
///   for, and `Close` takes the window out of the table; a message for a
///   window that is not in the table is dropped;
/// - a creation request takes the declared window out of its slot, once,
///   and becomes the plan to make it.
///
/// The loop is told to stop exactly when a window was closed and none is
/// left, and to wait otherwise.
pub fn handle_event_loop(event: Event, control_flow: &mut ControlFlow, runtime: &mut Wry) -> (tick:
    Tick)
    requires
        old(runtime).wf(),
    ensures
        final(runtime).wf(),
        *final(control_flow) == tick_control_flow(event, old(runtime).webviews@),
        tick_of(*old(runtime), event, *final(runtime), tick),
        final(runtime).context.proxy == old(runtime).context.proxy,
{
    *control_flow = ControlFlow::Wait;
    let flushed = runtime.webviews.ids();
    let tasks = runtime.context.task_tx.drain();
    let mut notification: Option<Notification> = None;
    let mut listeners: Vec<ListenerId> = Vec::new();
    let mut actions: Vec<Action> = Vec::new();
    match event {
        Event::MenuEvent { menu_id, origin: MenuType::Menubar } => {
            notification = Some(Notification::Menu(MenuEvent { menu_item_id: menu_id }));
            listeners = runtime.context.menu_event_listeners.ids();
        },
        Event::MenuEvent { menu_id, origin: MenuType::SystemTray } => {
            notification = Some(Notification::SystemTray(SystemTrayEvent { menu_item_id: menu_id }));
            listeners = runtime.system_tray_event_listeners.ids();
        },
        Event::WindowEvent { event, window_id } => {
            if let Some(translated) = WindowEventWrapper::from(&event).0 {
                notification = Some(Notification::Window(translated));
                listeners = runtime.context.window_event_listeners.ids();
            }
            match event {
                NativeWindowEvent::CloseRequested => {
                    if runtime.webviews.remove(window_id) {
                        actions.push(Action::DropWebview(window_id));
                    }
                    if runtime.webviews.is_empty() {
                        *control_flow = ControlFlow::Exit;
                    }
                },
                NativeWindowEvent::Resized(_) => {
                    if runtime.webviews.contains(window_id) {
                        actions.push(Action::ResizeWebview(window_id));
                    }
                },
                _ => {},
            }
        },
        Event::UserEvent(message) => match message {
            Message::Window(id, window_message) => {
                if runtime.webviews.contains(id) {
                    match window_message.into_action() {
                        Some(action) => {
                            actions.push(Action::Window(id, action));
                        },
                        None => {
                            runtime.webviews.remove(id);
                            actions.push(Action::DropWebview(id));
                            if runtime.webviews.is_empty() {
                                *control_flow = ControlFlow::Exit;
                            }
                        },
                    }
                }
            },
            Message::Webview(id, webview_message) => {
                if runtime.webviews.contains(id) {
                    match webview_message {
                        WebviewMessage::EvaluateScript(script) => {
                            actions.push(Action::DispatchScript(id, script));
                        },
                        WebviewMessage::Print => {
                            actions.push(Action::Print(id));
                        },
                    }
                }
            },
            Message::CreateWebview(handler, sender) => {
                match runtime.context.handlers.take(handler) {
                    Some(pending) => {
                        actions.push(Action::CreateWebview(create_webview(pending), sender));
                    },
                    None => {},
                }
            },
        },
        Event::Other => {},
    }
    Tick {
        flushed,
        tasks,
        notification,
        listeners,
        actions,
        iteration: RunIteration { webview_count: runtime.webviews.len() },
    }
}

} // verus!
