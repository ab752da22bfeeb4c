//! The dispatcher: the handle with which any thread commands one window.

use crate::context::{DispatcherContext, Listeners, ReplySlot};
use crate::dpi::{Position, Size};
use crate::error::Error;
use crate::icon::{
    first_image_is_png, icon_bytes, icon_bytes_read, icon_made, IcoImage, Icon, WryIcon,
};
use crate::message::{
    CreateWebviewHandler, Message, Reply, ReplyId, WebviewMessage, WindowMessage,
};
use crate::webview::PendingWindow;
use crate::window::{Callback, ListenerId, WindowId};
use vstd::prelude::*;

verus! {

/// Whether `after` is `before` with `message` sent, and `r` the report of it:
/// while the event loop exists the message is queued behind all earlier
/// ones, and once it is gone the send fails and nothing changes.
pub open spec fn sent(
    before: DispatcherContext,
    after: DispatcherContext,
    r: Result<(), Error>,
    message: Message,
) -> bool {
    if before.proxy.is_open() {
        &&& r is Ok
        &&& after.proxy.is_open()
        &&& after.proxy.messages() == before.proxy.messages().push(message)
        &&& after.task_tx == before.task_tx
        &&& after.window_event_listeners == before.window_event_listeners
        &&& after.menu_event_listeners == before.menu_event_listeners
        &&& after.replies == before.replies
        &&& after.handlers == before.handlers
    } else {
        r == Err::<(), Error>(Error::FailedToSendMessage) && after == before
    }
}

/// Whether `after` is `before` with a question asked, and `r` the reply
/// channel on which the answer is owed: while the event loop exists a new
/// channel is made and the question that names it is queued behind all
/// earlier messages, and once the loop is gone the call fails and nothing
/// changes.
pub open spec fn asked(
    before: DispatcherContext,
    after: DispatcherContext,
    r: Result<ReplyId, Error>,
    question: spec_fn(ReplyId) -> Message,
) -> bool {
    if before.proxy.is_open() {
        let tx = ReplyId(before.replies@.len() as usize);
        &&& r == Ok::<ReplyId, Error>(tx)
        &&& after.proxy.is_open()
        &&& after.proxy.messages() == before.proxy.messages().push(question(tx))
        &&& after.replies@ == before.replies@.push(ReplySlot::Waiting)
        &&& after.task_tx == before.task_tx
        &&& after.window_event_listeners == before.window_event_listeners
        &&& after.menu_event_listeners == before.menu_event_listeners
        &&& after.handlers == before.handlers
    } else {
        r == Err::<ReplyId, Error>(Error::FailedToSendMessage) && after == before
    }
}

/// Whether `made` is what is made of the bytes of an icon, `after` is
/// `before` with it sent to the window where it is an icon, and `r` the
/// report: where `made` is the reason why there is no icon, `r` is that
/// reason, nothing is sent and nothing changes.
pub open spec fn icon_delivered(
    before: DispatcherContext,
    after: DispatcherContext,
    r: Result<(), Error>,
    window_id: WindowId,
    image_bytes: Seq<u8>,
    windows: bool,
    stored_as_png: Option<Result<Option<IcoImage>, String>>,
    made: Result<WryIcon, Error>,
) -> bool {
    icon_made(image_bytes, windows, stored_as_png, made) && match made {
        Ok(icon) => sent(
            before,
            after,
            r,
            Message::Window(window_id, WindowMessage::SetIcon(icon.0)),
        ),
        Err(e) => r == Err::<(), Error>(e) && after == before,
    }
}

/// Whether `after` is `before` with the icon of a window set, and `r` the
/// report of it. Where the file that the application names cannot be read,
/// `r` is that failure as an invalid icon; where no icon can be made of
/// the bytes, `r` is the reason as an invalid icon; either way nothing is
/// sent and nothing changes. Else the icon made of the bytes is sent to the
/// window.
pub open spec fn icon_sent(
    before: DispatcherContext,
    after: DispatcherContext,
    r: Result<(), Error>,
    window_id: WindowId,
    icon: Icon,
    file: Option<Result<Vec<u8>, String>>,
    windows: bool,
    stored_as_png: Option<Result<Option<IcoImage>, String>>,
) -> bool {
    let read = icon_bytes_read(icon, file);
    if read is Err {
        r matches Err(Error::InvalidIcon(text)) && text@ == read->Err_0 && after == before
    } else {
        exists|made: Result<WryIcon, Error>| #[trigger]
            icon_delivered(
                before,
                after,
                r,
                window_id,
                read->Ok_0,
                windows,
                stored_as_png,
                made,
            )
    }
}

/// Whether the first image of the icon that the application names is
/// stored as PNG, so that the caller is to decode it.
pub open spec fn icon_is_png(icon: Icon, file: Option<Result<Vec<u8>, String>>) -> bool {
    icon_bytes_read(icon, file) matches Ok(image_bytes) && first_image_is_png(image_bytes)
}

/// Sends a message through the command channel.
pub fn send_message(context: &mut DispatcherContext, message: Message) -> (r: Result<(), Error>)
    ensures
        sent(*old(context), *final(context), r, message),
{
    match context.proxy.send_event(message) {
        Ok(()) => Ok(()),
        Err(_) => Err(Error::FailedToSendMessage),
    }
}

/// A request for a window that is under way: the name the window will have,
/// and the reply channel on which its identity is owed.
#[derive(Debug, PartialEq, Eq)]
pub struct WindowRequest {
    pub label: String,
    pub reply: ReplyId,
}

/// A live window, as the thread that asked for it holds it.
#[derive(Debug, PartialEq, Eq)]
pub struct DetachedWindow {
    /// The name of the window.
    pub label: String,
    /// The dispatcher that commands it.
    pub dispatcher: WryDispatcher,
}

/// Whether `after` is `before` with a window requested, and `r` the request:
/// while the event loop exists the declaration is kept in a new slot, a new
/// reply channel is made, and the message that names both is queued behind
/// all earlier ones; once the loop is gone the call fails and nothing
/// changes.
pub open spec fn requested(
    before: DispatcherContext,
    after: DispatcherContext,
    r: Result<WindowRequest, Error>,
    pending: PendingWindow,
) -> bool {
    if before.proxy.is_open() {
        let handler = CreateWebviewHandler(before.handlers@.len() as usize);
        let tx = ReplyId(before.replies@.len() as usize);
        &&& r matches Ok(request)
        &&& request.reply == tx
        &&& request.label == pending.label
        &&& after.proxy.is_open()
        &&& after.proxy.messages() == before.proxy.messages().push(
            Message::CreateWebview(handler, tx),
        )
        &&& after.handlers@ == before.handlers@.push(Some(pending))
        &&& after.replies@ == before.replies@.push(ReplySlot::Waiting)
        &&& after.task_tx == before.task_tx
        &&& after.window_event_listeners == before.window_event_listeners
        &&& after.menu_event_listeners == before.menu_event_listeners
    } else {
        r == Err::<WindowRequest, Error>(Error::FailedToSendMessage) && after == before
    }
}

/// Requests a window from the event loop.
pub fn request_window(context: &mut DispatcherContext, pending: PendingWindow) -> (r: Result<
    WindowRequest,
    Error,
>)
    ensures
        requested(*old(context), *final(context), r, pending),
{
    if !context.proxy.is_open_now() {
        return Err(Error::FailedToSendMessage);
    }
    let label = pending.label.clone();
    let handler = context.handlers.store(pending);
    let tx = context.replies.open();
    let _ = context.proxy.send_event(Message::CreateWebview(handler, tx));
    Ok(WindowRequest { label, reply: tx })
}

impl WindowRequest {
    /// The window that an answer to the request stands for: the requested
    /// name with a dispatcher for the identity that was sent. Any other
    /// answer stands for no window.
    pub fn finish(self, reply: Reply) -> (window: Option<DetachedWindow>)
        ensures
            match reply {
                Reply::WindowCreated(window_id) => window == Some(
                    DetachedWindow { label: self.label, dispatcher: WryDispatcher { window_id } },
                ),
                _ => window is None,
            },
    {
        match reply {
            Reply::WindowCreated(window_id) => Some(
                DetachedWindow { label: self.label, dispatcher: WryDispatcher { window_id } },
            ),
            _ => None,
        }
    }
}

/// The dispatcher of one window.
///
/// What it shares with the event loop is handed to each call: a call is a
/// send, and the event loop answers in its own time.
#[derive(Clone, Copy, Debug, PartialEq, Eq, Structural)]
pub struct WryDispatcher {
    pub window_id: WindowId,
}

/// The question that a getter sends for a reply channel.
pub open spec fn question(window_id: WindowId, getter: Question, tx: ReplyId) -> Message {
    Message::Window(
        window_id,
        match getter {
            Question::ScaleFactor => WindowMessage::ScaleFactor(tx),
            Question::InnerPosition => WindowMessage::InnerPosition(tx),
            Question::OuterPosition => WindowMessage::OuterPosition(tx),
            Question::InnerSize => WindowMessage::InnerSize(tx),
            Question::OuterSize => WindowMessage::OuterSize(tx),
            Question::IsFullscreen => WindowMessage::IsFullscreen(tx),
            Question::IsMaximized => WindowMessage::IsMaximized(tx),
            Question::IsDecorated => WindowMessage::IsDecorated(tx),
            Question::IsResizable => WindowMessage::IsResizable(tx),
            Question::IsVisible => WindowMessage::IsVisible(tx),
            Question::CurrentMonitor => WindowMessage::CurrentMonitor(tx),
            Question::PrimaryMonitor => WindowMessage::PrimaryMonitor(tx),
            Question::AvailableMonitors => WindowMessage::AvailableMonitors(tx),
        },
    )
}

/// What a dispatcher can ask of its window.
#[derive(Clone, Copy, Debug, PartialEq, Eq, Structural)]
pub enum Question {
    ScaleFactor,
    InnerPosition,
    OuterPosition,
    InnerSize,
    OuterSize,
    IsFullscreen,
    IsMaximized,
    IsDecorated,
    IsResizable,
    IsVisible,
    CurrentMonitor,
    PrimaryMonitor,
    AvailableMonitors,
}

/// Makes a reply channel and sends the question that names it.
pub fn ask(context: &mut DispatcherContext, window_id: WindowId, getter: Question) -> (r: Result<
    ReplyId,
    Error,
>)
    ensures
        asked(*old(context), *final(context), r, |tx: ReplyId| question(window_id, getter, tx)),
{
    if !context.proxy.is_open_now() {
        return Err(Error::FailedToSendMessage);
    }
    let tx = context.replies.open();
    let message = match getter {
        Question::ScaleFactor => WindowMessage::ScaleFactor(tx),
        Question::InnerPosition => WindowMessage::InnerPosition(tx),
        Question::OuterPosition => WindowMessage::OuterPosition(tx),
        Question::InnerSize => WindowMessage::InnerSize(tx),
        Question::OuterSize => WindowMessage::OuterSize(tx),
        Question::IsFullscreen => WindowMessage::IsFullscreen(tx),
        Question::IsMaximized => WindowMessage::IsMaximized(tx),
        Question::IsDecorated => WindowMessage::IsDecorated(tx),
        Question::IsResizable => WindowMessage::IsResizable(tx),
        Question::IsVisible => WindowMessage::IsVisible(tx),
        Question::CurrentMonitor => WindowMessage::CurrentMonitor(tx),
        Question::PrimaryMonitor => WindowMessage::PrimaryMonitor(tx),
        Question::AvailableMonitors => WindowMessage::AvailableMonitors(tx),
    };
    let _ = context.proxy.send_event(Message::Window(window_id, message));
    Ok(tx)
}

impl WryDispatcher {
    /// The dispatcher of the window of that identity.
    pub fn new(window_id: WindowId) -> (dispatcher: WryDispatcher)
        ensures
            dispatcher.window_id == window_id,
    {
        WryDispatcher { window_id }
    }

    /// Queues a task for the main thread. The event loop runs the waiting
    /// tasks at the start of its next step, before it looks at any event.
    /// Fails once the runtime is gone, and then changes nothing.
    pub fn run_on_main_thread(&self, context: &mut DispatcherContext, f: Callback) -> (r: Result<
        (),
        Error,
    >)
        ensures
            old(context).task_tx.is_open() ==> r is Ok && final(context).task_tx.is_open()
                && final(context).task_tx.tasks() == old(context).task_tx.tasks().push(f),
            !old(context).task_tx.is_open() ==> r == Err::<(), Error>(Error::FailedToSendMessage)
                && final(context).task_tx == old(context).task_tx,
            final(context).proxy == old(context).proxy,
            final(context).window_event_listeners == old(context).window_event_listeners,
            final(context).menu_event_listeners == old(context).menu_event_listeners,
            final(context).replies == old(context).replies,
            final(context).handlers == old(context).handlers,
    {
        match context.task_tx.send(f) {
            Ok(()) => Ok(()),
            Err(_) => Err(Error::FailedToSendMessage),
        }
    }

    /// Registers a listener of window events and returns the identity under
    /// which it is registered. The listener is told of every window event,
    /// of this window and of any other.
    pub fn on_window_event(&self, context: &mut DispatcherContext) -> (id: ListenerId)
        requires
            old(context).wf(),
        ensures
            final(context).wf(),
            is_random_id(id),
            final(context).window_event_listeners@ == Listeners::with(
                old(context).window_event_listeners@,
                id,
            ),
            final(context).menu_event_listeners == old(context).menu_event_listeners,
            final(context).proxy == old(context).proxy,
            final(context).task_tx == old(context).task_tx,
            final(context).replies == old(context).replies,
            final(context).handlers == old(context).handlers,
    {
        let id = new_listener_id();
        context.window_event_listeners.insert(id);
        id
    }

    /// Registers a listener of menu events and returns the identity under
    /// which it is registered.
    pub fn on_menu_event(&self, context: &mut DispatcherContext) -> (id: ListenerId)
        requires
            old(context).wf(),
        ensures
            final(context).wf(),
            is_random_id(id),
            final(context).menu_event_listeners@ == Listeners::with(
                old(context).menu_event_listeners@,
                id,
            ),
            final(context).window_event_listeners == old(context).window_event_listeners,
            final(context).proxy == old(context).proxy,
            final(context).task_tx == old(context).task_tx,
            final(context).replies == old(context).replies,
            final(context).handlers == old(context).handlers,
    {
        let id = new_listener_id();
        context.menu_event_listeners.insert(id);
        id
    }

    // Getters

    /// Asks for the factor that maps logical pixels to physical pixels on the
    /// window's monitor. The answer is the window's value when the event loop
    /// gets to the question.
    pub fn scale_factor(&self, context: &mut DispatcherContext) -> (r: Result<ReplyId, Error>)
        ensures
            asked(
                *old(context),
                *final(context),
                r,
                (|tx: ReplyId| Message::Window(self.window_id, WindowMessage::ScaleFactor(tx))),
            ),
    {
        ask(context, self.window_id, Question::ScaleFactor)
    }

    /// Asks for the position of the top-left corner of the window's client
    /// area, relative to the top-left corner of the desktop. The answer is the
    /// window's value when the event loop gets to the question.
    pub fn inner_position(&self, context: &mut DispatcherContext) -> (r: Result<ReplyId, Error>)
        ensures
            asked(
                *old(context),
                *final(context),
                r,
                (|tx: ReplyId| Message::Window(self.window_id, WindowMessage::InnerPosition(tx))),
            ),
    {
        ask(context, self.window_id, Question::InnerPosition)
    }

    /// Asks for the position of the top-left corner of the window, relative to
    /// the top-left corner of the desktop. The answer is the window's value
    /// when the event loop gets to the question.
    pub fn outer_position(&self, context: &mut DispatcherContext) -> (r: Result<ReplyId, Error>)
        ensures
            asked(
                *old(context),
                *final(context),
                r,
                (|tx: ReplyId| Message::Window(self.window_id, WindowMessage::OuterPosition(tx))),
            ),
    {
        ask(context, self.window_id, Question::OuterPosition)
    }

    /// Asks for the size of the window's client area. The answer is the
    /// window's value when the event loop gets to the question.
    pub fn inner_size(&self, context: &mut DispatcherContext) -> (r: Result<ReplyId, Error>)
        ensures
            asked(
                *old(context),
                *final(context),
                r,
                (|tx: ReplyId| Message::Window(self.window_id, WindowMessage::InnerSize(tx))),
            ),
    {
        ask(context, self.window_id, Question::InnerSize)
    }

    /// Asks for the size of the entire window. The answer is the window's value
    /// when the event loop gets to the question.
    pub fn outer_size(&self, context: &mut DispatcherContext) -> (r: Result<ReplyId, Error>)
        ensures
            asked(
                *old(context),
                *final(context),
                r,
                (|tx: ReplyId| Message::Window(self.window_id, WindowMessage::OuterSize(tx))),
            ),
    {
        ask(context, self.window_id, Question::OuterSize)
    }

    /// Asks whether the window is in a full-screen mode. The answer is the
    /// window's value when the event loop gets to the question.
    pub fn is_fullscreen(&self, context: &mut DispatcherContext) -> (r: Result<ReplyId, Error>)
        ensures
            asked(
                *old(context),
                *final(context),
                r,
                (|tx: ReplyId| Message::Window(self.window_id, WindowMessage::IsFullscreen(tx))),
            ),
    {
        ask(context, self.window_id, Question::IsFullscreen)
    }

    /// Asks whether the window is maximized. The answer is the window's value
    /// when the event loop gets to the question.
    pub fn is_maximized(&self, context: &mut DispatcherContext) -> (r: Result<ReplyId, Error>)
        ensures
            asked(
                *old(context),
                *final(context),
                r,
                (|tx: ReplyId| Message::Window(self.window_id, WindowMessage::IsMaximized(tx))),
            ),
    {
        ask(context, self.window_id, Question::IsMaximized)
    }

    /// Asks whether the window has borders and bars. The answer is the window's
    /// value when the event loop gets to the question.
    pub fn is_decorated(&self, context: &mut DispatcherContext) -> (r: Result<ReplyId, Error>)
        ensures
            asked(
                *old(context),
                *final(context),
                r,
                (|tx: ReplyId| Message::Window(self.window_id, WindowMessage::IsDecorated(tx))),
            ),
    {
        ask(context, self.window_id, Question::IsDecorated)
    }

    /// Asks whether the user can resize the window. The answer is the window's
    /// value when the event loop gets to the question.
    pub fn is_resizable(&self, context: &mut DispatcherContext) -> (r: Result<ReplyId, Error>)
        ensures
            asked(
                *old(context),
                *final(context),
                r,
                (|tx: ReplyId| Message::Window(self.window_id, WindowMessage::IsResizable(tx))),
            ),
    {
        ask(context, self.window_id, Question::IsResizable)
    }

    /// Asks whether the window is visible. The answer is the window's value
    /// when the event loop gets to the question.
    pub fn is_visible(&self, context: &mut DispatcherContext) -> (r: Result<ReplyId, Error>)
        ensures
            asked(
                *old(context),
                *final(context),
                r,
                (|tx: ReplyId| Message::Window(self.window_id, WindowMessage::IsVisible(tx))),
            ),
    {
        ask(context, self.window_id, Question::IsVisible)
    }

    /// Asks for the monitor on which the window is. The answer is the window's
    /// value when the event loop gets to the question.
    pub fn current_monitor(&self, context: &mut DispatcherContext) -> (r: Result<ReplyId, Error>)
        ensures
            asked(
                *old(context),
                *final(context),
                r,
                (|tx: ReplyId| Message::Window(self.window_id, WindowMessage::CurrentMonitor(tx))),
            ),
    {
        ask(context, self.window_id, Question::CurrentMonitor)
    }

    /// Asks for the primary monitor of the system. The answer is the window's
    /// value when the event loop gets to the question.
    pub fn primary_monitor(&self, context: &mut DispatcherContext) -> (r: Result<ReplyId, Error>)
        ensures
            asked(
                *old(context),
                *final(context),
                r,
                (|tx: ReplyId| Message::Window(self.window_id, WindowMessage::PrimaryMonitor(tx))),
            ),
    {
        ask(context, self.window_id, Question::PrimaryMonitor)
    }

    /// Asks for the monitors of the system. The answer is the window's value
    /// when the event loop gets to the question.
    pub fn available_monitors(&self, context: &mut DispatcherContext) -> (r: Result<ReplyId, Error>)
        ensures
            asked(
                *old(context),
                *final(context),
                r,
                (|tx: ReplyId| Message::Window(self.window_id, WindowMessage::AvailableMonitors(tx))),
            ),
    {
        ask(context, self.window_id, Question::AvailableMonitors)
    }

    // Setters

    /// Prints the content of the webview.
    pub fn print(&self, context: &mut DispatcherContext) -> (r: Result<(), Error>)
        ensures
            sent(
                *old(context),
                *final(context),
                r,
                Message::Webview(self.window_id, WebviewMessage::Print),
            ),
    {
        send_message(context, Message::Webview(self.window_id, WebviewMessage::Print))
    }

    /// Requests a new window from the event loop. The window is made when
    /// the loop gets to the request, and its identity is then sent on the
    /// reply channel of the request.
    pub fn create_window(&mut self, context: &mut DispatcherContext, pending: PendingWindow) -> (r:
        Result<WindowRequest, Error>)
        ensures
            requested(*old(context), *final(context), r, pending),
            *final(self) == *old(self),
    {
        request_window(context, pending)
    }

    /// Sets whether the user can resize the window.
    pub fn set_resizable(&self, context: &mut DispatcherContext, resizable: bool) -> (r: Result<(), Error>)
        ensures
            sent(
                *old(context),
                *final(context),
                r,
                Message::Window(self.window_id, WindowMessage::SetResizable(resizable)),
            ),
    {
        send_message(context, Message::Window(self.window_id, WindowMessage::SetResizable(resizable)))
    }

    /// Sets the title of the window.
    pub fn set_title(&self, context: &mut DispatcherContext, title: String) -> (r: Result<(), Error>)
        ensures
            sent(
                *old(context),
                *final(context),
                r,
                Message::Window(self.window_id, WindowMessage::SetTitle(title)),
            ),
    {
        send_message(context, Message::Window(self.window_id, WindowMessage::SetTitle(title)))
    }

    /// Maximizes the window.
    pub fn maximize(&self, context: &mut DispatcherContext) -> (r: Result<(), Error>)
        ensures
            sent(
                *old(context),
                *final(context),
                r,
                Message::Window(self.window_id, WindowMessage::Maximize),
            ),
    {
        send_message(context, Message::Window(self.window_id, WindowMessage::Maximize))
    }

    /// Takes the window out of the maximized state.
    pub fn unmaximize(&self, context: &mut DispatcherContext) -> (r: Result<(), Error>)
        ensures
            sent(
                *old(context),
                *final(context),
                r,
                Message::Window(self.window_id, WindowMessage::Unmaximize),
            ),
    {
        send_message(context, Message::Window(self.window_id, WindowMessage::Unmaximize))
    }

    /// Minimizes the window.
    pub fn minimize(&self, context: &mut DispatcherContext) -> (r: Result<(), Error>)
        ensures
            sent(
                *old(context),
                *final(context),
                r,
                Message::Window(self.window_id, WindowMessage::Minimize),
            ),
    {
        send_message(context, Message::Window(self.window_id, WindowMessage::Minimize))
    }

    /// Takes the window out of the minimized state.
    pub fn unminimize(&self, context: &mut DispatcherContext) -> (r: Result<(), Error>)
        ensures
            sent(
                *old(context),
                *final(context),
                r,
                Message::Window(self.window_id, WindowMessage::Unminimize),
            ),
    {
        send_message(context, Message::Window(self.window_id, WindowMessage::Unminimize))
    }

    /// Shows the window.
    pub fn show(&self, context: &mut DispatcherContext) -> (r: Result<(), Error>)
        ensures
            sent(
                *old(context),
                *final(context),
                r,
                Message::Window(self.window_id, WindowMessage::Show),
            ),
    {
        send_message(context, Message::Window(self.window_id, WindowMessage::Show))
    }

    /// Hides the window.
    pub fn hide_window(&self, context: &mut DispatcherContext) -> (r: Result<(), Error>)
        ensures
            sent(
                *old(context),
                *final(context),
                r,
                Message::Window(self.window_id, WindowMessage::Hide),
            ),
    {
        send_message(context, Message::Window(self.window_id, WindowMessage::Hide))
    }

    /// Closes the window.
    pub fn close(&self, context: &mut DispatcherContext) -> (r: Result<(), Error>)
        ensures
            sent(
                *old(context),
                *final(context),
                r,
                Message::Window(self.window_id, WindowMessage::Close),
            ),
    {
        send_message(context, Message::Window(self.window_id, WindowMessage::Close))
    }

    /// Sets whether the window has borders and bars.
    pub fn set_decorations(&self, context: &mut DispatcherContext, decorations: bool) -> (r: Result<(), Error>)
        ensures
            sent(
                *old(context),
                *final(context),
                r,
                Message::Window(self.window_id, WindowMessage::SetDecorations(decorations)),
            ),
    {
        send_message(context, Message::Window(self.window_id, WindowMessage::SetDecorations(decorations)))
    }

    /// Sets whether the window stays above the others.
    pub fn set_always_on_top(&self, context: &mut DispatcherContext, always_on_top: bool) -> (r: Result<(), Error>)
        ensures
            sent(
                *old(context),
                *final(context),
                r,
                Message::Window(self.window_id, WindowMessage::SetAlwaysOnTop(always_on_top)),
            ),
    {
        send_message(context, Message::Window(self.window_id, WindowMessage::SetAlwaysOnTop(always_on_top)))
    }

    /// Sets the size of the window's client area.
    pub fn set_size(&self, context: &mut DispatcherContext, size: Size) -> (r: Result<(), Error>)
        ensures
            sent(
                *old(context),
                *final(context),
                r,
                Message::Window(self.window_id, WindowMessage::SetSize(size)),
            ),
    {
        send_message(context, Message::Window(self.window_id, WindowMessage::SetSize(size)))
    }

    /// Sets the least size of the window's client area, or lifts the limit.
    pub fn set_min_size(&self, context: &mut DispatcherContext, size: Option<Size>) -> (r: Result<(), Error>)
        ensures
            sent(
                *old(context),
                *final(context),
                r,
                Message::Window(self.window_id, WindowMessage::SetMinSize(size)),
            ),
    {
        send_message(context, Message::Window(self.window_id, WindowMessage::SetMinSize(size)))
    }

    /// Sets the greatest size of the window's client area, or lifts the limit.
    pub fn set_max_size(&self, context: &mut DispatcherContext, size: Option<Size>) -> (r: Result<(), Error>)
        ensures
            sent(
                *old(context),
                *final(context),
                r,
                Message::Window(self.window_id, WindowMessage::SetMaxSize(size)),
            ),
    {
        send_message(context, Message::Window(self.window_id, WindowMessage::SetMaxSize(size)))
    }

    /// Moves the window.
    pub fn set_position(&self, context: &mut DispatcherContext, position: Position) -> (r: Result<(), Error>)
        ensures
            sent(
                *old(context),
                *final(context),
                r,
                Message::Window(self.window_id, WindowMessage::SetPosition(position)),
            ),
    {
        send_message(context, Message::Window(self.window_id, WindowMessage::SetPosition(position)))
    }

    /// Puts the window in the borderless full-screen mode, or takes it out of
    /// it.
    pub fn set_fullscreen(&self, context: &mut DispatcherContext, fullscreen: bool) -> (r: Result<(), Error>)
        ensures
            sent(
                *old(context),
                *final(context),
                r,
                Message::Window(self.window_id, WindowMessage::SetFullscreen(fullscreen)),
            ),
    {
        send_message(context, Message::Window(self.window_id, WindowMessage::SetFullscreen(fullscreen)))
    }

    /// Brings the window to the front and gives it the focus.
    pub fn set_focus(&self, context: &mut DispatcherContext) -> (r: Result<(), Error>)
        ensures
            sent(
                *old(context),
                *final(context),
                r,
                Message::Window(self.window_id, WindowMessage::SetFocus),
            ),
    {
        send_message(context, Message::Window(self.window_id, WindowMessage::SetFocus))
    }

    /// Sets the icon of the window, of what the application names as its
    /// icon; `file` is the outcome of reading the file, where it names one,
    /// and `stored_as_png` what decoding the first image came to, where
    /// that image is stored as PNG.
    ///
    /// The icon is made before anything is sent: where the file cannot be
    /// read, or no icon can be made of the bytes, the call fails with an
    /// invalid icon (see [`icon_made`]) and nothing is sent.
    pub fn set_icon(
        &self,
        context: &mut DispatcherContext,
        icon: Icon,
        file: Option<Result<Vec<u8>, String>>,
        windows: bool,
        stored_as_png: Option<Result<Option<IcoImage>, String>>,
    ) -> (r: Result<(), Error>)
        requires
            icon is File ==> file is Some,
            windows && icon_is_png(icon, file) ==> stored_as_png is Some,
        ensures
            icon_sent(
                *old(context),
                *final(context),
                r,
                self.window_id,
                icon,
                file,
                windows,
                stored_as_png,
            ),
    {
        let image_bytes = match icon_bytes(icon, file) {
            Ok(image_bytes) => image_bytes,
            Err(e) => {
                return Err(e);
            },
        };
        assert(icon_bytes_read(icon, file) is Ok && icon_bytes_read(icon, file)->Ok_0
            == image_bytes@);
        match WryIcon::try_from(&image_bytes, windows, stored_as_png) {
            Ok(made) => {
                let ghost witness = Ok::<WryIcon, Error>(made);
                let r = send_message(
                    context,
                    Message::Window(self.window_id, WindowMessage::SetIcon(made.0)),
                );
                assert(icon_delivered(
                    *old(context),
                    *context,
                    r,
                    self.window_id,
                    image_bytes@,
                    windows,
                    stored_as_png,
                    witness,
                ));
                r
            },
            Err(e) => {
                assert(icon_delivered(
                    *old(context),
                    *context,
                    Err(e),
                    self.window_id,
                    image_bytes@,
                    windows,
                    stored_as_png,
                    Err(e),
                ));
                Err(e)
            },
        }
    }

    /// Sets whether the window is kept out of the taskbar.
    pub fn set_skip_taskbar(&self, context: &mut DispatcherContext, skip: bool) -> (r: Result<(), Error>)
        ensures
            sent(
                *old(context),
                *final(context),
                r,
                Message::Window(self.window_id, WindowMessage::SetSkipTaskbar(skip)),
            ),
    {
        send_message(context, Message::Window(self.window_id, WindowMessage::SetSkipTaskbar(skip)))
    }

    /// Starts dragging the window.
    pub fn start_dragging(&self, context: &mut DispatcherContext) -> (r: Result<(), Error>)
        ensures
            sent(
                *old(context),
                *final(context),
                r,
                Message::Window(self.window_id, WindowMessage::DragWindow),
            ),
    {
        send_message(context, Message::Window(self.window_id, WindowMessage::DragWindow))
    }

    /// Hands a script to the webview of the window.
    pub fn eval_script(&self, context: &mut DispatcherContext, script: String) -> (r: Result<
        (),
        Error,
    >)
        ensures
            sent(
                *old(context),
                *final(context),
                r,
                Message::Webview(self.window_id, WebviewMessage::EvaluateScript(script)),
            ),
    {
        send_message(
            context,
            Message::Webview(self.window_id, WebviewMessage::EvaluateScript(script)),
        )
    }
}

/// Whether an identity has the form of a random UUID: version 4, variant
/// RFC 4122.
pub open spec fn is_random_id(id: ListenerId) -> bool {
    (id.0 >> 76) & 0xf == 4 && (id.0 >> 62) & 0x3 == 2
}

/// A new identity for a listener: `uuid::Uuid::new_v4`, as a number with the
/// first byte of the UUID as its most significant one
/// (`uuid::Uuid::as_u128`).
///
/// Trusted: the sixteen bytes are random but for the six bits that mark the
/// version and the variant, so nothing but those bits is promised; in
/// particular two calls may return the same identity. The call panics
/// where the system has no source of randomness.
#[verifier::external_body]
pub(crate) fn new_listener_id() -> (id: ListenerId)
    ensures
        is_random_id(id),
{
    ListenerId(uuid::Uuid::new_v4().as_u128())
}

} // verus!
