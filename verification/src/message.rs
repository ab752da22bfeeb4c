//! The messages that cross from client threads to the event loop, and the
//! native operations they stand for.

use crate::dpi::{PhysicalPosition, PhysicalSize, Position, Size};
use crate::error::Error;
use crate::icon::WindowIcon;
use crate::monitor::Monitor;
use crate::scalar::Scalar;
use crate::webview::Fullscreen;
use crate::window::WindowId;
use vstd::prelude::*;

verus! {

/// A one-shot reply channel: made by the call that asks, completed at most
/// once by the event loop, read at most once by the call that asked.
#[derive(Clone, Copy, Debug, PartialEq, Eq, Hash, Structural)]
pub struct ReplyId(pub usize);

/// The slot that keeps a window declaration until the event loop takes it.
#[derive(Clone, Copy, Debug, PartialEq, Eq, Hash, Structural)]
pub struct CreateWebviewHandler(pub usize);

/// A command for a window. A getter names the reply channel on which its
/// answer is owed; a setter is sent and forgotten.
#[derive(Clone, Debug, PartialEq, Eq)]
pub enum WindowMessage {
    // Getters
    ScaleFactor(ReplyId),
    InnerPosition(ReplyId),
    OuterPosition(ReplyId),
    InnerSize(ReplyId),
    OuterSize(ReplyId),
    IsFullscreen(ReplyId),
    IsMaximized(ReplyId),
    IsDecorated(ReplyId),
    IsResizable(ReplyId),
    IsVisible(ReplyId),
    CurrentMonitor(ReplyId),
    PrimaryMonitor(ReplyId),
    AvailableMonitors(ReplyId),
    // Setters
    SetResizable(bool),
    SetTitle(String),
    Maximize,
    Unmaximize,
    Minimize,
    Unminimize,
    Show,
    Hide,
    Close,
    SetDecorations(bool),
    SetAlwaysOnTop(bool),
    SetSize(Size),
    SetMinSize(Option<Size>),
    SetMaxSize(Option<Size>),
    SetPosition(Position),
    SetFullscreen(bool),
    SetFocus,
    SetIcon(WindowIcon),
    SetSkipTaskbar(bool),
    DragWindow,
}

/// A command for the webview of a window.
#[derive(Clone, Debug, PartialEq, Eq)]
pub enum WebviewMessage {
    EvaluateScript(String),
    Print,
}

/// A message with its address.
#[derive(Clone, Debug, PartialEq, Eq)]
pub enum Message {
    /// A command for the window of that identity.
    Window(WindowId, WindowMessage),
    /// A command for the webview of the window of that identity.
    Webview(WindowId, WebviewMessage),
    /// A request to make the window kept in the slot, and to send its
    /// identity on the reply channel.
    CreateWebview(CreateWebviewHandler, ReplyId),
}

/// What can be asked of a native window.
#[derive(Clone, Copy, Debug, PartialEq, Eq, Structural)]
pub enum Getter {
    ScaleFactor,
    InnerPosition,
    OuterPosition,
    InnerSize,
    OuterSize,
    Fullscreen,
    IsMaximized,
    IsDecorated,
    IsResizable,
    IsVisible,
    CurrentMonitor,
    PrimaryMonitor,
    AvailableMonitors,
}

/// An operation on a native window.
#[derive(Clone, Debug, PartialEq, Eq)]
pub enum WindowAction {
    /// Read the window's value now and answer on the reply channel.
    Query(Getter, ReplyId),
    SetResizable(bool),
    SetTitle(String),
    SetMaximized(bool),
    SetMinimized(bool),
    SetVisible(bool),
    SetDecorations(bool),
    SetAlwaysOnTop(bool),
    SetInnerSize(Size),
    SetMinInnerSize(Option<Size>),
    SetMaxInnerSize(Option<Size>),
    SetOuterPosition(Position),
    SetFullscreen(Option<Fullscreen>),
    SetFocus,
    SetWindowIcon(Option<WindowIcon>),
    SetSkipTaskbar(bool),
    DragWindow,
}

/// The toolkit cannot tell the position of a window on this platform.
#[derive(Clone, Copy, Debug, PartialEq, Eq, Structural)]
pub struct NotSupportedError;

/// What a native window answers to a query.
#[derive(Debug, PartialEq, Eq)]
pub enum NativeAnswer {
    ScaleFactor(Scalar),
    InnerPosition(Result<PhysicalPosition<i32>, NotSupportedError>),
    OuterPosition(Result<PhysicalPosition<i32>, NotSupportedError>),
    InnerSize(PhysicalSize<u32>),
    OuterSize(PhysicalSize<u32>),
    Fullscreen(Option<Fullscreen>),
    IsMaximized(bool),
    IsDecorated(bool),
    IsResizable(bool),
    IsVisible(bool),
    CurrentMonitor(Option<Monitor>),
    PrimaryMonitor(Option<Monitor>),
    AvailableMonitors(Vec<Monitor>),
}

/// What a reply channel carries back to the call that asked.
#[derive(Debug, PartialEq, Eq)]
pub enum Reply {
    ScaleFactor(Scalar),
    InnerPosition(Result<PhysicalPosition<i32>, Error>),
    OuterPosition(Result<PhysicalPosition<i32>, Error>),
    InnerSize(PhysicalSize<u32>),
    OuterSize(PhysicalSize<u32>),
    IsFullscreen(bool),
    IsMaximized(bool),
    IsDecorated(bool),
    IsResizable(bool),
    IsVisible(bool),
    CurrentMonitor(Option<Monitor>),
    PrimaryMonitor(Option<Monitor>),
    AvailableMonitors(Vec<Monitor>),
    /// The identity of the window that was made.
    WindowCreated(WindowId),
}

/// Whether a command is a getter.
pub open spec fn is_getter(message: WindowMessage) -> bool {
    match message {
        WindowMessage::ScaleFactor(_)
        | WindowMessage::InnerPosition(_)
        | WindowMessage::OuterPosition(_)
        | WindowMessage::InnerSize(_)
        | WindowMessage::OuterSize(_)
        | WindowMessage::IsFullscreen(_)
        | WindowMessage::IsMaximized(_)
        | WindowMessage::IsDecorated(_)
        | WindowMessage::IsResizable(_)
        | WindowMessage::IsVisible(_)
        | WindowMessage::CurrentMonitor(_)
        | WindowMessage::PrimaryMonitor(_)
        | WindowMessage::AvailableMonitors(_) => true,
        _ => false,
    }
}

/// The native operation that a command stands for. `Close` stands for none:
/// the event loop answers it by giving the window up.
pub open spec fn window_action(message: WindowMessage) -> Option<WindowAction> {
    match message {
        WindowMessage::ScaleFactor(tx) => Some(WindowAction::Query(Getter::ScaleFactor, tx)),
        WindowMessage::InnerPosition(tx) => Some(WindowAction::Query(Getter::InnerPosition, tx)),
        WindowMessage::OuterPosition(tx) => Some(WindowAction::Query(Getter::OuterPosition, tx)),
        WindowMessage::InnerSize(tx) => Some(WindowAction::Query(Getter::InnerSize, tx)),
        WindowMessage::OuterSize(tx) => Some(WindowAction::Query(Getter::OuterSize, tx)),
        WindowMessage::IsFullscreen(tx) => Some(WindowAction::Query(Getter::Fullscreen, tx)),
        WindowMessage::IsMaximized(tx) => Some(WindowAction::Query(Getter::IsMaximized, tx)),
        WindowMessage::IsDecorated(tx) => Some(WindowAction::Query(Getter::IsDecorated, tx)),
        WindowMessage::IsResizable(tx) => Some(WindowAction::Query(Getter::IsResizable, tx)),
        WindowMessage::IsVisible(tx) => Some(WindowAction::Query(Getter::IsVisible, tx)),
        WindowMessage::CurrentMonitor(tx) => Some(WindowAction::Query(Getter::CurrentMonitor, tx)),
        WindowMessage::PrimaryMonitor(tx) => Some(WindowAction::Query(Getter::PrimaryMonitor, tx)),
        WindowMessage::AvailableMonitors(tx) => Some(
            WindowAction::Query(Getter::AvailableMonitors, tx),
        ),
        WindowMessage::SetResizable(resizable) => Some(WindowAction::SetResizable(resizable)),
        WindowMessage::SetTitle(title) => Some(WindowAction::SetTitle(title)),
        WindowMessage::Maximize => Some(WindowAction::SetMaximized(true)),
        WindowMessage::Unmaximize => Some(WindowAction::SetMaximized(false)),
        WindowMessage::Minimize => Some(WindowAction::SetMinimized(true)),
        WindowMessage::Unminimize => Some(WindowAction::SetMinimized(false)),
        WindowMessage::Show => Some(WindowAction::SetVisible(true)),
        WindowMessage::Hide => Some(WindowAction::SetVisible(false)),
        WindowMessage::Close => None,
        WindowMessage::SetDecorations(decorations) => Some(
            WindowAction::SetDecorations(decorations),
        ),
        WindowMessage::SetAlwaysOnTop(always_on_top) => Some(
            WindowAction::SetAlwaysOnTop(always_on_top),
        ),
        WindowMessage::SetSize(size) => Some(WindowAction::SetInnerSize(size)),
        WindowMessage::SetMinSize(size) => Some(WindowAction::SetMinInnerSize(size)),
        WindowMessage::SetMaxSize(size) => Some(WindowAction::SetMaxInnerSize(size)),
        WindowMessage::SetPosition(position) => Some(WindowAction::SetOuterPosition(position)),
        WindowMessage::SetFullscreen(fullscreen) => Some(
            WindowAction::SetFullscreen(
                if fullscreen {
                    Some(Fullscreen::Borderless)
                } else {
                    None
                },
            ),
        ),
        WindowMessage::SetFocus => Some(WindowAction::SetFocus),
        WindowMessage::SetIcon(icon) => Some(WindowAction::SetWindowIcon(Some(icon))),
        WindowMessage::SetSkipTaskbar(skip) => Some(WindowAction::SetSkipTaskbar(skip)),
        WindowMessage::DragWindow => Some(WindowAction::DragWindow),
    }
}

/// What is sent back for a native answer: positions that the toolkit cannot
/// tell become an error, a full-screen mode becomes whether there is one, and
/// every other answer is passed on as it is.
pub open spec fn reply_of(answer: NativeAnswer) -> Reply {
    match answer {
        NativeAnswer::ScaleFactor(factor) => Reply::ScaleFactor(factor),
        NativeAnswer::InnerPosition(Ok(position)) => Reply::InnerPosition(Ok(position)),
        NativeAnswer::InnerPosition(Err(_)) => Reply::InnerPosition(
            Err(Error::FailedToSendMessage),
        ),
        NativeAnswer::OuterPosition(Ok(position)) => Reply::OuterPosition(Ok(position)),
        NativeAnswer::OuterPosition(Err(_)) => Reply::OuterPosition(
            Err(Error::FailedToSendMessage),
        ),
        NativeAnswer::InnerSize(size) => Reply::InnerSize(size),
        NativeAnswer::OuterSize(size) => Reply::OuterSize(size),
        NativeAnswer::Fullscreen(mode) => Reply::IsFullscreen(mode is Some),
        NativeAnswer::IsMaximized(b) => Reply::IsMaximized(b),
        NativeAnswer::IsDecorated(b) => Reply::IsDecorated(b),
        NativeAnswer::IsResizable(b) => Reply::IsResizable(b),
        NativeAnswer::IsVisible(b) => Reply::IsVisible(b),
        NativeAnswer::CurrentMonitor(monitor) => Reply::CurrentMonitor(monitor),
        NativeAnswer::PrimaryMonitor(monitor) => Reply::PrimaryMonitor(monitor),
        NativeAnswer::AvailableMonitors(monitors) => Reply::AvailableMonitors(monitors),
    }
}

impl Reply {
    /// The reply that a native answer becomes.
    pub fn from_native(answer: NativeAnswer) -> (reply: Reply)
        ensures
            reply == reply_of(answer),
    {
        match answer {
            NativeAnswer::ScaleFactor(factor) => Reply::ScaleFactor(factor),
            NativeAnswer::InnerPosition(position) => Reply::InnerPosition(
                match position {
                    Ok(p) => Ok(p),
                    Err(_) => Err(Error::FailedToSendMessage),
                },
            ),
            NativeAnswer::OuterPosition(position) => Reply::OuterPosition(
                match position {
                    Ok(p) => Ok(p),
                    Err(_) => Err(Error::FailedToSendMessage),
                },
            ),
            NativeAnswer::InnerSize(size) => Reply::InnerSize(size),
            NativeAnswer::OuterSize(size) => Reply::OuterSize(size),
            NativeAnswer::Fullscreen(mode) => Reply::IsFullscreen(mode.is_some()),
            NativeAnswer::IsMaximized(b) => Reply::IsMaximized(b),
            NativeAnswer::IsDecorated(b) => Reply::IsDecorated(b),
            NativeAnswer::IsResizable(b) => Reply::IsResizable(b),
            NativeAnswer::IsVisible(b) => Reply::IsVisible(b),
            NativeAnswer::CurrentMonitor(monitor) => Reply::CurrentMonitor(monitor),
            NativeAnswer::PrimaryMonitor(monitor) => Reply::PrimaryMonitor(monitor),
            NativeAnswer::AvailableMonitors(monitors) => Reply::AvailableMonitors(monitors),
        }
    }
}

impl WindowMessage {
    /// The native operation that the command stands for; `None` for `Close`.
    pub fn into_action(self) -> (action: Option<WindowAction>)
        ensures
            action == window_action(self),
    {
        match self {
            WindowMessage::ScaleFactor(tx) => Some(WindowAction::Query(Getter::ScaleFactor, tx)),
            WindowMessage::InnerPosition(tx) => Some(
                WindowAction::Query(Getter::InnerPosition, tx),
            ),
            WindowMessage::OuterPosition(tx) => Some(
                WindowAction::Query(Getter::OuterPosition, tx),
            ),
            WindowMessage::InnerSize(tx) => Some(WindowAction::Query(Getter::InnerSize, tx)),
            WindowMessage::OuterSize(tx) => Some(WindowAction::Query(Getter::OuterSize, tx)),
            WindowMessage::IsFullscreen(tx) => Some(WindowAction::Query(Getter::Fullscreen, tx)),
            WindowMessage::IsMaximized(tx) => Some(WindowAction::Query(Getter::IsMaximized, tx)),
            WindowMessage::IsDecorated(tx) => Some(WindowAction::Query(Getter::IsDecorated, tx)),
            WindowMessage::IsResizable(tx) => Some(WindowAction::Query(Getter::IsResizable, tx)),
            WindowMessage::IsVisible(tx) => Some(WindowAction::Query(Getter::IsVisible, tx)),
            WindowMessage::CurrentMonitor(tx) => Some(
                WindowAction::Query(Getter::CurrentMonitor, tx),
            ),
            WindowMessage::PrimaryMonitor(tx) => Some(
                WindowAction::Query(Getter::PrimaryMonitor, tx),
            ),
            WindowMessage::AvailableMonitors(tx) => Some(
                WindowAction::Query(Getter::AvailableMonitors, tx),
            ),
            WindowMessage::SetResizable(resizable) => Some(WindowAction::SetResizable(resizable)),
            WindowMessage::SetTitle(title) => Some(WindowAction::SetTitle(title)),
            WindowMessage::Maximize => Some(WindowAction::SetMaximized(true)),
            WindowMessage::Unmaximize => Some(WindowAction::SetMaximized(false)),
            WindowMessage::Minimize => Some(WindowAction::SetMinimized(true)),
            WindowMessage::Unminimize => Some(WindowAction::SetMinimized(false)),
            WindowMessage::Show => Some(WindowAction::SetVisible(true)),
            WindowMessage::Hide => Some(WindowAction::SetVisible(false)),
            WindowMessage::Close => None,
            WindowMessage::SetDecorations(decorations) => Some(
                WindowAction::SetDecorations(decorations),
            ),
            WindowMessage::SetAlwaysOnTop(always_on_top) => Some(
                WindowAction::SetAlwaysOnTop(always_on_top),
            ),
            WindowMessage::SetSize(size) => Some(WindowAction::SetInnerSize(size)),
            WindowMessage::SetMinSize(size) => Some(WindowAction::SetMinInnerSize(size)),
            WindowMessage::SetMaxSize(size) => Some(WindowAction::SetMaxInnerSize(size)),
            WindowMessage::SetPosition(position) => Some(WindowAction::SetOuterPosition(position)),
            WindowMessage::SetFullscreen(fullscreen) => {
                if fullscreen {
                    Some(WindowAction::SetFullscreen(Some(Fullscreen::Borderless)))
                } else {
                    Some(WindowAction::SetFullscreen(None))
                }
            },
            WindowMessage::SetFocus => Some(WindowAction::SetFocus),
            WindowMessage::SetIcon(icon) => Some(WindowAction::SetWindowIcon(Some(icon))),
            WindowMessage::SetSkipTaskbar(skip) => Some(WindowAction::SetSkipTaskbar(skip)),
            WindowMessage::DragWindow => Some(WindowAction::DragWindow),
        }
    }
}

} // verus!
