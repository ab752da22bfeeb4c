//! Windows as the protocol sees them: identities and events.

use crate::dpi::{PhysicalPosition, PhysicalSize};
use crate::scalar::Scalar;
use vstd::prelude::*;

verus! {

/// The identity that the native toolkit gives a window when it creates it.
///
/// It is the routing key of every message: opaque, unique among the windows
/// that are alive, and free again only once its window is destroyed.
#[derive(Clone, Copy, Debug, PartialEq, Eq, Hash, Structural)]
pub struct WindowId(pub u64);

/// A handle to a closure that the embedding application keeps: a task for the
/// main thread, a handler for calls from web content, a protocol handler.
///
/// The protocol says when such a closure runs and with what; running it is
/// the application's part.
#[derive(Clone, Copy, Debug, PartialEq, Eq, Hash, Structural)]
pub struct Callback(pub u64);

/// The identity under which a listener is registered.
#[derive(Clone, Copy, Debug, PartialEq, Eq, Hash, Structural)]
pub struct ListenerId(pub u128);

/// An event of a window, in the vocabulary offered to listeners.
#[derive(Clone, Copy, Debug, PartialEq, Eq, Structural)]
pub enum WindowEvent {
    /// The size of the window has changed; the new size of its client area.
    Resized(PhysicalSize<u32>),
    /// The position of the window has changed; its new position.
    Moved(PhysicalPosition<i32>),
    /// The window has been requested to close.
    CloseRequested,
    /// The window has been destroyed.
    Destroyed,
    /// The window gained (`true`) or lost (`false`) focus.
    Focused(bool),
    /// The scale factor of the window has changed.
    ScaleFactorChanged { scale_factor: Scalar, new_inner_size: PhysicalSize<u32> },
}

/// An event of a window as the native toolkit reports it.
///
/// Only what listeners are told of carries its payload.
#[derive(Clone, Copy, Debug, PartialEq, Eq, Structural)]
pub enum NativeWindowEvent {
    Resized(PhysicalSize<u32>),
    Moved(PhysicalPosition<i32>),
    CloseRequested,
    Destroyed,
    DroppedFile,
    HoveredFile,
    HoveredFileCancelled,
    ReceivedImeText,
    Focused(bool),
    KeyboardInput,
    ModifiersChanged,
    CursorMoved,
    CursorEntered,
    CursorLeft,
    MouseWheel,
    MouseInput,
    TouchpadPressure,
    AxisMotion,
    Touch,
    ScaleFactorChanged { scale_factor: Scalar, new_inner_size: PhysicalSize<u32> },
    ThemeChanged,
}

/// What listeners are told of a native window event: `None` where the event
/// is outside the public vocabulary.
pub open spec fn translate_window_event(event: NativeWindowEvent) -> Option<WindowEvent> {
    match event {
        NativeWindowEvent::Resized(size) => Some(WindowEvent::Resized(size)),
        NativeWindowEvent::Moved(position) => Some(WindowEvent::Moved(position)),
        NativeWindowEvent::CloseRequested => Some(WindowEvent::CloseRequested),
        NativeWindowEvent::Destroyed => Some(WindowEvent::Destroyed),
        NativeWindowEvent::Focused(focused) => Some(WindowEvent::Focused(focused)),
        NativeWindowEvent::ScaleFactorChanged { scale_factor, new_inner_size } => Some(
            WindowEvent::ScaleFactorChanged { scale_factor, new_inner_size },
        ),
        _ => None,
    }
}

/// The translation of one native window event.
#[derive(Clone, Copy, Debug, PartialEq, Eq, Structural)]
pub struct WindowEventWrapper(pub Option<WindowEvent>);

impl WindowEventWrapper {
    /// Translates a native event: resizes, moves, close requests,
    /// destruction, focus changes and scale-factor changes pass, with their
    /// payload; every other event is dropped.
    pub fn from(event: &NativeWindowEvent) -> (wrapper: WindowEventWrapper)
        ensures
            wrapper.0 == translate_window_event(*event),
    {
        let event = match *event {
            NativeWindowEvent::Resized(size) => WindowEvent::Resized(size),
            NativeWindowEvent::Moved(position) => WindowEvent::Moved(position),
            NativeWindowEvent::CloseRequested => WindowEvent::CloseRequested,
            NativeWindowEvent::Destroyed => WindowEvent::Destroyed,
            NativeWindowEvent::Focused(focused) => WindowEvent::Focused(focused),
            NativeWindowEvent::ScaleFactorChanged {
                scale_factor,
                new_inner_size,
            } => WindowEvent::ScaleFactorChanged { scale_factor, new_inner_size },
            _ => {
                return WindowEventWrapper(None);
            },
        };
        WindowEventWrapper(Some(event))
    }
}

/// Where a menu event comes from.
#[derive(Clone, Copy, Debug, PartialEq, Eq, Structural)]
pub enum MenuType {
    /// An item of a window's menu bar.
    Menubar,
    /// An item of the system tray's menu.
    SystemTray,
}

/// A click on an item of a window's menu bar.
#[derive(Clone, Copy, Debug, PartialEq, Eq, Structural)]
pub struct MenuEvent {
    pub menu_item_id: u32,
}

/// A click on an item of the system tray's menu.
#[derive(Clone, Copy, Debug, PartialEq, Eq, Structural)]
pub struct SystemTrayEvent {
    pub menu_item_id: u32,
}

} // verus!
