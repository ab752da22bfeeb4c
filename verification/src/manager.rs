//! What an application is made of, and the two ways to a new window.

use crate::context::DispatcherContext;
use crate::dispatcher::{requested, WindowRequest, WryDispatcher};
use crate::error::Error;
use crate::runtime::{webview_plan, WebviewPlan, Wry};
use crate::cli::CliConfig;
use crate::webview::{PendingWindow, WindowConfig};
use vstd::prelude::*;

verus! {

/// What the application was prepared with.
#[derive(Debug, PartialEq, Eq)]
pub struct Config {
    /// The windows to make when the application starts.
    pub windows: Vec<WindowConfig>,
    /// The command line of the application.
    pub cli: Option<CliConfig>,
}

/// The name and the version of the application.
#[derive(Clone, Debug, PartialEq, Eq)]
pub struct PackageInfo {
    pub name: String,
    pub version: String,
}

/// User supplied data required inside of an application.
pub struct Context<A> {
    /// The config the application was prepared with.
    pub config: Config,
    /// The assets to be served directly by the application.
    pub assets: A,
    /// The default window icon to use when creating windows.
    pub default_window_icon: Option<Vec<u8>>,
    /// Package information.
    pub package_info: PackageInfo,
}

/// No downstream implementations of [`Params`].
pub trait ParamsBase {

}

/// Types associated with the running application.
pub trait Params: ParamsBase {
    /// The event type used to create and listen to events.
    type Event;

    /// The type used to determine the name of windows.
    type Label;

    /// Assets that the application serves from itself.
    type Assets;
}

/// Managed handle to the application runtime.
pub trait ManagerBase: Sized {
    /// Whether the managed item is the runtime itself, held on the thread
    /// of the event loop.
    spec fn on_loop_thread(&self) -> bool;

    /// What the managed item shares with the event loop.
    spec fn shared(&self) -> DispatcherContext;

    /// The runtime or runtime dispatcher of the managed item: the runtime
    /// itself on the thread of the event loop, a dispatcher anywhere else.
    /// Either way it lends out what the item shares with the loop, and
    /// what is done to that is done to the item; a runtime that comes
    /// back as it was lent leaves the item as it was.
    fn runtime(&mut self) -> (target: RuntimeOrDispatch<'_>)
        ensures
            final(self).on_loop_thread() == old(self).on_loop_thread(),
            match target {
                RuntimeOrDispatch::Runtime(runtime) => {
                    &&& old(self).on_loop_thread()
                    &&& runtime.context == old(self).shared()
                    &&& final(self).shared() == final(runtime).context
                    &&& *final(runtime) == *runtime ==> *final(self) == *old(self)
                },
                RuntimeOrDispatch::Dispatch(_, context) => {
                    &&& !old(self).on_loop_thread()
                    &&& *context == old(self).shared()
                    &&& final(self).shared() == *final(context)
                },
            },
    ;
}

/// Manages a running application.
pub trait Manager: ManagerBase {
    /// Creates a new window on the runtime: see [`create_window`]. On the
    /// thread of the event loop the result is the plan of the window and
    /// the item stays as it was; anywhere else the window is requested
    /// from the loop through what the item shares with it.
    fn create_window(&mut self, pending: PendingWindow) -> (r: Result<NewWindow, Error>)
        ensures
            final(self).on_loop_thread() == old(self).on_loop_thread(),
            old(self).on_loop_thread() ==> r == Ok::<NewWindow, Error>(
                NewWindow::Planned(webview_plan(pending)),
            ) && *final(self) == *old(self),
            !old(self).on_loop_thread() ==> requested(
                old(self).shared(),
                final(self).shared(),
                request_of(r),
                pending,
            ) && !(r matches Ok(NewWindow::Planned(_))),
    {
        create_window(self.runtime(), pending)
    }
}

impl ManagerBase for Wry {
    open spec fn on_loop_thread(&self) -> bool {
        true
    }

    open spec fn shared(&self) -> DispatcherContext {
        self.context
    }

    /// The runtime itself, lent out whole.
    fn runtime(&mut self) -> (target: RuntimeOrDispatch<'_>)
        ensures
            match target {
                RuntimeOrDispatch::Runtime(runtime) => *runtime == *old(self) && *final(self)
                    == *final(runtime),
                RuntimeOrDispatch::Dispatch(_, _) => false,
            },
    {
        RuntimeOrDispatch::Runtime(self)
    }
}

impl Manager for Wry {

}

/// A running runtime or a dispatcher to it.
pub enum RuntimeOrDispatch<'r> {
    /// Mutable reference to the running runtime: the caller is on the
    /// thread of the event loop.
    Runtime(&'r mut Wry),
    /// A dispatcher to the running runtime, with what it shares with it:
    /// the caller is on any other thread.
    Dispatch(WryDispatcher, &'r mut DispatcherContext),
}

/// A new window on its way.
#[derive(Debug, PartialEq, Eq)]
pub enum NewWindow {
    /// The window is to be made now, on this thread, by this plan.
    Planned(WebviewPlan),
    /// The window was requested from the event loop.
    Requested(WindowRequest),
}

/// The request in a new window that was requested.
pub open spec fn request_of(r: Result<NewWindow, Error>) -> Result<WindowRequest, Error> {
    match r {
        Ok(NewWindow::Requested(request)) => Ok(request),
        Ok(NewWindow::Planned(_)) => Err(Error::FailedToSendMessage),
        Err(e) => Err(e),
    }
}

/// Creates a new window on the runtime: on the thread of the event loop by
/// making it then and there, and from any other thread by requesting it
/// from the loop.
pub fn create_window(target: RuntimeOrDispatch<'_>, pending: PendingWindow) -> (r: Result<
    NewWindow,
    Error,
>)
    ensures
        match target {
            RuntimeOrDispatch::Runtime(runtime) => r == Ok::<NewWindow, Error>(
                NewWindow::Planned(webview_plan(pending)),
            ) && *final(runtime) == *runtime,
            RuntimeOrDispatch::Dispatch(_, context) => requested(
                *context,
                *final(context),
                request_of(r),
                pending,
            ) && !(r matches Ok(NewWindow::Planned(_))),
        },
{
    match target {
        RuntimeOrDispatch::Runtime(runtime) => Ok(
            NewWindow::Planned(Wry::create_window(runtime, pending)),
        ),
        RuntimeOrDispatch::Dispatch(mut dispatcher, context) => {
            match dispatcher.create_window(context, pending) {
                Ok(request) => Ok(NewWindow::Requested(request)),
                Err(e) => Err(e),
            }
        },
    }
}

} // verus!
