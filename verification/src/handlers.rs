//! The adapters between the native callbacks of a webview and the handlers
//! of the application.

use crate::dispatcher::{DetachedWindow, WryDispatcher};
use crate::json::JsonValue;
use crate::webview::{FileDropEvent, RpcRequest};
use crate::window::{Callback, WindowId};
use vstd::prelude::*;

verus! {

/// A call from web content as the native webview hands it over.
#[derive(Debug, PartialEq, Eq)]
pub struct NativeRpcRequest {
    /// The identity that the content gave the call.
    pub id: Option<JsonValue>,
    /// The name of what is called.
    pub method: String,
    /// The arguments of the call.
    pub params: Option<JsonValue>,
}

/// A native call from web content, on its way to the handler.
#[derive(Debug, PartialEq, Eq)]
pub struct RpcRequestWrapper(pub NativeRpcRequest);

impl RpcRequest {
    /// The call in the vocabulary of the handler: the method is the
    /// command, and the arguments are passed on.
    pub fn from(request: RpcRequestWrapper) -> (r: RpcRequest)
        ensures
            r == (RpcRequest { command: request.0.method, params: request.0.params }),
    {
        RpcRequest { command: request.0.method, params: request.0.params }
    }
}

/// What the native webview reports of files dragged over a window.
#[derive(Clone, Debug, PartialEq, Eq)]
pub enum NativeFileDropEvent {
    Hovered(Vec<String>),
    Dropped(Vec<String>),
    Cancelled,
}

/// A native file-drop event, on its way to the handler.
#[derive(Clone, Debug, PartialEq, Eq)]
pub struct FileDropEventWrapper(pub NativeFileDropEvent);

/// The event in the vocabulary of the handler: each kind of event is the
/// kind of the same name, with the same paths.
pub open spec fn translate_file_drop(event: NativeFileDropEvent) -> FileDropEvent {
    match event {
        NativeFileDropEvent::Hovered(paths) => FileDropEvent::Hovered(paths),
        NativeFileDropEvent::Dropped(paths) => FileDropEvent::Dropped(paths),
        NativeFileDropEvent::Cancelled => FileDropEvent::Cancelled,
    }
}

impl FileDropEvent {
    /// The event in the vocabulary of the handler.
    pub fn from(event: FileDropEventWrapper) -> (r: FileDropEvent)
        ensures
            r == translate_file_drop(event.0),
    {
        match event.0 {
            NativeFileDropEvent::Hovered(paths) => FileDropEvent::Hovered(paths),
            NativeFileDropEvent::Dropped(paths) => FileDropEvent::Dropped(paths),
            NativeFileDropEvent::Cancelled => FileDropEvent::Cancelled,
        }
    }
}

/// The adapter for calls from the content of one window: the name of the
/// window and the handler of the application.
#[derive(Clone, Debug, PartialEq, Eq)]
pub struct RpcHandler {
    pub label: String,
    pub handler: Callback,
}

/// The adapter for file drops on one window: the name of the window and
/// the handler of the application.
#[derive(Clone, Debug, PartialEq, Eq)]
pub struct FileDropHandler {
    pub label: String,
    pub handler: Callback,
}

/// A call of the application's handler of calls from web content.
#[derive(Debug, PartialEq, Eq)]
pub struct RpcCall {
    /// The handler to call.
    pub handler: Callback,
    /// The window that the call comes from.
    pub window: DetachedWindow,
    /// The call.
    pub request: RpcRequest,
}

/// A call of the application's handler of file drops. What the handler
/// answers, whether it has dealt with the event, is what the native side
/// is told.
#[derive(Debug, PartialEq, Eq)]
pub struct FileDropCall {
    /// The handler to call.
    pub handler: Callback,
    /// The event.
    pub event: FileDropEvent,
    /// The window that the files are over.
    pub window: DetachedWindow,
}

/// An immediate answer to a call from web content. The adapter never gives
/// one.
#[derive(Debug, PartialEq, Eq)]
pub struct RpcResponse {
    pub id: Option<JsonValue>,
    pub result: Option<JsonValue>,
    pub error: Option<JsonValue>,
}

/// Create a native rpc handler from an application's rpc handler.
pub fn create_rpc_handler(label: String, handler: Callback) -> (adapter: RpcHandler)
    ensures
        adapter == (RpcHandler { label, handler }),
{
    RpcHandler { label, handler }
}

/// Create a native file drop handler from an application's file drop
/// handler.
pub fn create_file_drop_handler(label: String, handler: Callback) -> (adapter: FileDropHandler)
    ensures
        adapter == (FileDropHandler { label, handler }),
{
    FileDropHandler { label, handler }
}

impl RpcHandler {
    /// Answers a native call from the content of the window `window_id`:
    /// the application's handler is to be called with the window, by its
    /// name and a dispatcher for its identity, and with the call in the
    /// handler's vocabulary. The native side gets no immediate answer:
    /// whatever the handler has to say to the content, it says through the
    /// dispatcher.
    pub fn call(&self, window_id: WindowId, request: NativeRpcRequest) -> (r: (
        RpcCall,
        Option<RpcResponse>,
    ))
        ensures
            r.1 is None,
            r.0 == (RpcCall {
                handler: self.handler,
                window: DetachedWindow {
                    label: self.label,
                    dispatcher: WryDispatcher { window_id },
                },
                request: RpcRequest { command: request.method, params: request.params },
            }),
    {
        (
            RpcCall {
                handler: self.handler,
                window: DetachedWindow {
                    dispatcher: WryDispatcher { window_id },
                    label: self.label.clone(),
                },
                request: RpcRequest::from(RpcRequestWrapper(request)),
            },
            None,
        )
    }
}

impl FileDropHandler {
    /// Answers a native file-drop event of the window `window_id`: the
    /// application's handler is to be called with the event in its own
    /// vocabulary and with the window, by its name and a dispatcher for
    /// its identity.
    pub fn call(&self, window_id: WindowId, event: NativeFileDropEvent) -> (r: FileDropCall)
        ensures
            r == (FileDropCall {
                handler: self.handler,
                event: translate_file_drop(event),
                window: DetachedWindow {
                    label: self.label,
                    dispatcher: WryDispatcher { window_id },
                },
            }),
    {
        FileDropCall {
            handler: self.handler,
            event: FileDropEvent::from(FileDropEventWrapper(event)),
            window: DetachedWindow {
                dispatcher: WryDispatcher { window_id },
                label: self.label.clone(),
            },
        }
    }
}

/// The one error that a native protocol handler can report.
#[derive(Clone, Copy, Debug, PartialEq, Eq, Structural)]
pub enum ProtocolError {
    InitScriptError,
}

/// What the native side is told of the answer of an application's
/// protocol handler: the bytes that the handler found, or, whatever went
/// wrong in the handler, the one native error.
pub fn custom_protocol_response(answer: Result<Vec<u8>, String>) -> (r: Result<
    Vec<u8>,
    ProtocolError,
>)
    ensures
        match answer {
            Ok(bytes) => r == Ok::<Vec<u8>, ProtocolError>(bytes),
            Err(_) => r == Err::<Vec<u8>, ProtocolError>(ProtocolError::InitScriptError),
        },
{
    match answer {
        Ok(bytes) => Ok(bytes),
        Err(_) => Err(ProtocolError::InitScriptError),
    }
}

} // verus!
