//! Verified core of a desktop application shell: the message protocol between
//! client threads and the thread that owns the native windows, the event-loop
//! step that applies it, and the rules of the update channel and of the
//! tooling around them.
//!
//! Nothing in this crate touches a native toolkit, the network or the file
//! system. The event-loop step answers with the list of native operations to
//! perform, and whoever owns the native objects performs them in that order;
//! what the machine says comes in as plain values.
//!
//! - [`window`], [`dpi`], [`scalar`], [`icon`], [`monitor`], [`webview`]:
//!   the vocabulary of windows and webviews.
//! - [`message`], [`context`], [`dispatcher`]: the commands that cross the
//!   thread boundary, what carries them, and the handle that sends them.
//! - [`runtime`], [`handlers`], [`manager`]: the step of the event loop, and
//!   the adapters for what comes from web content.
//! - [`headless`]: a toolkit without a screen, on which the protocol runs
//!   from end to end.
//! - [`laws`]: what holds of the protocol as a whole.
//! - [`updater`], [`signature`], [`install`]: the update channel.
//! - [`dev`], [`dialog`], [`cli`], [`assets`]: the development loop, the
//!   dialog endpoints, the command line and the embedding of assets.
//! - [`json`], [`text`], [`error`]: values, texts and errors they share.

pub mod assets;
pub mod cli;
pub mod context;
pub mod dev;
pub mod dialog;
pub mod dispatcher;
pub mod dpi;
pub mod error;
pub mod handlers;
pub mod headless;
pub mod icon;
pub mod install;
pub mod json;
pub mod laws;
pub mod manager;
pub mod message;
pub mod monitor;
pub mod runtime;
pub mod scalar;
pub mod signature;
pub mod text;
pub mod updater;
pub mod webview;
pub mod window;
