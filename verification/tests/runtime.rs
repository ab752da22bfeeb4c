use tauri_core::context::{DispatcherContext, ReplySlot};
use tauri_core::dispatcher::{DetachedWindow, WryDispatcher};
use tauri_core::dpi::{LogicalSize, PhysicalPosition, PhysicalSize, Position, Size};
use tauri_core::error::Error;
use tauri_core::headless::{Callbacks, HeadlessRuntime};
use tauri_core::message::{
    Getter, Message, NativeAnswer, NotSupportedError, Reply, ReplyId, WebviewMessage,
    WindowAction, WindowMessage,
};
use tauri_core::runtime::{
    handle_event_loop, Action, ControlFlow, Event, Notification, Wry, WryHandle,
};
use tauri_core::scalar::Scalar;
use tauri_core::webview::{Fullscreen, PendingWindow, WindowBuilderWrapper, WindowConfig};
use tauri_core::window::{
    Callback, ListenerId, MenuEvent, MenuType, NativeWindowEvent, SystemTrayEvent, WindowEvent,
    WindowEventWrapper, WindowId,
};

fn scalar(value: f64) -> Scalar {
    Scalar::from_bits(value.to_bits())
}

fn pending(title: &str) -> PendingWindow {
    PendingWindow::new(
        WindowBuilderWrapper::new().title(title.to_string()),
        title.to_string(),
        "tauri://localhost".to_string(),
    )
}

/// Requests a window through the handle, lets the loop make it, and hands
/// back the window.
fn open_window(headless: &mut HeadlessRuntime, declared: PendingWindow) -> DetachedWindow {
    let handle: WryHandle = headless.runtime.handle();
    let request = handle
        .create_window(&mut headless.runtime.context, declared)
        .expect("the loop exists");
    let reply_id = request.reply;
    headless.run_iteration();
    let reply = headless
        .runtime
        .context
        .replies
        .take(reply_id)
        .expect("the window was made");
    request.finish(reply).expect("the reply names a window")
}

fn live(runtime: &mut Wry, id: u64) {
    runtime.webviews.insert(WindowId(id));
}

#[test]
fn setters_take_effect_in_the_order_sent() {
    let mut runtime = Wry::new();
    live(&mut runtime, 7);
    let dispatcher = WryDispatcher::new(WindowId(7));
    dispatcher.set_title(&mut runtime.context, "one".to_string()).unwrap();
    dispatcher.maximize(&mut runtime.context).unwrap();
    dispatcher
        .set_size(
            &mut runtime.context,
            Size::Physical(PhysicalSize { width: 10, height: 20 }),
        )
        .unwrap();
    dispatcher.set_title(&mut runtime.context, "two".to_string()).unwrap();
    dispatcher.hide_window(&mut runtime.context).unwrap();

    let mut asked = Vec::new();
    let mut flow = ControlFlow::Wait;
    while runtime.context.proxy.has_event() {
        let tick = runtime.run_iteration(&mut flow);
        assert_eq!(flow, ControlFlow::Wait);
        asked.extend(tick.actions);
    }
    assert_eq!(
        asked,
        vec![
            Action::Window(WindowId(7), WindowAction::SetTitle("one".to_string())),
            Action::Window(WindowId(7), WindowAction::SetMaximized(true)),
            Action::Window(
                WindowId(7),
                WindowAction::SetInnerSize(Size::Physical(PhysicalSize { width: 10, height: 20 }))
            ),
            Action::Window(WindowId(7), WindowAction::SetTitle("two".to_string())),
            Action::Window(WindowId(7), WindowAction::SetVisible(false)),
        ]
    );
    assert_eq!(runtime.webview_count(), 1);
}

#[test]
fn every_setter_stands_for_its_native_operation() {
    let id = WindowId(3);
    let cases: Vec<(WindowMessage, Option<WindowAction>)> = vec![
        (WindowMessage::SetResizable(true), Some(WindowAction::SetResizable(true))),
        (WindowMessage::Maximize, Some(WindowAction::SetMaximized(true))),
        (WindowMessage::Unmaximize, Some(WindowAction::SetMaximized(false))),
        (WindowMessage::Minimize, Some(WindowAction::SetMinimized(true))),
        (WindowMessage::Unminimize, Some(WindowAction::SetMinimized(false))),
        (WindowMessage::Show, Some(WindowAction::SetVisible(true))),
        (WindowMessage::Hide, Some(WindowAction::SetVisible(false))),
        (WindowMessage::Close, None),
        (WindowMessage::SetDecorations(false), Some(WindowAction::SetDecorations(false))),
        (WindowMessage::SetAlwaysOnTop(true), Some(WindowAction::SetAlwaysOnTop(true))),
        (WindowMessage::SetMinSize(None), Some(WindowAction::SetMinInnerSize(None))),
        (WindowMessage::SetMaxSize(None), Some(WindowAction::SetMaxInnerSize(None))),
        (
            WindowMessage::SetPosition(Position::Physical(PhysicalPosition { x: -1, y: 2 })),
            Some(WindowAction::SetOuterPosition(Position::Physical(PhysicalPosition {
                x: -1,
                y: 2,
            }))),
        ),
        (
            WindowMessage::SetFullscreen(true),
            Some(WindowAction::SetFullscreen(Some(Fullscreen::Borderless))),
        ),
        (WindowMessage::SetFullscreen(false), Some(WindowAction::SetFullscreen(None))),
        (WindowMessage::SetFocus, Some(WindowAction::SetFocus)),
        (WindowMessage::SetSkipTaskbar(true), Some(WindowAction::SetSkipTaskbar(true))),
        (WindowMessage::DragWindow, Some(WindowAction::DragWindow)),
        (
            WindowMessage::IsFullscreen(ReplyId(4)),
            Some(WindowAction::Query(Getter::Fullscreen, ReplyId(4))),
        ),
        (
            WindowMessage::AvailableMonitors(ReplyId(5)),
            Some(WindowAction::Query(Getter::AvailableMonitors, ReplyId(5))),
        ),
    ];
    for (message, expected) in cases {
        let mut runtime = Wry::new();
        live(&mut runtime, 3);
        let mut flow = ControlFlow::Wait;
        let tick = handle_event_loop(
            Event::UserEvent(Message::Window(id, message)),
            &mut flow,
            &mut runtime,
        );
        match expected {
            Some(action) => assert_eq!(tick.actions, vec![Action::Window(id, action)]),
            None => assert_eq!(tick.actions, vec![Action::DropWebview(id)]),
        }
    }
}

#[test]
fn getter_reads_the_value_at_application() {
    let mut headless = HeadlessRuntime::new();
    let window = open_window(&mut headless, pending("A"));
    let dispatcher = window.dispatcher;

    // Ask before the size is set by nobody: the default.
    let before = dispatcher.inner_size(&mut headless.runtime.context).unwrap();
    // Set the size and ask again, both before the loop gets to anything.
    dispatcher
        .set_size(
            &mut headless.runtime.context,
            Size::Physical(PhysicalSize { width: 320, height: 200 }),
        )
        .unwrap();
    let after = dispatcher.inner_size(&mut headless.runtime.context).unwrap();
    assert!(headless.runtime.context.replies.is_waiting(before));
    assert!(headless.runtime.context.replies.is_waiting(after));

    headless.run_iteration();
    headless.run_iteration();
    headless.run_iteration();
    assert_eq!(
        headless.runtime.context.replies.take(before),
        Some(Reply::InnerSize(PhysicalSize { width: 800, height: 600 }))
    );
    assert_eq!(
        headless.runtime.context.replies.take(after),
        Some(Reply::InnerSize(PhysicalSize { width: 320, height: 200 }))
    );
    // A reply is read once.
    assert_eq!(headless.runtime.context.replies.take(after), None);
}

#[test]
fn logical_size_is_rounded_by_the_headless_toolkit() {
    let mut headless = HeadlessRuntime::new();
    let window = open_window(&mut headless, pending("A"));
    let dispatcher = window.dispatcher;
    dispatcher
        .set_size(
            &mut headless.runtime.context,
            Size::Logical(LogicalSize { width: scalar(640.5), height: scalar(479.4) }),
        )
        .unwrap();
    let asked = dispatcher.inner_size(&mut headless.runtime.context).unwrap();
    headless.run_iteration();
    headless.run_iteration();
    assert_eq!(
        headless.runtime.context.replies.take(asked),
        Some(Reply::InnerSize(PhysicalSize { width: 641, height: 479 }))
    );
}

#[test]
fn created_windows_have_distinct_ids_and_closing_all_stops_the_loop() {
    let mut headless = HeadlessRuntime::new();
    let n = 5;
    let mut windows = Vec::new();
    for i in 0..n {
        windows.push(open_window(&mut headless, pending(&format!("w{}", i))));
        assert_eq!(headless.runtime.webview_count(), i + 1);
        assert_eq!(headless.control_flow, ControlFlow::Wait);
    }
    for a in 0..n {
        for b in 0..n {
            if a != b {
                assert_ne!(windows[a].dispatcher.window_id, windows[b].dispatcher.window_id);
            }
        }
    }
    // Close them in another order than they were made in.
    let order = [3usize, 0, 4, 1, 2];
    for (closed, at) in order.iter().enumerate() {
        windows[*at].dispatcher.close(&mut headless.runtime.context).unwrap();
        let callbacks = headless.run_iteration();
        assert_eq!(callbacks.iteration.webview_count, n - closed - 1);
        if closed + 1 < n {
            assert_eq!(headless.control_flow, ControlFlow::Wait);
        } else {
            assert_eq!(headless.control_flow, ControlFlow::Exit);
        }
    }
    assert_eq!(headless.runtime.webview_count(), 0);
    assert!(headless.toolkit.windows.is_empty());
}

#[test]
fn command_for_a_closed_window_is_dropped() {
    let mut headless = HeadlessRuntime::new();
    let first = open_window(&mut headless, pending("A"));
    let second = open_window(&mut headless, pending("B"));
    first.dispatcher.close(&mut headless.runtime.context).unwrap();
    headless.run_iteration();
    assert_eq!(headless.control_flow, ControlFlow::Wait);

    // A setter and a getter for the window that is gone.
    first.dispatcher.set_title(&mut headless.runtime.context, "late".to_string()).unwrap();
    let asked = first.dispatcher.is_visible(&mut headless.runtime.context).unwrap();
    let mut flow = ControlFlow::Wait;
    let tick = headless.runtime.run_iteration(&mut flow);
    assert!(tick.actions.is_empty());
    assert_eq!(tick.notification, None);
    assert_eq!(flow, ControlFlow::Wait);
    let tick = headless.runtime.run_iteration(&mut flow);
    assert!(tick.actions.is_empty());
    assert_eq!(flow, ControlFlow::Wait);
    assert_eq!(tick.iteration.webview_count, 1);
    // The answer never comes.
    assert!(headless.runtime.context.replies.is_waiting(asked));
    assert_eq!(headless.runtime.context.replies.take(asked), None);
    // The other window is untouched.
    let other = headless.toolkit.window(second.dispatcher.window_id).unwrap();
    assert_eq!(other.title, Some("B".to_string()));
}

#[test]
fn webview_command_for_an_unknown_window_is_dropped() {
    let mut runtime = Wry::new();
    live(&mut runtime, 1);
    let mut flow = ControlFlow::Wait;
    let tick = handle_event_loop(
        Event::UserEvent(Message::Webview(
            WindowId(2),
            WebviewMessage::EvaluateScript("1 + 1".to_string()),
        )),
        &mut flow,
        &mut runtime,
    );
    assert!(tick.actions.is_empty());
    let tick = handle_event_loop(
        Event::UserEvent(Message::Webview(WindowId(1), WebviewMessage::Print)),
        &mut flow,
        &mut runtime,
    );
    assert_eq!(tick.actions, vec![Action::Print(WindowId(1))]);
    let tick = handle_event_loop(
        Event::UserEvent(Message::Webview(
            WindowId(1),
            WebviewMessage::EvaluateScript("1 + 1".to_string()),
        )),
        &mut flow,
        &mut runtime,
    );
    assert_eq!(tick.actions, vec![Action::DispatchScript(WindowId(1), "1 + 1".to_string())]);
}

#[test]
fn declared_attributes_come_back_from_the_made_window() {
    let mut headless = HeadlessRuntime::new();
    let builder = WindowBuilderWrapper::new()
        .title("T".to_string())
        .inner_size(scalar(800.0), scalar(600.0))
        .resizable(false);
    assert_eq!(builder.0.position, None);
    let declared = PendingWindow::new(builder, "main".to_string(), "tauri://app".to_string());
    let window = open_window(&mut headless, declared);
    assert_eq!(window.label, "main");
    let dispatcher = window.dispatcher;

    let context = &mut headless.runtime.context;
    let size = dispatcher.inner_size(context).unwrap();
    let resizable = dispatcher.is_resizable(context).unwrap();
    let visible = dispatcher.is_visible(context).unwrap();
    let decorated = dispatcher.is_decorated(context).unwrap();
    let maximized = dispatcher.is_maximized(context).unwrap();
    let fullscreen = dispatcher.is_fullscreen(context).unwrap();
    let position = dispatcher.outer_position(context).unwrap();
    for _ in 0..7 {
        headless.run_iteration();
    }
    let replies = &mut headless.runtime.context.replies;
    assert_eq!(
        replies.take(size),
        Some(Reply::InnerSize(PhysicalSize { width: 800, height: 600 }))
    );
    assert_eq!(replies.take(resizable), Some(Reply::IsResizable(false)));
    assert_eq!(replies.take(visible), Some(Reply::IsVisible(true)));
    assert_eq!(replies.take(decorated), Some(Reply::IsDecorated(true)));
    assert_eq!(replies.take(maximized), Some(Reply::IsMaximized(false)));
    assert_eq!(replies.take(fullscreen), Some(Reply::IsFullscreen(false)));
    // No position was declared: the default of the toolkit.
    assert_eq!(
        replies.take(position),
        Some(Reply::OuterPosition(Ok(PhysicalPosition { x: 0, y: 0 })))
    );
    let made = headless.toolkit.window(dispatcher.window_id).unwrap();
    assert_eq!(made.title, Some("T".to_string()));
    assert_eq!(made.url, "tauri://app");
}

#[test]
fn configuration_becomes_attributes() {
    let config = WindowConfig {
        label: "main".to_string(),
        url: "index.html".to_string(),
        x: Some(scalar(10.0)),
        y: None,
        width: scalar(800.0),
        height: scalar(600.0),
        min_width: Some(scalar(100.0)),
        min_height: Some(scalar(50.0)),
        max_width: None,
        max_height: Some(scalar(900.0)),
        resizable: false,
        title: "T".to_string(),
        fullscreen: true,
        focus: false,
        transparent: true,
        maximized: true,
        visible: false,
        decorations: false,
        always_on_top: true,
        skip_taskbar: true,
    };
    let attributes = WindowBuilderWrapper::with_config(config).0;
    assert_eq!(attributes.title, Some("T".to_string()));
    assert_eq!(
        attributes.inner_size,
        Some(Size::Logical(LogicalSize { width: scalar(800.0), height: scalar(600.0) }))
    );
    assert_eq!(
        attributes.min_inner_size,
        Some(Size::Logical(LogicalSize { width: scalar(100.0), height: scalar(50.0) }))
    );
    // Only one of the two numbers is given: left to the toolkit.
    assert_eq!(attributes.max_inner_size, None);
    assert_eq!(attributes.position, None);
    assert!(!attributes.resizable);
    assert_eq!(attributes.fullscreen, Some(Fullscreen::Borderless));
    assert!(attributes.transparent);
    assert!(attributes.maximized);
    assert!(!attributes.visible);
    assert!(!attributes.decorations);
    assert!(attributes.always_on_top);
    assert!(attributes.skip_taskbar);
    assert!(attributes.window_icon.is_none());
    assert!(attributes.window_menu.is_none());
}

#[test]
fn close_request_reaches_both_listeners_once() {
    let mut runtime = Wry::new();
    live(&mut runtime, 1);
    live(&mut runtime, 2);
    let first = WryDispatcher::new(WindowId(1)).on_window_event(&mut runtime.context);
    let second = WryDispatcher::new(WindowId(2)).on_window_event(&mut runtime.context);
    assert_ne!(first, second);
    let menu = WryDispatcher::new(WindowId(1)).on_menu_event(&mut runtime.context);

    let mut flow = ControlFlow::Wait;
    let tick = handle_event_loop(
        Event::WindowEvent { window_id: WindowId(1), event: NativeWindowEvent::CloseRequested },
        &mut flow,
        &mut runtime,
    );
    assert_eq!(tick.notification, Some(Notification::Window(WindowEvent::CloseRequested)));
    assert_eq!(tick.listeners.iter().filter(|l| **l == first).count(), 1);
    assert_eq!(tick.listeners.iter().filter(|l| **l == second).count(), 1);
    assert_eq!(tick.listeners.len(), 2);
    assert!(!tick.listeners.contains(&menu));
    // The window that was asked to close is given up; one is left.
    assert_eq!(tick.actions, vec![Action::DropWebview(WindowId(1))]);
    assert_eq!(flow, ControlFlow::Wait);
    assert_eq!(tick.iteration.webview_count, 1);
}

#[test]
fn listener_ids_are_random_uuids() {
    let mut runtime = Wry::new();
    let dispatcher = WryDispatcher::new(WindowId(1));
    let mut seen = Vec::new();
    for _ in 0..50 {
        let ListenerId(id) = dispatcher.on_window_event(&mut runtime.context);
        // Version 4, variant RFC 4122.
        assert_eq!((id >> 76) & 0xf, 4);
        assert_eq!((id >> 62) & 0x3, 2);
        assert!(!seen.contains(&id));
        seen.push(id);
    }
    assert_eq!(runtime.context.window_event_listeners.len(), 50);
    let tray = runtime.on_system_tray_event();
    assert_eq!((tray.0 >> 76) & 0xf, 4);
    assert_eq!(runtime.system_tray_event_listeners.ids(), vec![tray]);
}

#[test]
fn menu_events_go_to_the_listeners_of_their_origin() {
    let mut runtime = Wry::new();
    let dispatcher = WryDispatcher::new(WindowId(1));
    let window_listener = dispatcher.on_window_event(&mut runtime.context);
    let menu_listener = dispatcher.on_menu_event(&mut runtime.context);
    let tray_listener = runtime.on_system_tray_event();
    let mut flow = ControlFlow::Exit;

    let tick = handle_event_loop(
        Event::MenuEvent { menu_id: 9, origin: MenuType::Menubar },
        &mut flow,
        &mut runtime,
    );
    assert_eq!(flow, ControlFlow::Wait);
    assert_eq!(tick.notification, Some(Notification::Menu(MenuEvent { menu_item_id: 9 })));
    assert_eq!(tick.listeners, vec![menu_listener]);
    assert!(tick.actions.is_empty());

    let tick = handle_event_loop(
        Event::MenuEvent { menu_id: 11, origin: MenuType::SystemTray },
        &mut flow,
        &mut runtime,
    );
    assert_eq!(
        tick.notification,
        Some(Notification::SystemTray(SystemTrayEvent { menu_item_id: 11 }))
    );
    assert_eq!(tick.listeners, vec![tray_listener]);

    let tick = handle_event_loop(
        Event::WindowEvent { window_id: WindowId(5), event: NativeWindowEvent::Focused(true) },
        &mut flow,
        &mut runtime,
    );
    assert_eq!(tick.notification, Some(Notification::Window(WindowEvent::Focused(true))));
    assert_eq!(tick.listeners, vec![window_listener]);
}

#[test]
fn only_the_public_window_events_are_told() {
    let size = PhysicalSize { width: 3u32, height: 4u32 };
    let position = PhysicalPosition { x: -3i32, y: 4i32 };
    assert_eq!(
        WindowEventWrapper::from(&NativeWindowEvent::Resized(size)).0,
        Some(WindowEvent::Resized(size))
    );
    assert_eq!(
        WindowEventWrapper::from(&NativeWindowEvent::Moved(position)).0,
        Some(WindowEvent::Moved(position))
    );
    assert_eq!(
        WindowEventWrapper::from(&NativeWindowEvent::Destroyed).0,
        Some(WindowEvent::Destroyed)
    );
    assert_eq!(
        WindowEventWrapper::from(&NativeWindowEvent::ScaleFactorChanged {
            scale_factor: scalar(1.5),
            new_inner_size: size
        })
        .0,
        Some(WindowEvent::ScaleFactorChanged { scale_factor: scalar(1.5), new_inner_size: size })
    );
    for dropped in [
        NativeWindowEvent::DroppedFile,
        NativeWindowEvent::HoveredFile,
        NativeWindowEvent::HoveredFileCancelled,
        NativeWindowEvent::ReceivedImeText,
        NativeWindowEvent::KeyboardInput,
        NativeWindowEvent::ModifiersChanged,
        NativeWindowEvent::CursorMoved,
        NativeWindowEvent::CursorEntered,
        NativeWindowEvent::CursorLeft,
        NativeWindowEvent::MouseWheel,
        NativeWindowEvent::MouseInput,
        NativeWindowEvent::TouchpadPressure,
        NativeWindowEvent::AxisMotion,
        NativeWindowEvent::Touch,
        NativeWindowEvent::ThemeChanged,
    ] {
        assert_eq!(WindowEventWrapper::from(&dropped).0, None);
        let mut runtime = Wry::new();
        WryDispatcher::new(WindowId(1)).on_window_event(&mut runtime.context);
        let mut flow = ControlFlow::Wait;
        let tick = handle_event_loop(
            Event::WindowEvent { window_id: WindowId(1), event: dropped },
            &mut flow,
            &mut runtime,
        );
        assert_eq!(tick.notification, None);
        assert!(tick.listeners.is_empty());
    }
}

#[test]
fn resize_fits_the_webview_of_a_live_window_only() {
    let mut runtime = Wry::new();
    live(&mut runtime, 1);
    let mut flow = ControlFlow::Wait;
    let size = PhysicalSize { width: 3u32, height: 4u32 };
    let tick = handle_event_loop(
        Event::WindowEvent { window_id: WindowId(1), event: NativeWindowEvent::Resized(size) },
        &mut flow,
        &mut runtime,
    );
    assert_eq!(tick.actions, vec![Action::ResizeWebview(WindowId(1))]);
    let tick = handle_event_loop(
        Event::WindowEvent { window_id: WindowId(2), event: NativeWindowEvent::Resized(size) },
        &mut flow,
        &mut runtime,
    );
    assert!(tick.actions.is_empty());
    assert_eq!(tick.notification, Some(Notification::Window(WindowEvent::Resized(size))));
}

#[test]
fn close_request_on_an_empty_table_stops_the_loop() {
    let mut runtime = Wry::new();
    let mut flow = ControlFlow::Wait;
    let tick = handle_event_loop(
        Event::WindowEvent { window_id: WindowId(1), event: NativeWindowEvent::CloseRequested },
        &mut flow,
        &mut runtime,
    );
    assert!(tick.actions.is_empty());
    assert_eq!(flow, ControlFlow::Exit);
    // A client that closes a window that is not there stops nothing.
    let tick = handle_event_loop(
        Event::UserEvent(Message::Window(WindowId(1), WindowMessage::Close)),
        &mut flow,
        &mut runtime,
    );
    assert!(tick.actions.is_empty());
    assert_eq!(flow, ControlFlow::Wait);
}

#[test]
fn tasks_run_before_the_event_and_oldest_first() {
    let mut runtime = Wry::new();
    live(&mut runtime, 1);
    live(&mut runtime, 2);
    let dispatcher = WryDispatcher::new(WindowId(1));
    dispatcher.run_on_main_thread(&mut runtime.context, Callback(30)).unwrap();
    dispatcher.run_on_main_thread(&mut runtime.context, Callback(10)).unwrap();
    dispatcher.run_on_main_thread(&mut runtime.context, Callback(20)).unwrap();
    let mut flow = ControlFlow::Wait;
    let tick = handle_event_loop(Event::Other, &mut flow, &mut runtime);
    assert_eq!(tick.flushed, vec![WindowId(1), WindowId(2)]);
    assert_eq!(tick.tasks, vec![Callback(30), Callback(10), Callback(20)]);
    assert!(tick.actions.is_empty());
    assert_eq!(tick.notification, None);
    // The queue was drained.
    let tick = handle_event_loop(Event::Other, &mut flow, &mut runtime);
    assert!(tick.tasks.is_empty());

    runtime.context.task_tx.close();
    assert_eq!(
        dispatcher.run_on_main_thread(&mut runtime.context, Callback(1)),
        Err(Error::FailedToSendMessage)
    );
}

#[test]
fn sending_fails_once_the_loop_is_gone() {
    let mut context = DispatcherContext::new();
    let mut dispatcher = WryDispatcher::new(WindowId(1));
    dispatcher.set_title(&mut context, "kept".to_string()).unwrap();
    context.proxy.close();
    assert_eq!(
        dispatcher.set_title(&mut context, "lost".to_string()),
        Err(Error::FailedToSendMessage)
    );
    assert_eq!(dispatcher.close(&mut context), Err(Error::FailedToSendMessage));
    assert_eq!(dispatcher.print(&mut context), Err(Error::FailedToSendMessage));
    assert_eq!(
        dispatcher.eval_script(&mut context, "x".to_string()),
        Err(Error::FailedToSendMessage)
    );
    assert_eq!(dispatcher.scale_factor(&mut context), Err(Error::FailedToSendMessage));
    assert_eq!(
        dispatcher.create_window(&mut context, pending("A")),
        Err(Error::FailedToSendMessage)
    );
    assert_eq!(
        WryHandle {}.create_window(&mut context, pending("A")),
        Err(Error::FailedToSendMessage)
    );
    // Nothing was queued, no reply channel and no slot was made.
    assert_eq!(
        context.proxy.next_event(),
        Some(Message::Window(WindowId(1), WindowMessage::SetTitle("kept".to_string())))
    );
    assert_eq!(context.proxy.next_event(), None);
    assert!(!context.replies.is_waiting(ReplyId(0)));
    assert_eq!(Error::FailedToSendMessage.message(), "failed to send message to the webview");
}

#[test]
fn creation_request_is_served_once() {
    let mut runtime = Wry::new();
    let request = WryHandle {}.create_window(&mut runtime.context, pending("A")).unwrap();
    let message = runtime.context.proxy.next_event().unwrap();
    let mut flow = ControlFlow::Wait;
    let tick = handle_event_loop(Event::UserEvent(message.clone()), &mut flow, &mut runtime);
    assert_eq!(tick.actions.len(), 1);
    match &tick.actions[0] {
        Action::CreateWebview(plan, reply) => {
            assert_eq!(*reply, request.reply);
            assert_eq!(plan.label, "A");
            assert_eq!(plan.url, "tauri://localhost");
            assert_eq!(plan.window.title, Some("A".to_string()));
            assert!(!plan.transparent);
            assert_eq!(plan.rpc_handler, None);
        }
        other => panic!("unexpected action {:?}", other),
    }
    // The same request a second time finds its slot empty.
    let tick = handle_event_loop(Event::UserEvent(message), &mut flow, &mut runtime);
    assert!(tick.actions.is_empty());
    // The window is not in the table before the native side has made it.
    assert_eq!(tick.iteration.webview_count, 0);

    // A failure is not reported to whoever asked.
    runtime.webview_created(request.reply, Err("no display".to_string()));
    assert!(runtime.context.replies.is_waiting(request.reply));
    assert_eq!(runtime.webview_count(), 0);
    assert_eq!(runtime.iteration().webview_count, 0);
    runtime.webview_created(request.reply, Ok(WindowId(40)));
    assert_eq!(runtime.webview_count(), 1);
    // The summary of the step counts the window once it is made.
    assert_eq!(runtime.iteration().webview_count, 1);
    assert_eq!(
        runtime.context.replies.take(request.reply),
        Some(Reply::WindowCreated(WindowId(40)))
    );
}

#[test]
fn window_made_on_the_loop_thread_is_attached_or_refused() {
    let mut runtime = Wry::new();
    let plan = runtime.create_window(pending("A"));
    assert_eq!(plan.label, "A");
    let window = runtime.attach_window(plan.label.clone(), Ok(WindowId(5))).unwrap();
    assert_eq!(window.label, "A");
    assert_eq!(window.dispatcher, WryDispatcher::new(WindowId(5)));
    assert_eq!(runtime.webview_count(), 1);
    // The same identity again stays in the table once.
    runtime.attach_window("B".to_string(), Ok(WindowId(5))).unwrap();
    assert_eq!(runtime.webview_count(), 1);
    assert_eq!(
        runtime.attach_window("C".to_string(), Err("no display".to_string())),
        Err(Error::CreateWebview("no display".to_string()))
    );
    assert_eq!(runtime.webview_count(), 1);
    assert_eq!(
        Error::CreateWebview("no display".to_string()).message(),
        "failed to create webview: no display"
    );
}

#[test]
fn native_answers_become_replies() {
    let mut runtime = Wry::new();
    let dispatcher = WryDispatcher::new(WindowId(1));
    let inner = dispatcher.inner_position(&mut runtime.context).unwrap();
    let outer = dispatcher.outer_position(&mut runtime.context).unwrap();
    let full = dispatcher.is_fullscreen(&mut runtime.context).unwrap();
    let scale = dispatcher.scale_factor(&mut runtime.context).unwrap();
    assert_eq!((inner, outer, full, scale), (ReplyId(0), ReplyId(1), ReplyId(2), ReplyId(3)));
    runtime.answer(inner, NativeAnswer::InnerPosition(Err(NotSupportedError)));
    runtime.answer(outer, NativeAnswer::OuterPosition(Ok(PhysicalPosition { x: 5, y: -6 })));
    runtime.answer(full, NativeAnswer::Fullscreen(Some(Fullscreen::Borderless)));
    runtime.answer(scale, NativeAnswer::ScaleFactor(scalar(1.25)));
    // A second answer for a channel that has one is dropped.
    runtime.answer(full, NativeAnswer::Fullscreen(None));
    // An answer for a channel that was never made is dropped.
    runtime.answer(ReplyId(99), NativeAnswer::IsVisible(true));
    let replies = &mut runtime.context.replies;
    assert_eq!(replies.take(inner), Some(Reply::InnerPosition(Err(Error::FailedToSendMessage))));
    assert_eq!(
        replies.take(outer),
        Some(Reply::OuterPosition(Ok(PhysicalPosition { x: 5, y: -6 })))
    );
    assert_eq!(replies.take(full), Some(Reply::IsFullscreen(true)));
    assert_eq!(replies.take(scale), Some(Reply::ScaleFactor(scalar(1.25))));
    assert_eq!(replies.take(ReplyId(99)), None);
}

#[test]
fn scenario_create_ask_close() {
    // The loop runs with no window.
    let mut headless = HeadlessRuntime::new();
    assert_eq!(headless.runtime.webview_count(), 0);
    // A client asks for a window titled "A".
    let window = open_window(&mut headless, pending("A"));
    assert_eq!(headless.runtime.webview_count(), 1);
    assert_eq!(headless.control_flow, ControlFlow::Wait);
    // Another client asks the window for its size: the default.
    let dispatcher = window.dispatcher;
    let asked = dispatcher.inner_size(&mut headless.runtime.context).unwrap();
    let callbacks: Callbacks = headless.run_iteration();
    assert_eq!(callbacks.iteration.webview_count, 1);
    assert_eq!(
        headless.runtime.context.replies.take(asked),
        Some(Reply::InnerSize(PhysicalSize { width: 800, height: 600 }))
    );
    // Closing it empties the table and ends the run of the loop.
    dispatcher.close(&mut headless.runtime.context).unwrap();
    dispatcher.set_title(&mut headless.runtime.context, "late".to_string()).unwrap();
    let steps = headless.run();
    assert_eq!(steps.len(), 1);
    assert_eq!(steps[0].iteration.webview_count, 0);
    assert_eq!(headless.control_flow, ControlFlow::Exit);
    assert_eq!(headless.runtime.webview_count(), 0);
    // The loop is gone: nothing is received any more.
    assert_eq!(
        dispatcher.set_title(&mut headless.runtime.context, "lost".to_string()),
        Err(Error::FailedToSendMessage)
    );
    assert_eq!(
        dispatcher.run_on_main_thread(&mut headless.runtime.context, Callback(1)),
        Err(Error::FailedToSendMessage)
    );
    assert_eq!(dispatcher.inner_size(&mut headless.runtime.context), Err(Error::FailedToSendMessage));
    let _ = ReplySlot::Waiting;
}

#[test]
fn loop_runs_until_it_has_nothing_to_do() {
    let mut headless = HeadlessRuntime::new();
    assert!(headless.run().is_empty());
    let first = open_window(&mut headless, pending("A"));
    let second = open_window(&mut headless, pending("B"));
    first.dispatcher.maximize(&mut headless.runtime.context).unwrap();
    first.dispatcher.eval_script(&mut headless.runtime.context, "one()".to_string()).unwrap();
    first.dispatcher.eval_script(&mut headless.runtime.context, "two()".to_string()).unwrap();
    first.dispatcher.print(&mut headless.runtime.context).unwrap();
    second.dispatcher.start_dragging(&mut headless.runtime.context).unwrap();
    second.dispatcher.close(&mut headless.runtime.context).unwrap();
    let steps = headless.run();
    assert_eq!(steps.len(), 6);
    assert_eq!(headless.control_flow, ControlFlow::Wait);
    assert!(!headless.runtime.context.proxy.has_event());
    let window = headless.toolkit.window(first.dispatcher.window_id).unwrap();
    assert!(window.maximized);
    assert!(window.printed);
    assert_eq!(window.scripts, vec!["one()".to_string(), "two()".to_string()]);
    assert!(headless.toolkit.window(second.dispatcher.window_id).is_none());
    // The loop can be run again.
    first.dispatcher.unmaximize(&mut headless.runtime.context).unwrap();
    assert_eq!(headless.run().len(), 1);
    assert!(!headless.toolkit.window(first.dispatcher.window_id).unwrap().maximized);
}

#[test]
fn window_is_made_on_the_loop_thread_of_the_headless_runtime() {
    let mut headless = HeadlessRuntime::new();
    let first = headless.create_window(pending("A")).unwrap();
    let second = headless.create_window(pending("B")).unwrap();
    assert_eq!(first.label, "A");
    assert_eq!(second.label, "B");
    assert_ne!(first.dispatcher.window_id, second.dispatcher.window_id);
    assert_eq!(headless.runtime.webview_count(), 2);
    // Nothing was sent for it.
    assert!(!headless.runtime.context.proxy.has_event());
    assert_eq!(
        headless.toolkit.window(second.dispatcher.window_id).unwrap().title,
        Some("B".to_string())
    );
    // A toolkit that has run out of identities makes no window.
    headless.toolkit.next_id = u64::MAX;
    match headless.create_window(pending("C")) {
        Err(Error::CreateWebview(cause)) => assert!(!cause.is_empty()),
        other => panic!("unexpected {:?}", other),
    }
    assert_eq!(headless.runtime.webview_count(), 2);
    // Neither on request: the request stays unanswered.
    let request = WryHandle {}.create_window(&mut headless.runtime.context, pending("D")).unwrap();
    headless.run_iteration();
    assert!(headless.runtime.context.replies.is_waiting(request.reply));
    assert_eq!(headless.runtime.webview_count(), 2);
}

#[test]
fn tasks_are_taken_until_none_waits_before_the_step() {
    let mut runtime = Wry::new();
    let dispatcher = WryDispatcher::new(WindowId(1));
    dispatcher.run_on_main_thread(&mut runtime.context, Callback(1)).unwrap();
    dispatcher.run_on_main_thread(&mut runtime.context, Callback(2)).unwrap();
    assert_eq!(runtime.take_tasks(), vec![Callback(1), Callback(2)]);
    // A task that runs queues another, and registers a listener.
    dispatcher.run_on_main_thread(&mut runtime.context, Callback(3)).unwrap();
    let listener = dispatcher.on_window_event(&mut runtime.context);
    assert_eq!(runtime.take_tasks(), vec![Callback(3)]);
    assert!(runtime.take_tasks().is_empty());
    // The step then hands over no task, and names the listener.
    let mut flow = ControlFlow::Exit;
    let tick = handle_event_loop(
        Event::WindowEvent { window_id: WindowId(1), event: NativeWindowEvent::Focused(true) },
        &mut flow,
        &mut runtime,
    );
    assert!(tick.tasks.is_empty());
    assert_eq!(tick.listeners, vec![listener]);
    assert_eq!(flow, ControlFlow::Wait);
}

#[test]
fn requested_window_is_made_by_the_step_that_takes_the_request_up() {
    let mut headless = HeadlessRuntime::new();
    let first = headless.create_window(pending("A")).unwrap();
    // Something else is under way before the request.
    first.dispatcher.set_title(&mut headless.runtime.context, "a".to_string()).unwrap();
    let request = WryHandle {}.create_window(&mut headless.runtime.context, pending("B")).unwrap();
    assert_eq!(request.label, "B");
    headless.run_iteration();
    assert_eq!(headless.runtime.webview_count(), 1);
    headless.run_iteration();
    assert_eq!(headless.runtime.webview_count(), 2);
    let made = headless.toolkit.windows.last().unwrap();
    assert_eq!(made.label, "B");
    assert_eq!(made.title, Some("B".to_string()));
    assert_ne!(made.id, first.dispatcher.window_id);
    assert_eq!(
        headless.runtime.context.replies.take(request.reply),
        Some(Reply::WindowCreated(made.id))
    );
}
