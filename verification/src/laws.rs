//! What holds of the protocol as a whole, proved from the contracts of its
//! parts.

use crate::context::DispatcherContext;
use crate::context::{Handlers, Listeners, Replies, ReplySlot};
use crate::dispatcher::{asked, question, requested, Question, WindowRequest};
use crate::dpi::Size;
use crate::error::Error;
use crate::headless::{
    answers, default_position, default_size, fed_back, ids_of, iterated, made_of, performed,
    resolved_position, resolved_size, window_after, Callbacks, HeadlessRuntime, HeadlessWindow,
    Outcome,
};
use crate::message::{
    is_getter, reply_of, window_action, CreateWebviewHandler, Getter, Message, NativeAnswer, Reply,
    ReplyId, WebviewMessage, WindowAction, WindowMessage,
};
use crate::runtime::{
    lemma_without, tick_actions, tick_control_flow, tick_held, tick_listeners,
    tick_notification, tick_of, tick_slots, tick_webviews, webview_plan, with, without, Action,
    ControlFlow, Event, Notification, Tick, WebviewPlan, Wry,
};
use crate::webview::{configured, logical_size, PendingWindow, WindowConfig};
use crate::window::{Callback, ListenerId, NativeWindowEvent, WindowEvent, WindowId};
use vstd::prelude::*;

verus! {

/// What the event loop reads and writes when it answers messages: the table
/// of live windows and the slots of declared windows.
pub struct LoopState {
    pub webviews: Seq<WindowId>,
    pub slots: Seq<Option<PendingWindow>>,
}

/// The state after one step.
pub open spec fn step(state: LoopState, event: Event) -> LoopState {
    LoopState {
        webviews: tick_webviews(event, state.webviews),
        slots: tick_slots(event, state.slots),
    }
}

/// The native operations of one step.
pub open spec fn step_actions(state: LoopState, event: Event) -> Seq<Action> {
    tick_actions(event, state.webviews, tick_held(event, state.slots))
}

/// The state after one step for each of `events`, in their order.
pub open spec fn run_state(state: LoopState, events: Seq<Event>) -> LoopState
    decreases events.len(),
{
    if events.len() == 0 {
        state
    } else {
        run_state(step(state, events[0]), events.drop_first())
    }
}

/// The native operations of one step for each of `events`, in the order in
/// which the steps ask for them.
pub open spec fn run_actions(state: LoopState, events: Seq<Event>) -> Seq<Action>
    decreases events.len(),
{
    if events.len() == 0 {
        Seq::empty()
    } else {
        step_actions(state, events[0]) + run_actions(step(state, events[0]), events.drop_first())
    }
}

/// What the loop is told after each of the steps for `events`.
pub open spec fn run_flows(state: LoopState, events: Seq<Event>) -> Seq<ControlFlow>
    decreases events.len(),
{
    if events.len() == 0 {
        Seq::empty()
    } else {
        seq![tick_control_flow(events[0], state.webviews)] + run_flows(
            step(state, events[0]),
            events.drop_first(),
        )
    }
}

/// The events that the commands of one client for one window arrive as.
pub open spec fn commands_for(id: WindowId, commands: Seq<WindowMessage>) -> Seq<Event> {
    Seq::new(commands.len(), |i: int| Event::UserEvent(Message::Window(id, commands[i])))
}

/// What the commands for a live window do to it, one after the other: each
/// command its own operation, up to a `Close`, which gives the window up;
/// what is sent after a `Close` does nothing.
pub open spec fn applied(id: WindowId, commands: Seq<WindowMessage>) -> Seq<Action>
    decreases commands.len(),
{
    if commands.len() == 0 {
        Seq::empty()
    } else {
        match window_action(commands[0]) {
            Some(action) => seq![Action::Window(id, action)] + applied(id, commands.drop_first()),
            None => seq![Action::DropWebview(id)],
        }
    }
}

/// Once the tasks that waited were taken and run, the step for an event
/// hands over no task and leaves none behind: every task was run before
/// the event was looked at, and the listeners that the step names are
/// those that stand in the registries after the tasks.
pub proof fn law_drained_step_hands_over_no_task(before: Wry, event: Event, after: Wry, tick: Tick)
    requires
        before.context.task_tx.tasks() == Seq::<Callback>::empty(),
        tick_of(before, event, after, tick),
    ensures
        tick.tasks@ == Seq::<Callback>::empty(),
        after.context.task_tx.tasks() == Seq::<Callback>::empty(),
        tick.listeners@ == tick_listeners(
            event,
            before.context.window_event_listeners@,
            before.context.menu_event_listeners@,
            before.system_tray_event_listeners@,
        ),
{
}

/// A message for a window that is not in the table is dropped: it calls for
/// no native operation, leaves the table and every slot as they are, tells
/// no listener and lets the loop wait. Nothing fails, and a reply channel
/// that the message names is left as it is: its answer never comes.
pub proof fn law_message_for_unknown_window_is_dropped(
    state: LoopState,
    id: WindowId,
    command: WindowMessage,
)
    requires
        !state.webviews.contains(id),
    ensures
        step_actions(state, Event::UserEvent(Message::Window(id, command))) == Seq::<
            Action,
        >::empty(),
        step(state, Event::UserEvent(Message::Window(id, command))) == state,
        tick_control_flow(Event::UserEvent(Message::Window(id, command)), state.webviews)
            == ControlFlow::Wait,
        tick_notification(Event::UserEvent(Message::Window(id, command))) is None,
{
}

/// A message for the webview of a window that is not in the table is
/// dropped like a message for the window itself.
pub proof fn law_webview_message_for_unknown_window_is_dropped(
    state: LoopState,
    id: WindowId,
    command: WebviewMessage,
)
    requires
        !state.webviews.contains(id),
    ensures
        step_actions(state, Event::UserEvent(Message::Webview(id, command))) == Seq::<
            Action,
        >::empty(),
        step(state, Event::UserEvent(Message::Webview(id, command))) == state,
        tick_control_flow(Event::UserEvent(Message::Webview(id, command)), state.webviews)
            == ControlFlow::Wait,
        tick_notification(Event::UserEvent(Message::Webview(id, command))) is None,
{
}

/// Once a window was closed, whatever is sent to it is dropped.
pub proof fn lemma_dropped_after_close(state: LoopState, id: WindowId, commands: Seq<WindowMessage>)
    requires
        !state.webviews.contains(id),
    ensures
        run_actions(state, commands_for(id, commands)) == Seq::<Action>::empty(),
        run_state(state, commands_for(id, commands)) == state,
    decreases commands.len(),
{
    let events = commands_for(id, commands);
    if commands.len() > 0 {
        law_message_for_unknown_window_is_dropped(state, id, commands[0]);
        assert(events.drop_first() =~= commands_for(id, commands.drop_first()));
        lemma_dropped_after_close(state, id, commands.drop_first());
    }
}

/// The commands that one client sends to one live window take effect in the
/// order in which they were sent: the native operations that the event loop
/// asks for are the operations of the commands, one for one and in that
/// order, up to the first `Close`.
pub proof fn law_commands_apply_in_order(
    state: LoopState,
    id: WindowId,
    commands: Seq<WindowMessage>,
)
    requires
        state.webviews.no_duplicates(),
        state.webviews.contains(id),
    ensures
        run_actions(state, commands_for(id, commands)) == applied(id, commands),
    decreases commands.len(),
{
    let events = commands_for(id, commands);
    if commands.len() > 0 {
        let rest = commands.drop_first();
        assert(events.drop_first() =~= commands_for(id, rest));
        assert(events[0] == Event::UserEvent(Message::Window(id, commands[0])));
        match window_action(commands[0]) {
            Some(action) => {
                assert(step(state, events[0]) == state);
                law_commands_apply_in_order(state, id, rest);
            },
            None => {
                lemma_without(state.webviews, id);
                lemma_dropped_after_close(step(state, events[0]), id, rest);
                assert(run_actions(state, events) =~= seq![Action::DropWebview(id)]);
            },
        }
    }
}

/// Setters that keep the window (every setter but `Close`), sent by one
/// client to one live window with nothing else closing it, change the native
/// window in exactly the order in which they were sent, and the window
/// stays in the table.
pub proof fn law_setters_apply_in_order(
    state: LoopState,
    id: WindowId,
    commands: Seq<WindowMessage>,
)
    requires
        state.webviews.no_duplicates(),
        state.webviews.contains(id),
        forall|i: int| 0 <= i < commands.len() ==> commands[i] != WindowMessage::Close,
    ensures
        run_actions(state, commands_for(id, commands)) == Seq::new(
            commands.len(),
            |i: int| Action::Window(id, window_action(commands[i])->0),
        ),
        run_state(state, commands_for(id, commands)) == state,
    decreases commands.len(),
{
    let events = commands_for(id, commands);
    let expected = Seq::new(
        commands.len(),
        |i: int| Action::Window(id, window_action(commands[i])->0),
    );
    if commands.len() > 0 {
        let rest = commands.drop_first();
        assert(events.drop_first() =~= commands_for(id, rest));
        assert(events[0] == Event::UserEvent(Message::Window(id, commands[0])));
        assert(commands[0] != WindowMessage::Close);
        assert(window_action(commands[0]) is Some);
        assert(step(state, events[0]) == state);
        assert forall|i: int| 0 <= i < rest.len() implies rest[i] != WindowMessage::Close by {
            assert(rest[i] == commands[i + 1]);
        }
        law_setters_apply_in_order(state, id, rest);
        let tail = Seq::new(rest.len(), |i: int| Action::Window(id, window_action(rest[i])->0));
        assert(run_actions(state, events) =~= seq![
            Action::Window(id, window_action(commands[0])->0),
        ] + tail);
        assert(expected =~= seq![Action::Window(id, window_action(commands[0])->0)] + tail);
    } else {
        assert(run_actions(state, events) =~= expected);
    }
}

/// Getters and setters travel on one channel and are told apart by what
/// they stand for alone: a getter stands for a query, which names the reply
/// channel of the getter, and no setter stands for a query.
pub proof fn law_getters_ask_and_setters_do_not(message: WindowMessage)
    ensures
        is_getter(message) <==> window_action(message) matches Some(WindowAction::Query(_, _)),
{
}

/// A getter is answered with the value that the native window has when the
/// event loop gets to the question, not with the value it had when the
/// question was asked.
///
/// The question is queued behind everything sent before it, on a reply
/// channel of its own whose answer is owed. When the loop gets to it, the
/// window being alive, the one thing it asks of the native side is to read
/// the value then; and what the native side answers is what the reply
/// channel yields: sizes, positions, flags, scale factor and monitors as
/// they were read, a position that the toolkit cannot tell as an error, and
/// a full-screen mode as whether there is one.
pub proof fn law_getter_answers_at_application(
    before: DispatcherContext,
    after: DispatcherContext,
    r: Result<ReplyId, Error>,
    id: WindowId,
    getter: Question,
    state: LoopState,
    answer: NativeAnswer,
)
    requires
        before.proxy.is_open(),
        asked(before, after, r, |tx: ReplyId| question(id, getter, tx)),
        state.webviews.contains(id),
    ensures
        r matches Ok(tx) && {
            let message = question(id, getter, tx);
            &&& after.proxy.messages() == before.proxy.messages().push(message)
            &&& Replies::waiting(after.replies@, tx)
            &&& step_actions(state, Event::UserEvent(message)).len() == 1
            &&& step_actions(state, Event::UserEvent(message))[0] matches Action::Window(
                window,
                WindowAction::Query(_, sender),
            ) && window == id && sender == tx
            &&& step(state, Event::UserEvent(message)) == state
            &&& Replies::ready(Replies::completed(after.replies@, tx, reply_of(answer)), tx)
                == Some(reply_of(answer))
        },
        answer matches NativeAnswer::InnerSize(size) ==> reply_of(answer) == Reply::InnerSize(
            size,
        ),
        answer matches NativeAnswer::OuterSize(size) ==> reply_of(answer) == Reply::OuterSize(
            size,
        ),
        answer matches NativeAnswer::ScaleFactor(factor) ==> reply_of(answer)
            == Reply::ScaleFactor(factor),
        answer matches NativeAnswer::InnerPosition(Ok(position)) ==> reply_of(answer)
            == Reply::InnerPosition(Ok(position)),
        answer matches NativeAnswer::OuterPosition(Ok(position)) ==> reply_of(answer)
            == Reply::OuterPosition(Ok(position)),
        answer matches NativeAnswer::Fullscreen(mode) ==> reply_of(answer) == Reply::IsFullscreen(
            mode is Some,
        ),
        answer matches NativeAnswer::IsMaximized(b) ==> reply_of(answer) == Reply::IsMaximized(b),
        answer matches NativeAnswer::IsDecorated(b) ==> reply_of(answer) == Reply::IsDecorated(b),
        answer matches NativeAnswer::IsResizable(b) ==> reply_of(answer) == Reply::IsResizable(b),
        answer matches NativeAnswer::IsVisible(b) ==> reply_of(answer) == Reply::IsVisible(b),
        answer matches NativeAnswer::CurrentMonitor(m) ==> reply_of(answer)
            == Reply::CurrentMonitor(m),
        answer matches NativeAnswer::PrimaryMonitor(m) ==> reply_of(answer)
            == Reply::PrimaryMonitor(m),
        answer matches NativeAnswer::AvailableMonitors(m) ==> reply_of(answer)
            == Reply::AvailableMonitors(m),
{
    before.replies.lemma_len_fits();
    let tx = ReplyId(before.replies@.len() as usize);
    let message = question(id, getter, tx);
    assert(r == Ok::<ReplyId, Error>(tx));
    assert(after.replies@[tx.0 as int] is Waiting);
    let completed = Replies::completed(after.replies@, tx, reply_of(answer));
    assert(completed[tx.0 as int] == ReplySlot::Ready(reply_of(answer)));
    match getter {
        Question::ScaleFactor => {},
        Question::InnerPosition => {},
        Question::OuterPosition => {},
        Question::InnerSize => {},
        Question::OuterSize => {},
        Question::IsFullscreen => {},
        Question::IsMaximized => {},
        Question::IsDecorated => {},
        Question::IsResizable => {},
        Question::IsVisible => {},
        Question::CurrentMonitor => {},
        Question::PrimaryMonitor => {},
        Question::AvailableMonitors => {},
    }
}

/// The events by which each of `ids` is closed by a client, in their order.
pub open spec fn closes_of(ids: Seq<WindowId>) -> Seq<Event> {
    Seq::new(ids.len(), |i: int| Event::UserEvent(Message::Window(ids[i], WindowMessage::Close)))
}

/// The table after windows with the identities `ids` were made, one after
/// the other.
pub open spec fn entered(webviews: Seq<WindowId>, ids: Seq<WindowId>) -> Seq<WindowId>
    decreases ids.len(),
{
    if ids.len() == 0 {
        webviews
    } else {
        entered(with(webviews, ids[0]), ids.drop_first())
    }
}

/// Windows that are made one after the other, each under an identity that
/// no live window has, are all in the table, each once.
pub proof fn law_created_windows_are_all_alive(webviews: Seq<WindowId>, ids: Seq<WindowId>)
    requires
        webviews.no_duplicates(),
        ids.no_duplicates(),
        forall|i: int| 0 <= i < ids.len() ==> !webviews.contains(ids[i]),
    ensures
        entered(webviews, ids) == webviews + ids,
        entered(webviews, ids).no_duplicates(),
        entered(webviews, ids).len() == webviews.len() + ids.len(),
    decreases ids.len(),
{
    if ids.len() == 0 {
        assert(webviews + ids =~= webviews);
    } else {
        let next = with(webviews, ids[0]);
        let rest = ids.drop_first();
        assert(next == webviews.push(ids[0]));
        assert(next.no_duplicates());
        assert forall|i: int| 0 <= i < rest.len() implies !next.contains(rest[i]) by {
            assert(rest[i] == ids[i + 1]);
            if next.contains(rest[i]) {
                let j = choose|j: int| 0 <= j < next.len() && next[j] == rest[i];
                if j < webviews.len() {
                    assert(webviews[j] == ids[i + 1]);
                    assert(webviews.contains(ids[i + 1]));
                } else {
                    assert(ids[0] == ids[i + 1]);
                }
            }
        }
        law_created_windows_are_all_alive(next, rest);
        assert(next + rest =~= webviews + ids);
    }
}

/// Closing every live window, each once and in any order, empties the table
/// and stops the loop: the loop is told to wait after each close but the
/// last, and to exit after the last.
pub proof fn law_closing_all_windows_stops_the_loop(state: LoopState, ids: Seq<WindowId>)
    requires
        state.webviews.no_duplicates(),
        ids.no_duplicates(),
        ids.len() > 0,
        forall|id: WindowId| ids.contains(id) <==> state.webviews.contains(id),
    ensures
        run_state(state, closes_of(ids)).webviews.len() == 0,
        run_flows(state, closes_of(ids)).len() == ids.len(),
        run_flows(state, closes_of(ids)).last() == ControlFlow::Exit,
        forall|i: int|
            0 <= i < ids.len() - 1 ==> run_flows(state, closes_of(ids))[i] == ControlFlow::Wait,
    decreases ids.len(),
{
    let events = closes_of(ids);
    let first = ids[0];
    let rest = ids.drop_first();
    let next = step(state, events[0]);
    assert(events[0] == Event::UserEvent(Message::Window(first, WindowMessage::Close)));
    assert(events.drop_first() =~= closes_of(rest));
    assert(ids.contains(first));
    lemma_without(state.webviews, first);
    assert(next.webviews == without(state.webviews, first));
    assert forall|id: WindowId| rest.contains(id) <==> next.webviews.contains(id) by {
        if rest.contains(id) {
            let i = choose|i: int| 0 <= i < rest.len() && rest[i] == id;
            assert(ids[i + 1] == id);
            assert(ids.contains(id));
            assert(id != first);
        }
        if next.webviews.contains(id) {
            assert(id != first);
            assert(state.webviews.contains(id));
            assert(ids.contains(id));
            let i = choose|i: int| 0 <= i < ids.len() && ids[i] == id;
            assert(rest[i - 1] == id);
        }
    }
    ids.unique_seq_to_set();
    state.webviews.unique_seq_to_set();
    assert(ids.to_set() =~= state.webviews.to_set()) by {
        assert forall|id: WindowId| ids.to_set().contains(id) == state.webviews.to_set().contains(
            id,
        ) by {}
    }
    assert(ids.len() == state.webviews.len());
    assert(run_state(state, events) == run_state(next, closes_of(rest)));
    if rest.len() == 0 {
        assert(next.webviews.len() == 0);
        assert(run_state(next, closes_of(rest)) == next);
        assert(tick_control_flow(events[0], state.webviews) == ControlFlow::Exit);
        assert(closes_of(rest).len() == 0);
        assert(run_flows(next, closes_of(rest)) =~= Seq::<ControlFlow>::empty());
        assert(run_flows(state, events) == seq![ControlFlow::Exit] + run_flows(
            next,
            events.drop_first(),
        ));
        assert(run_flows(state, events) =~= seq![ControlFlow::Exit]);
    } else {
        assert(tick_control_flow(events[0], state.webviews) == ControlFlow::Wait);
        law_closing_all_windows_stops_the_loop(next, rest);
        let tail = run_flows(next, closes_of(rest));
        assert(run_flows(state, events) =~= seq![ControlFlow::Wait] + tail);
        assert forall|i: int| 0 <= i < ids.len() - 1 implies run_flows(state, events)[i]
            == ControlFlow::Wait by {
            if i > 0 {
                assert(run_flows(state, events)[i] == tail[i - 1]);
            }
        }
    }
}

/// Whether `id` occurs in `ids` exactly once.
pub open spec fn occurs_once(ids: Seq<ListenerId>, id: ListenerId) -> bool {
    exists|i: int|
        0 <= i < ids.len() && ids[i] == id && forall|j: int|
            0 <= j < ids.len() && #[trigger] ids[j] == id ==> j == i
}

/// A window event that listeners are told of is told to every registered
/// listener of window events exactly once, whichever window it comes from
/// and whichever window the listener was registered through. Nothing is
/// said of the order.
pub proof fn law_window_event_reaches_every_listener_once(
    window_listeners: Seq<ListenerId>,
    menu_listeners: Seq<ListenerId>,
    tray_listeners: Seq<ListenerId>,
    window_id: WindowId,
    event: NativeWindowEvent,
    listener: ListenerId,
)
    requires
        window_listeners.no_duplicates(),
        window_listeners.contains(listener),
        tick_notification(Event::WindowEvent { window_id, event }) is Some,
    ensures
        occurs_once(
            tick_listeners(
                Event::WindowEvent { window_id, event },
                window_listeners,
                menu_listeners,
                tray_listeners,
            ),
            listener,
        ),
{
    let i = choose|i: int| 0 <= i < window_listeners.len() && window_listeners[i] == listener;
    assert(forall|j: int|
        0 <= j < window_listeners.len() && #[trigger] window_listeners[j] == listener ==> j == i);
}

/// Two listeners that are registered one after the other for window events,
/// under different identities, are both told of a close request, each
/// exactly once.
pub proof fn law_close_request_fans_out(
    registered: Seq<ListenerId>,
    first: ListenerId,
    second: ListenerId,
    menu_listeners: Seq<ListenerId>,
    tray_listeners: Seq<ListenerId>,
    window_id: WindowId,
)
    requires
        registered.no_duplicates(),
        first != second,
    ensures
        ({
            let event = Event::WindowEvent { window_id, event: NativeWindowEvent::CloseRequested };
            let listeners = Listeners::with(Listeners::with(registered, first), second);
            let told = tick_listeners(event, listeners, menu_listeners, tray_listeners);
            &&& tick_notification(event) == Some(Notification::Window(WindowEvent::CloseRequested))
            &&& occurs_once(told, first)
            &&& occurs_once(told, second)
        }),
{
    let one = Listeners::with(registered, first);
    let both = Listeners::with(one, second);
    assert(one.no_duplicates());
    assert(both.no_duplicates());
    assert(one.contains(first)) by {
        if !registered.contains(first) {
            assert(one[one.len() - 1] == first);
        }
    }
    assert(both.contains(first)) by {
        let i = choose|i: int| 0 <= i < one.len() && one[i] == first;
        assert(both[i] == first);
    }
    assert(both.contains(second)) by {
        if !one.contains(second) {
            assert(both[both.len() - 1] == second);
        }
    }
    law_window_event_reaches_every_listener_once(
        both,
        menu_listeners,
        tray_listeners,
        window_id,
        NativeWindowEvent::CloseRequested,
        first,
    );
    law_window_event_reaches_every_listener_once(
        both,
        menu_listeners,
        tray_listeners,
        window_id,
        NativeWindowEvent::CloseRequested,
        second,
    );
}

/// On the headless toolkit, a window that is asked for its size after its
/// size was set answers with the size that was set, whatever it was
/// before: in physical pixels as given, and in logical pixels as the
/// nearest whole numbers.
pub proof fn law_size_is_read_after_it_is_set(
    window: HeadlessWindow,
    size: Size,
    answer: NativeAnswer,
)
    requires
        answers(window_after(window, WindowAction::SetInnerSize(size)), Getter::InnerSize, answer),
    ensures
        reply_of(answer) == Reply::InnerSize(resolved_size(size)),
{
}

/// On the headless toolkit, a window that is made of a declaration reports
/// what was declared: its size, its position, and whether it is
/// resizable, visible, decorated, maximized and in a full-screen mode. A
/// size or a position that is not declared is the default of the toolkit.
pub proof fn law_made_window_reports_its_declaration(
    pending: PendingWindow,
    id: WindowId,
    window: HeadlessWindow,
    getter: Getter,
    answer: NativeAnswer,
)
    requires
        made_of(window, webview_plan(pending), id),
        answers(window, getter, answer),
    ensures
        window.label == pending.label,
        window.url == pending.url,
        window.title == pending.window_builder.0.title,
        getter == Getter::InnerSize ==> reply_of(answer) == Reply::InnerSize(
            match pending.window_builder.0.inner_size {
                Some(size) => resolved_size(size),
                None => default_size(),
            },
        ),
        getter == Getter::OuterPosition ==> reply_of(answer) == Reply::OuterPosition(
            Ok(
                match pending.window_builder.0.position {
                    Some(position) => resolved_position(position),
                    None => default_position(),
                },
            ),
        ),
        getter == Getter::IsResizable ==> reply_of(answer) == Reply::IsResizable(
            pending.window_builder.0.resizable,
        ),
        getter == Getter::IsVisible ==> reply_of(answer) == Reply::IsVisible(
            pending.window_builder.0.visible,
        ),
        getter == Getter::IsDecorated ==> reply_of(answer) == Reply::IsDecorated(
            pending.window_builder.0.decorations,
        ),
        getter == Getter::IsMaximized ==> reply_of(answer) == Reply::IsMaximized(
            pending.window_builder.0.maximized,
        ),
        getter == Getter::Fullscreen ==> reply_of(answer) == Reply::IsFullscreen(
            pending.window_builder.0.fullscreen is Some,
        ),
{
}

/// A window that is declared by a configuration is planned with the title,
/// the size and the flags of the configuration, and with its position left
/// to the toolkit unless the configuration gives both of its numbers.
pub proof fn law_configuration_reaches_the_plan(pending: PendingWindow, config: WindowConfig)
    requires
        pending.window_builder.0 == configured(config),
    ensures
        webview_plan(pending).window.title == Some(config.title),
        webview_plan(pending).window.inner_size == Some(logical_size(config.width, config.height)),
        webview_plan(pending).window.resizable == config.resizable,
        webview_plan(pending).window.visible == config.visible,
        webview_plan(pending).window.decorations == config.decorations,
        webview_plan(pending).window.maximized == config.maximized,
        webview_plan(pending).window.fullscreen is Some == config.fullscreen,
        webview_plan(pending).window.always_on_top == config.always_on_top,
        webview_plan(pending).window.skip_taskbar == config.skip_taskbar,
        webview_plan(pending).transparent == config.transparent,
        webview_plan(pending).window.position is None <==> (config.x is None || config.y is None),
        webview_plan(pending).label == pending.label,
        webview_plan(pending).url == pending.url,
{
}

/// On the headless toolkit, a window that is made gets an identity that no
/// other window has: windows that are made one after the other have
/// distinct identities.
pub proof fn law_made_windows_have_distinct_identities(
    before: Seq<HeadlessWindow>,
    next_id: u64,
    plan: WebviewPlan,
    sender: ReplyId,
    after: Seq<HeadlessWindow>,
    id: WindowId,
)
    requires
        ids_of(before).no_duplicates(),
        forall|i: int| 0 <= i < before.len() ==> before[i].id.0 < next_id,
        crate::headless::created(
            before,
            next_id,
            plan,
            sender,
            after,
            Outcome::Created(sender, Ok(id)),
        ),
    ensures
        !ids_of(before).contains(id),
        ids_of(after) == ids_of(before).push(id),
        ids_of(after).no_duplicates(),
        forall|i: int| 0 <= i < after.len() ==> after[i].id.0 < next_id + 1,
{
    assert(id == WindowId(next_id));
    assert(!ids_of(before).contains(id)) by {
        if ids_of(before).contains(id) {
            let j = choose|j: int| 0 <= j < ids_of(before).len() && ids_of(before)[j] == id;
            assert(before[j].id.0 < next_id);
        }
    }
    assert(ids_of(after) =~= ids_of(before).push(id)) by {
        assert forall|k: int| 0 <= k < before.len() implies ids_of(after)[k] == ids_of(before)[k] by {
            assert(after.drop_last()[k] == after[k]);
        }
    }
    assert forall|i: int| 0 <= i < after.len() implies after[i].id.0 < next_id + 1 by {
        if i < before.len() {
            assert(after.drop_last()[i] == after[i]);
        }
    }
}

/// On the headless toolkit, the step that takes a creation request up
/// makes the window, whatever else is under way behind the request: where
/// the slot that the request names still holds the declaration and the
/// reply channel still waits, the window enters the table behind the
/// others, with an identity that none of them has; the reply channel holds
/// that identity; and the window of the toolkit is made of the
/// declaration, so that it reports what was declared.
pub proof fn law_creation_request_makes_the_window(
    before: HeadlessRuntime,
    handler: CreateWebviewHandler,
    reply: ReplyId,
    pending: PendingWindow,
    callbacks: Callbacks,
    after: HeadlessRuntime,
)
    requires
        before.runtime.context.proxy.messages().len() > 0,
        before.runtime.context.proxy.messages()[0] == Message::CreateWebview(handler, reply),
        Handlers::held(before.runtime.context.handlers@, handler) == Some(pending),
        Replies::waiting(before.runtime.context.replies@, reply),
        before.toolkit.next_id < u64::MAX,
        iterated(before, callbacks, after),
    ensures
        !before.runtime.webviews@.contains(WindowId(before.toolkit.next_id)),
        after.runtime.webviews@ == before.runtime.webviews@.push(WindowId(before.toolkit.next_id)),
        after.runtime.context.replies@ == before.runtime.context.replies@.update(
            reply.0 as int,
            ReplySlot::Ready(Reply::WindowCreated(WindowId(before.toolkit.next_id))),
        ),
        Replies::ready(after.runtime.context.replies@, reply) == Some(
            Reply::WindowCreated(WindowId(before.toolkit.next_id)),
        ),
        Handlers::held(after.runtime.context.handlers@, handler) is None,
        after.toolkit.windows@.len() == before.toolkit.windows@.len() + 1,
        after.toolkit.windows@.drop_last() == before.toolkit.windows@,
        made_of(
            after.toolkit.windows@.last(),
            webview_plan(pending),
            WindowId(before.toolkit.next_id),
        ),
        after.runtime.context.proxy.messages() == before.runtime.context.proxy.messages().drop_first(),
{
    let id = WindowId(before.toolkit.next_id);
    let event = Event::UserEvent(Message::CreateWebview(handler, reply));
    let slots = before.runtime.context.handlers@;
    let webviews = before.runtime.webviews@;
    let actions = tick_actions(event, webviews, tick_held(event, slots));
    assert(tick_held(event, slots) == Some(pending));
    assert(actions =~= seq![Action::CreateWebview(webview_plan(pending), reply)]);
    assert(actions.len() == 1);
    assert(!webviews.contains(id)) by {
        if webviews.contains(id) {
            let j = choose|j: int| 0 <= j < webviews.len() && webviews[j] == id;
            assert(before.toolkit.windows@[j].id.0 < before.toolkit.next_id);
        }
    }
    let outcome = choose|outcome: Outcome|
        {
            &&& #[trigger] performed(
                before.toolkit.windows@,
                before.toolkit.next_id,
                actions[0],
                after.toolkit.windows@,
                outcome,
            )
            &&& fed_back(
                before.runtime.context.replies@,
                tick_webviews(event, webviews),
                outcome,
                after.runtime.context.replies@,
                after.runtime.webviews@,
            )
        };
    assert(outcome == Outcome::Created(reply, Ok(id)));
    assert(tick_webviews(event, webviews) == webviews);
}

/// On the headless toolkit, a window that another thread requests while
/// nothing else is under way is made by the next step: the table holds it
/// behind the others, the reply channel of the request holds its identity,
/// and the window of the toolkit is made of the declaration.
pub proof fn law_requested_window_is_made(
    before: HeadlessRuntime,
    pending: PendingWindow,
    request: WindowRequest,
    asked: HeadlessRuntime,
    callbacks: Callbacks,
    after: HeadlessRuntime,
)
    requires
        before.wf(),
        before.runtime.context.proxy.messages().len() == 0,
        before.toolkit.next_id < u64::MAX,
        requested(before.runtime.context, asked.runtime.context, Ok(request), pending),
        asked.runtime.webviews == before.runtime.webviews,
        asked.toolkit == before.toolkit,
        iterated(asked, callbacks, after),
    ensures
        request.label == pending.label,
        !before.runtime.webviews@.contains(WindowId(before.toolkit.next_id)),
        after.runtime.webviews@ == before.runtime.webviews@.push(WindowId(before.toolkit.next_id)),
        Replies::ready(after.runtime.context.replies@, request.reply) == Some(
            Reply::WindowCreated(WindowId(before.toolkit.next_id)),
        ),
        after.toolkit.windows@.len() == before.toolkit.windows@.len() + 1,
        after.toolkit.windows@.drop_last() == before.toolkit.windows@,
        made_of(
            after.toolkit.windows@.last(),
            webview_plan(pending),
            WindowId(before.toolkit.next_id),
        ),
        after.runtime.context.proxy.messages().len() == 0,
{
    let context = before.runtime.context;
    context.handlers.lemma_len_fits();
    context.replies.lemma_len_fits();
    let handler = CreateWebviewHandler(context.handlers@.len() as usize);
    let messages = asked.runtime.context.proxy.messages();
    assert(messages =~= seq![Message::CreateWebview(handler, request.reply)]);
    assert(asked.runtime.context.handlers@[handler.0 as int] == Some(pending));
    assert(asked.runtime.context.replies@[request.reply.0 as int] is Waiting);
    law_creation_request_makes_the_window(asked, handler, request.reply, pending, callbacks, after);
    assert(messages.drop_first() =~= Seq::<Message>::empty());
}

/// On the headless toolkit, the step that takes a question for a live
/// window up answers it with what the window holds at that step, on the
/// reply channel of the question, and changes neither the table nor any
/// window: so the inner size of a window that was declared without one and
/// has not been resized since reads as the default size of the toolkit.
pub proof fn law_question_is_answered_by_the_window(
    before: HeadlessRuntime,
    id: WindowId,
    message: WindowMessage,
    getter: Getter,
    reply: ReplyId,
    at: int,
    callbacks: Callbacks,
    after: HeadlessRuntime,
)
    requires
        before.runtime.context.proxy.messages().len() > 0,
        before.runtime.context.proxy.messages()[0] == Message::Window(id, message),
        window_action(message) == Some(WindowAction::Query(getter, reply)),
        0 <= at < before.toolkit.windows@.len(),
        before.toolkit.windows@[at].id == id,
        Replies::waiting(before.runtime.context.replies@, reply),
        iterated(before, callbacks, after),
    ensures
        after.runtime.webviews@ == before.runtime.webviews@,
        after.toolkit.windows@ == before.toolkit.windows@,
        exists|answer: NativeAnswer|
            #[trigger] answers(before.toolkit.windows@[at], getter, answer) && Replies::ready(
                after.runtime.context.replies@,
                reply,
            ) == Some(reply_of(answer)),
        getter == Getter::InnerSize ==> Replies::ready(after.runtime.context.replies@, reply)
            == Some(Reply::InnerSize(before.toolkit.windows@[at].inner_size)),
{
    let windows = before.toolkit.windows@;
    let webviews = before.runtime.webviews@;
    let event = Event::UserEvent(Message::Window(id, message));
    assert(ids_of(windows)[at] == id);
    assert(webviews.contains(id));
    let actions = tick_actions(
        event,
        webviews,
        tick_held(event, before.runtime.context.handlers@),
    );
    assert(actions =~= seq![Action::Window(id, WindowAction::Query(getter, reply))]);
    assert(actions.len() == 1);
    let outcome = choose|outcome: Outcome|
        {
            &&& #[trigger] performed(
                windows,
                before.toolkit.next_id,
                actions[0],
                after.toolkit.windows@,
                outcome,
            )
            &&& fed_back(
                before.runtime.context.replies@,
                tick_webviews(event, webviews),
                outcome,
                after.runtime.context.replies@,
                after.runtime.webviews@,
            )
        };
    assert(windows[at].id == id);
    assert(after.toolkit.windows@ =~= windows);
    assert(tick_webviews(event, webviews) == webviews);
    let said = outcome->Answer_1;
    assert(outcome == Outcome::Answer(reply, said));
    assert(answers(windows[at], getter, said));
}

} // verus!
