//! A toolkit without a screen: windows that are nothing but their
//! attributes, on which everything the event loop asks for can be
//! performed. Its scale factor is one, so a length in logical pixels is the
//! nearest whole number of physical pixels.

use crate::dpi::{PhysicalPosition, PhysicalSize, Position, Size};
use crate::icon::WindowIcon;
use crate::context::{Replies, ReplySlot};
use crate::dispatcher::{DetachedWindow, WryDispatcher};
use crate::error::Error;
use crate::message::{reply_of, Getter, NativeAnswer, Reply, ReplyId, WindowAction};
use crate::monitor::Monitor;
use crate::runtime::{
    handle_event_loop, lemma_without, next_event, tick_actions, tick_control_flow, tick_held,
    tick_listeners, tick_notification, tick_slots, tick_webviews, webview_plan, with, without,
    Action, ControlFlow, Event, Notification, RunIteration, Tick, WebviewPlan, Wry,
};
use crate::scalar::{coordinate_of, pixels_of, Scalar, ONE_BITS};
use crate::webview::{Fullscreen, PendingWindow, WindowAttributes};
use crate::window::{Callback, ListenerId, WindowId};
use vstd::prelude::*;
use vstd::string::*;

verus! {

/// A window of the headless toolkit.
#[derive(Debug, PartialEq, Eq)]
pub struct HeadlessWindow {
    pub id: WindowId,
    /// The name that the application gave the window.
    pub label: String,
    /// The address that the webview was given.
    pub url: String,
    /// The title, where one was given.
    pub title: Option<String>,
    pub inner_size: PhysicalSize<u32>,
    pub min_inner_size: Option<PhysicalSize<u32>>,
    pub max_inner_size: Option<PhysicalSize<u32>>,
    pub outer_position: PhysicalPosition<i32>,
    pub resizable: bool,
    pub maximized: bool,
    pub minimized: bool,
    pub visible: bool,
    pub decorations: bool,
    pub always_on_top: bool,
    pub fullscreen: Option<Fullscreen>,
    pub focused: bool,
    pub transparent: bool,
    pub icon: Option<WindowIcon>,
    pub skip_taskbar: bool,
    /// Whether the window is being dragged.
    pub dragging: bool,
    /// The scripts handed to the webview, oldest first.
    pub scripts: Vec<String>,
    /// Whether the content was ever printed.
    pub printed: bool,
}

/// The size that the headless toolkit gives a window of which none is said.
pub open spec fn default_size() -> PhysicalSize<u32> {
    PhysicalSize { width: 800, height: 600 }
}

/// The position that the headless toolkit gives a window of which none is
/// said.
pub open spec fn default_position() -> PhysicalPosition<i32> {
    PhysicalPosition { x: 0, y: 0 }
}

/// A size in physical pixels, at the scale factor one.
pub open spec fn resolved_size(size: Size) -> PhysicalSize<u32> {
    match size {
        Size::Physical(size) => size,
        Size::Logical(size) => PhysicalSize {
            width: pixels_of(size.width.bits_spec()),
            height: pixels_of(size.height.bits_spec()),
        },
    }
}

/// A position in physical pixels, at the scale factor one.
pub open spec fn resolved_position(position: Position) -> PhysicalPosition<i32> {
    match position {
        Position::Physical(position) => position,
        Position::Logical(position) => PhysicalPosition {
            x: coordinate_of(position.x.bits_spec()),
            y: coordinate_of(position.y.bits_spec()),
        },
    }
}

/// An optional size in physical pixels.
pub open spec fn resolved_limit(size: Option<Size>) -> Option<PhysicalSize<u32>> {
    match size {
        Some(size) => Some(resolved_size(size)),
        None => None,
    }
}

/// A size in physical pixels, at the scale factor one.
pub fn resolve_size(size: Size) -> (r: PhysicalSize<u32>)
    ensures
        r == resolved_size(size),
{
    match size {
        Size::Physical(size) => size,
        Size::Logical(size) => PhysicalSize {
            width: size.width.to_pixels(),
            height: size.height.to_pixels(),
        },
    }
}

/// A position in physical pixels, at the scale factor one.
pub fn resolve_position(position: Position) -> (r: PhysicalPosition<i32>)
    ensures
        r == resolved_position(position),
{
    match position {
        Position::Physical(position) => position,
        Position::Logical(position) => PhysicalPosition {
            x: position.x.to_coordinate(),
            y: position.y.to_coordinate(),
        },
    }
}

/// An optional size in physical pixels.
pub fn resolve_limit(size: Option<Size>) -> (r: Option<PhysicalSize<u32>>)
    ensures
        r == resolved_limit(size),
{
    match size {
        Some(size) => Some(resolve_size(size)),
        None => None,
    }
}

/// Whether `window` is the window that the headless toolkit makes of a plan
/// under the identity `id`: its attributes are those of the plan, its size
/// and position are the declared ones or else the defaults of the toolkit,
/// it has the focus if it was to take it, and nothing has happened to its
/// webview yet.
pub open spec fn made_of(window: HeadlessWindow, plan: WebviewPlan, id: WindowId) -> bool {
    &&& window.id == id
    &&& window.label == plan.label
    &&& window.url == plan.url
    &&& window.title == plan.window.title
    &&& window.inner_size == match plan.window.inner_size {
        Some(size) => resolved_size(size),
        None => default_size(),
    }
    &&& window.min_inner_size == resolved_limit(plan.window.min_inner_size)
    &&& window.max_inner_size == resolved_limit(plan.window.max_inner_size)
    &&& window.outer_position == match plan.window.position {
        Some(position) => resolved_position(position),
        None => default_position(),
    }
    &&& window.resizable == plan.window.resizable
    &&& window.maximized == plan.window.maximized
    &&& !window.minimized
    &&& window.visible == plan.window.visible
    &&& window.decorations == plan.window.decorations
    &&& window.always_on_top == plan.window.always_on_top
    &&& window.fullscreen == plan.window.fullscreen
    &&& window.focused == plan.window.focus
    &&& window.transparent == plan.transparent
    &&& window.icon == plan.window.window_icon
    &&& window.skip_taskbar == plan.window.skip_taskbar
    &&& !window.dragging
    &&& window.scripts@ == Seq::<String>::empty()
    &&& !window.printed
}

/// The window after an operation on it. A query changes nothing.
pub open spec fn window_after(window: HeadlessWindow, action: WindowAction) -> HeadlessWindow {
    match action {
        WindowAction::Query(_, _) => window,
        WindowAction::SetResizable(resizable) => HeadlessWindow { resizable, ..window },
        WindowAction::SetTitle(title) => HeadlessWindow { title: Some(title), ..window },
        WindowAction::SetMaximized(maximized) => HeadlessWindow { maximized, ..window },
        WindowAction::SetMinimized(minimized) => HeadlessWindow { minimized, ..window },
        WindowAction::SetVisible(visible) => HeadlessWindow { visible, ..window },
        WindowAction::SetDecorations(decorations) => HeadlessWindow { decorations, ..window },
        WindowAction::SetAlwaysOnTop(always_on_top) => HeadlessWindow { always_on_top, ..window },
        WindowAction::SetInnerSize(size) => HeadlessWindow {
            inner_size: resolved_size(size),
            ..window
        },
        WindowAction::SetMinInnerSize(size) => HeadlessWindow {
            min_inner_size: resolved_limit(size),
            ..window
        },
        WindowAction::SetMaxInnerSize(size) => HeadlessWindow {
            max_inner_size: resolved_limit(size),
            ..window
        },
        WindowAction::SetOuterPosition(position) => HeadlessWindow {
            outer_position: resolved_position(position),
            ..window
        },
        WindowAction::SetFullscreen(fullscreen) => HeadlessWindow { fullscreen, ..window },
        WindowAction::SetFocus => HeadlessWindow { focused: true, ..window },
        WindowAction::SetWindowIcon(icon) => HeadlessWindow { icon, ..window },
        WindowAction::SetSkipTaskbar(skip_taskbar) => HeadlessWindow { skip_taskbar, ..window },
        WindowAction::DragWindow => HeadlessWindow { dragging: true, ..window },
    }
}

/// Whether `answer` is what a window answers to a query: its attributes as
/// they are. The window has no border, so its outer size is its inner size
/// and its inner position its outer one; its scale factor is one; and the
/// one monitor of the toolkit is the current and the primary one.
pub open spec fn answers(window: HeadlessWindow, getter: Getter, answer: NativeAnswer) -> bool {
    match getter {
        Getter::ScaleFactor => answer matches NativeAnswer::ScaleFactor(factor)
            && factor.bits_spec() == ONE_BITS,
        Getter::InnerPosition => answer == NativeAnswer::InnerPosition(Ok(window.outer_position)),
        Getter::OuterPosition => answer == NativeAnswer::OuterPosition(Ok(window.outer_position)),
        Getter::InnerSize => answer == NativeAnswer::InnerSize(window.inner_size),
        Getter::OuterSize => answer == NativeAnswer::OuterSize(window.inner_size),
        Getter::Fullscreen => answer == NativeAnswer::Fullscreen(window.fullscreen),
        Getter::IsMaximized => answer == NativeAnswer::IsMaximized(window.maximized),
        Getter::IsDecorated => answer == NativeAnswer::IsDecorated(window.decorations),
        Getter::IsResizable => answer == NativeAnswer::IsResizable(window.resizable),
        Getter::IsVisible => answer == NativeAnswer::IsVisible(window.visible),
        Getter::CurrentMonitor => answer matches NativeAnswer::CurrentMonitor(Some(monitor))
            && is_the_monitor(monitor),
        Getter::PrimaryMonitor => answer matches NativeAnswer::PrimaryMonitor(Some(monitor))
            && is_the_monitor(monitor),
        Getter::AvailableMonitors => answer matches NativeAnswer::AvailableMonitors(monitors)
            && monitors@.len() == 1 && is_the_monitor(monitors@[0]),
    }
}

/// Whether a monitor is the one monitor of the headless toolkit.
pub open spec fn is_the_monitor(monitor: Monitor) -> bool {
    &&& monitor.name is None
    &&& monitor.size == (PhysicalSize::<u32> { width: 1920, height: 1080 })
    &&& monitor.position == (PhysicalPosition::<i32> { x: 0, y: 0 })
    &&& monitor.scale_factor.bits_spec() == ONE_BITS
}

/// The one monitor of the headless toolkit.
pub fn the_monitor() -> (monitor: Monitor)
    ensures
        is_the_monitor(monitor),
{
    Monitor {
        name: None,
        size: PhysicalSize { width: 1920, height: 1080 },
        position: PhysicalPosition { x: 0, y: 0 },
        scale_factor: Scalar::one(),
    }
}

impl HeadlessWindow {
    /// Makes the window of a plan.
    pub fn new(plan: WebviewPlan, id: WindowId) -> (window: HeadlessWindow)
        ensures
            made_of(window, plan, id),
    {
        let WebviewPlan { label, window, url, transparent, .. } = plan;
        let WindowAttributes {
            inner_size,
            min_inner_size,
            max_inner_size,
            position,
            resizable,
            fullscreen,
            title,
            maximized,
            visible,
            focus,
            decorations,
            always_on_top,
            window_icon,
            skip_taskbar,
            ..
        } = window;
        HeadlessWindow {
            id,
            label,
            url,
            title,
            inner_size: match inner_size {
                Some(size) => resolve_size(size),
                None => PhysicalSize { width: 800, height: 600 },
            },
            min_inner_size: resolve_limit(min_inner_size),
            max_inner_size: resolve_limit(max_inner_size),
            outer_position: match position {
                Some(position) => resolve_position(position),
                None => PhysicalPosition { x: 0, y: 0 },
            },
            resizable,
            maximized,
            minimized: false,
            visible,
            decorations,
            always_on_top,
            fullscreen,
            focused: focus,
            transparent,
            icon: window_icon,
            skip_taskbar,
            dragging: false,
            scripts: Vec::new(),
            printed: false,
        }
    }

    /// What the window answers to a query.
    pub fn query(&self, getter: Getter) -> (answer: NativeAnswer)
        ensures
            answers(*self, getter, answer),
    {
        match getter {
            Getter::ScaleFactor => NativeAnswer::ScaleFactor(Scalar::one()),
            Getter::InnerPosition => NativeAnswer::InnerPosition(Ok(self.outer_position)),
            Getter::OuterPosition => NativeAnswer::OuterPosition(Ok(self.outer_position)),
            Getter::InnerSize => NativeAnswer::InnerSize(self.inner_size),
            Getter::OuterSize => NativeAnswer::OuterSize(self.inner_size),
            Getter::Fullscreen => NativeAnswer::Fullscreen(self.fullscreen),
            Getter::IsMaximized => NativeAnswer::IsMaximized(self.maximized),
            Getter::IsDecorated => NativeAnswer::IsDecorated(self.decorations),
            Getter::IsResizable => NativeAnswer::IsResizable(self.resizable),
            Getter::IsVisible => NativeAnswer::IsVisible(self.visible),
            Getter::CurrentMonitor => NativeAnswer::CurrentMonitor(Some(the_monitor())),
            Getter::PrimaryMonitor => NativeAnswer::PrimaryMonitor(Some(the_monitor())),
            Getter::AvailableMonitors => {
                let mut monitors: Vec<Monitor> = Vec::new();
                monitors.push(the_monitor());
                NativeAnswer::AvailableMonitors(monitors)
            },
        }
    }

    /// The window after an operation on it.
    pub fn apply(self, action: WindowAction) -> (window: HeadlessWindow)
        ensures
            window == window_after(self, action),
    {
        match action {
            WindowAction::Query(_, _) => self,
            WindowAction::SetResizable(resizable) => HeadlessWindow { resizable, ..self },
            WindowAction::SetTitle(title) => HeadlessWindow { title: Some(title), ..self },
            WindowAction::SetMaximized(maximized) => HeadlessWindow { maximized, ..self },
            WindowAction::SetMinimized(minimized) => HeadlessWindow { minimized, ..self },
            WindowAction::SetVisible(visible) => HeadlessWindow { visible, ..self },
            WindowAction::SetDecorations(decorations) => HeadlessWindow { decorations, ..self },
            WindowAction::SetAlwaysOnTop(always_on_top) => HeadlessWindow {
                always_on_top,
                ..self
            },
            WindowAction::SetInnerSize(size) => HeadlessWindow {
                inner_size: resolve_size(size),
                ..self
            },
            WindowAction::SetMinInnerSize(size) => HeadlessWindow {
                min_inner_size: resolve_limit(size),
                ..self
            },
            WindowAction::SetMaxInnerSize(size) => HeadlessWindow {
                max_inner_size: resolve_limit(size),
                ..self
            },
            WindowAction::SetOuterPosition(position) => HeadlessWindow {
                outer_position: resolve_position(position),
                ..self
            },
            WindowAction::SetFullscreen(fullscreen) => HeadlessWindow { fullscreen, ..self },
            WindowAction::SetFocus => HeadlessWindow { focused: true, ..self },
            WindowAction::SetWindowIcon(icon) => HeadlessWindow { icon, ..self },
            WindowAction::SetSkipTaskbar(skip_taskbar) => HeadlessWindow { skip_taskbar, ..self },
            WindowAction::DragWindow => HeadlessWindow { dragging: true, ..self },
        }
    }
}

/// The identities of some windows, in their order.
pub open spec fn ids_of(windows: Seq<HeadlessWindow>) -> Seq<WindowId> {
    Seq::new(windows.len(), |i: int| windows[i].id)
}

/// The headless toolkit: its windows, in the order in which they were
/// made, and the identity that the next window gets.
#[derive(Debug, PartialEq, Eq)]
pub struct Headless {
    pub windows: Vec<HeadlessWindow>,
    pub next_id: u64,
}

/// What came of performing an operation.
#[derive(Debug, PartialEq, Eq)]
pub enum Outcome {
    /// The operation is done, and there is nothing to report.
    Done,
    /// A window has answered a query, for this reply channel.
    Answer(ReplyId, NativeAnswer),
    /// A window was made, or could not be made, for this reply channel.
    Created(ReplyId, Result<WindowId, String>),
}

/// Whether `after` and `outcome` are what making a window by `plan` makes
/// of the windows `before`: the window gets the next identity and stands
/// behind the others; when the identities have run out, it cannot be made.
pub open spec fn created(
    before: Seq<HeadlessWindow>,
    next_id: u64,
    plan: WebviewPlan,
    sender: ReplyId,
    after: Seq<HeadlessWindow>,
    outcome: Outcome,
) -> bool {
    if next_id < u64::MAX {
        &&& outcome == Outcome::Created(sender, Ok(WindowId(next_id)))
        &&& after.len() == before.len() + 1
        &&& after.drop_last() == before
        &&& made_of(after.last(), plan, WindowId(next_id))
    } else {
        after == before && (outcome matches Outcome::Created(to, Err(_)) && to == sender)
    }
}

/// Whether `after` is `before` without the window `id`.
pub open spec fn dropped(before: Seq<HeadlessWindow>, id: WindowId, after: Seq<HeadlessWindow>)
    -> bool {
    &&& forall|i: int| 0 <= i < before.len() && (#[trigger] before[i]).id == id ==> after == before.remove(i)
    &&& !ids_of(before).contains(id) ==> after == before
}

/// Whether `after` and `outcome` are what an operation on the window `id`
/// makes of the windows `before`: the window is as the operation leaves
/// it, and a query is answered by the window as it was.
pub open spec fn operated(
    before: Seq<HeadlessWindow>,
    id: WindowId,
    operation: WindowAction,
    after: Seq<HeadlessWindow>,
    outcome: Outcome,
) -> bool {
    &&& forall|i: int|
        0 <= i < before.len() && (#[trigger] before[i]).id == id ==> {
            &&& after == before.update(i, window_after(before[i], operation))
            &&& match operation {
                WindowAction::Query(getter, sender) => outcome matches Outcome::Answer(to, said)
                    && to == sender && answers(before[i], getter, said),
                _ => outcome is Done,
            }
        }
    &&& !ids_of(before).contains(id) ==> after == before && outcome is Done
}

/// Whether `after` is `before` with a script handed to the webview of the
/// window `id`.
pub open spec fn scripted(
    before: Seq<HeadlessWindow>,
    id: WindowId,
    script: String,
    after: Seq<HeadlessWindow>,
) -> bool {
    &&& forall|i: int|
        0 <= i < before.len() && (#[trigger] before[i]).id == id ==> {
            &&& after.len() == before.len()
            &&& forall|j: int| 0 <= j < before.len() && j != i ==> after[j] == before[j]
            &&& after[i].scripts@ == before[i].scripts@.push(script)
            &&& after[i] == (HeadlessWindow { scripts: after[i].scripts, ..before[i] })
        }
    &&& !ids_of(before).contains(id) ==> after == before
}

/// Whether `after` is `before` with the content of the window `id`
/// printed.
pub open spec fn printed(before: Seq<HeadlessWindow>, id: WindowId, after: Seq<HeadlessWindow>)
    -> bool {
    &&& forall|i: int|
        0 <= i < before.len() && (#[trigger] before[i]).id == id ==> after == before.update(
            i,
            HeadlessWindow { printed: true, ..before[i] },
        )
    &&& !ids_of(before).contains(id) ==> after == before
}

/// Whether `after` and `outcome` are what performing `action` makes of the
/// windows `before`, the next identity being `next_id`. An operation on a
/// window that the toolkit does not have does nothing.
pub open spec fn performed(
    before: Seq<HeadlessWindow>,
    next_id: u64,
    action: Action,
    after: Seq<HeadlessWindow>,
    outcome: Outcome,
) -> bool {
    match action {
        Action::CreateWebview(plan, sender) => created(
            before,
            next_id,
            plan,
            sender,
            after,
            outcome,
        ),
        Action::DropWebview(id) => outcome is Done && dropped(before, id, after),
        Action::ResizeWebview(_) => after == before && outcome is Done,
        Action::Window(id, operation) => operated(before, id, operation, after, outcome),
        Action::DispatchScript(id, script) => outcome is Done && scripted(
            before,
            id,
            script,
            after,
        ),
        Action::Print(id) => outcome is Done && printed(before, id, after),
    }
}

impl Headless {
    /// No two windows have the same identity, and the next identity is
    /// beyond them all.
    pub open spec fn wf(&self) -> bool {
        &&& ids_of(self.windows@).no_duplicates()
        &&& forall|i: int| 0 <= i < self.windows@.len() ==> self.windows@[i].id.0 < self.next_id
    }

    /// A toolkit without windows.
    pub fn new() -> (toolkit: Headless)
        ensures
            toolkit.wf(),
            toolkit.windows@.len() == 0,
            toolkit.next_id == 0,
    {
        Headless { windows: Vec::new(), next_id: 0 }
    }

    /// Where the window of an identity stands.
    pub fn find(&self, id: WindowId) -> (at: Option<usize>)
        ensures
            match at {
                Some(i) => i < self.windows@.len() && self.windows@[i as int].id == id,
                None => !ids_of(self.windows@).contains(id),
            },
    {
        let mut i: usize = 0;
        while i < self.windows.len()
            invariant
                i <= self.windows@.len(),
                forall|j: int| 0 <= j < i ==> self.windows@[j].id != id,
            decreases self.windows@.len() - i,
        {
            if self.windows[i].id == id {
                return Some(i);
            }
            i = i + 1;
        }
        assert(!ids_of(self.windows@).contains(id)) by {
            if ids_of(self.windows@).contains(id) {
                let j = choose|j: int|
                    0 <= j < ids_of(self.windows@).len() && ids_of(self.windows@)[j] == id;
                assert(self.windows@[j].id == id);
            }
        }
        None
    }

    /// The window of an identity.
    pub fn window(&self, id: WindowId) -> (window: Option<&HeadlessWindow>)
        ensures
            match window {
                Some(w) => w.id == id && self.windows@.contains(*w),
                None => !ids_of(self.windows@).contains(id),
            },
    {
        match self.find(id) {
            Some(i) => {
                assert(self.windows@[i as int] == self.windows@[i as int]);
                Some(&self.windows[i])
            },
            None => None,
        }
    }

    /// Makes the window of a plan: the window gets the next identity and
    /// stands behind the others; when the identities have run out, it
    /// cannot be made and nothing changes.
    pub fn make(&mut self, plan: WebviewPlan) -> (made: Result<WindowId, String>)
        requires
            old(self).wf(),
        ensures
            final(self).wf(),
            old(self).next_id < u64::MAX ==> {
                &&& made == Ok::<WindowId, String>(WindowId(old(self).next_id))
                &&& final(self).next_id == old(self).next_id + 1
                &&& final(self).windows@.len() == old(self).windows@.len() + 1
                &&& final(self).windows@.drop_last() == old(self).windows@
                &&& made_of(final(self).windows@.last(), plan, WindowId(old(self).next_id))
                &&& ids_of(final(self).windows@) == ids_of(old(self).windows@).push(
                    WindowId(old(self).next_id),
                )
                &&& !ids_of(old(self).windows@).contains(WindowId(old(self).next_id))
            },
            old(self).next_id == u64::MAX ==> made is Err && *final(self) == *old(self),
    {
        if self.next_id == u64::MAX {
            return Err(String::from_str("no window identity is left"));
        }
        let id = WindowId(self.next_id);
        let window = HeadlessWindow::new(plan, id);
        self.windows.push(window);
        self.next_id = self.next_id + 1;
        assert(self.windows@.drop_last() =~= old(self).windows@);
        assert(ids_of(self.windows@) =~= ids_of(old(self).windows@).push(id));
        assert(!ids_of(old(self).windows@).contains(id)) by {
            if ids_of(old(self).windows@).contains(id) {
                let j = choose|j: int|
                    0 <= j < ids_of(old(self).windows@).len() && ids_of(old(self).windows@)[j]
                        == id;
                assert(old(self).windows@[j].id.0 < old(self).next_id);
            }
        }
        Ok(id)
    }

    /// Makes the window of a plan for a reply channel: see [`created`].
    pub fn create(&mut self, plan: WebviewPlan, sender: ReplyId) -> (outcome: Outcome)
        requires
            old(self).wf(),
        ensures
            final(self).wf(),
            created(
                old(self).windows@,
                old(self).next_id,
                plan,
                sender,
                final(self).windows@,
                outcome,
            ),
            final(self).next_id == if old(self).next_id < u64::MAX {
                (old(self).next_id + 1) as u64
            } else {
                old(self).next_id
            },
    {
        Outcome::Created(sender, self.make(plan))
    }

    /// Gives up a window: see [`dropped`].
    pub fn drop_webview(&mut self, id: WindowId)
        requires
            old(self).wf(),
        ensures
            final(self).wf(),
            dropped(old(self).windows@, id, final(self).windows@),
            final(self).next_id == old(self).next_id,
    {
        match self.find(id) {
            Some(i) => {
                proof {
                    lemma_found(self.windows@, i as int, id);
                }
                self.windows.remove(i);
                let ghost before = ids_of(old(self).windows@);
                let ghost after = ids_of(self.windows@);
                assert(after =~= before.remove(i as int));
                assert forall|a: int, b: int|
                    0 <= a < after.len() && 0 <= b < after.len() && a != b implies after[a]
                    != after[b] by {
                    let a0 = if a < i {
                        a
                    } else {
                        a + 1
                    };
                    let b0 = if b < i {
                        b
                    } else {
                        b + 1
                    };
                    assert(after[a] == before[a0]);
                    assert(after[b] == before[b0]);
                }
                assert forall|k: int| 0 <= k < self.windows@.len() implies self.windows@[k].id.0
                    < self.next_id by {
                    let k0 = if k < i {
                        k
                    } else {
                        k + 1
                    };
                    assert(self.windows@[k] == old(self).windows@[k0]);
                }
                assert forall|k: int|
                    0 <= k < old(self).windows@.len() && old(self).windows@[k].id
                        == id implies self.windows@ == old(self).windows@.remove(k) by {
                    assert(k == i);
                }
            },
            None => {
                proof {
                    lemma_not_found(self.windows@, id);
                }
            },
        }
    }

    /// Performs an operation on a window: see [`operated`].
    pub fn operate(&mut self, id: WindowId, operation: WindowAction) -> (outcome: Outcome)
        requires
            old(self).wf(),
        ensures
            final(self).wf(),
            operated(old(self).windows@, id, operation, final(self).windows@, outcome),
            final(self).next_id == old(self).next_id,
    {
        match self.find(id) {
            Some(i) => {
                proof {
                    lemma_found(self.windows@, i as int, id);
                }
                let outcome = match &operation {
                    WindowAction::Query(getter, sender) => Outcome::Answer(
                        *sender,
                        self.windows[i].query(*getter),
                    ),
                    _ => Outcome::Done,
                };
                let window = self.windows.remove(i);
                self.windows.insert(i, window.apply(operation));
                proof {
                    let changed = window_after(old(self).windows@[i as int], operation);
                    lemma_same_identity(old(self).windows@[i as int], operation);
                    assert(self.windows@ =~= old(self).windows@.update(i as int, changed));
                    assert(ids_of(self.windows@) =~= ids_of(old(self).windows@));
                    assert forall|k: int|
                        0 <= k < old(self).windows@.len() && old(self).windows@[k].id
                            == id implies k == i by {}
                }
                outcome
            },
            None => {
                proof {
                    lemma_not_found(self.windows@, id);
                }
                Outcome::Done
            },
        }
    }

    /// Hands a script to the webview of a window: see [`scripted`].
    pub fn dispatch_script(&mut self, id: WindowId, script: String)
        requires
            old(self).wf(),
        ensures
            final(self).wf(),
            scripted(old(self).windows@, id, script, final(self).windows@),
            final(self).next_id == old(self).next_id,
    {
        match self.find(id) {
            Some(i) => {
                proof {
                    lemma_found(self.windows@, i as int, id);
                }
                let window = self.windows.remove(i);
                let HeadlessWindow {
                    id: window_id,
                    label,
                    url,
                    title,
                    inner_size,
                    min_inner_size,
                    max_inner_size,
                    outer_position,
                    resizable,
                    maximized,
                    minimized,
                    visible,
                    decorations,
                    always_on_top,
                    fullscreen,
                    focused,
                    transparent,
                    icon,
                    skip_taskbar,
                    dragging,
                    scripts,
                    printed,
                } = window;
                let mut scripts = scripts;
                scripts.push(script);
                self.windows.insert(
                    i,
                    HeadlessWindow {
                        id: window_id,
                        label,
                        url,
                        title,
                        inner_size,
                        min_inner_size,
                        max_inner_size,
                        outer_position,
                        resizable,
                        maximized,
                        minimized,
                        visible,
                        decorations,
                        always_on_top,
                        fullscreen,
                        focused,
                        transparent,
                        icon,
                        skip_taskbar,
                        dragging,
                        scripts,
                        printed,
                    },
                );
                assert(ids_of(self.windows@) =~= ids_of(old(self).windows@));
                assert forall|k: int|
                    0 <= k < old(self).windows@.len() && old(self).windows@[k].id
                        == id implies k == i by {}
            },
            None => {
                proof {
                    lemma_not_found(self.windows@, id);
                }
            },
        }
    }

    /// Prints the content of a window: see [`printed`].
    pub fn print(&mut self, id: WindowId)
        requires
            old(self).wf(),
        ensures
            final(self).wf(),
            printed(old(self).windows@, id, final(self).windows@),
            final(self).next_id == old(self).next_id,
    {
        match self.find(id) {
            Some(i) => {
                proof {
                    lemma_found(self.windows@, i as int, id);
                }
                let window = self.windows.remove(i);
                self.windows.insert(i, HeadlessWindow { printed: true, ..window });
                assert(self.windows@ =~= old(self).windows@.update(
                    i as int,
                    HeadlessWindow { printed: true, ..old(self).windows@[i as int] },
                ));
                assert(ids_of(self.windows@) =~= ids_of(old(self).windows@));
                assert forall|k: int|
                    0 <= k < old(self).windows@.len() && old(self).windows@[k].id
                        == id implies k == i by {}
            },
            None => {
                proof {
                    lemma_not_found(self.windows@, id);
                }
            },
        }
    }

    /// Performs what the event loop asks for: see [`performed`].
    pub fn perform(&mut self, action: Action) -> (outcome: Outcome)
        requires
            old(self).wf(),
        ensures
            final(self).wf(),
            performed(old(self).windows@, old(self).next_id, action, final(self).windows@, outcome),
            final(self).next_id == if action is CreateWebview && old(self).next_id < u64::MAX {
                (old(self).next_id + 1) as u64
            } else {
                old(self).next_id
            },
    {
        match action {
            Action::CreateWebview(plan, sender) => self.create(plan, sender),
            Action::DropWebview(id) => {
                self.drop_webview(id);
                Outcome::Done
            },
            Action::ResizeWebview(_) => Outcome::Done,
            Action::Window(id, operation) => self.operate(id, operation),
            Action::DispatchScript(id, script) => {
                self.dispatch_script(id, script);
                Outcome::Done
            },
            Action::Print(id) => {
                self.print(id);
                Outcome::Done
            },
        }
    }
}

/// Among windows with distinct identities, the window of an identity is
/// the only one of it.
pub proof fn lemma_found(windows: Seq<HeadlessWindow>, at: int, id: WindowId)
    requires
        ids_of(windows).no_duplicates(),
        0 <= at < windows.len(),
        windows[at].id == id,
    ensures
        ids_of(windows).contains(id),
        forall|k: int| 0 <= k < windows.len() && windows[k].id == id ==> k == at,
{
    assert(ids_of(windows)[at] == id);
    assert forall|k: int| 0 <= k < windows.len() && windows[k].id == id implies k == at by {
        assert(ids_of(windows)[k] == ids_of(windows)[at]);
    }
}

/// An identity that is not among those of some windows is the identity of
/// none of them.
pub proof fn lemma_not_found(windows: Seq<HeadlessWindow>, id: WindowId)
    requires
        !ids_of(windows).contains(id),
    ensures
        forall|k: int| 0 <= k < windows.len() ==> windows[k].id != id,
{
    assert forall|k: int| 0 <= k < windows.len() implies windows[k].id != id by {
        assert(ids_of(windows)[k] == windows[k].id);
    }
}

/// An operation on a window leaves its identity as it is.
pub proof fn lemma_same_identity(window: HeadlessWindow, operation: WindowAction)
    ensures
        window_after(window, operation).id == window.id,
{
}

/// Taking the one occurrence of an identity out of a sequence is taking
/// the identity out.
pub proof fn lemma_remove_is_without(ids: Seq<WindowId>, at: int)
    requires
        ids.no_duplicates(),
        0 <= at < ids.len(),
    ensures
        ids.remove(at) == without(ids, ids[at]),
    decreases ids.len(),
{
    let id = ids[at];
    let front = ids.drop_last();
    if at == ids.len() - 1 {
        assert(!front.contains(id)) by {
            if front.contains(id) {
                let j = choose|j: int| 0 <= j < front.len() && front[j] == id;
                assert(ids[j] == ids[at]);
            }
        }
        lemma_without(front, id);
        assert(ids.remove(at) =~= front);
    } else {
        assert(ids.last() != id);
        lemma_remove_is_without(front, at);
        assert(ids.remove(at) =~= front.remove(at).push(ids.last()));
    }
}

/// An event calls for one native operation at most.
pub proof fn lemma_one_action(event: Event, webviews: Seq<WindowId>, held: Option<PendingWindow>)
    ensures
        tick_actions(event, webviews, held).len() <= 1,
{
}

/// A runtime on the headless toolkit: everything that a step of the event
/// loop asks of the native side is performed on the toolkit then and
/// there, and what the toolkit answers is fed back.
pub struct HeadlessRuntime {
    pub runtime: Wry,
    pub toolkit: Headless,
    /// What the loop was told after the last step.
    pub control_flow: ControlFlow,
}

/// What a step leaves to the application: the closures to run.
#[derive(Debug, PartialEq, Eq)]
pub struct Callbacks {
    /// The main-thread tasks to run, oldest first.
    pub tasks: Vec<Callback>,
    /// What the listeners are told, if anything.
    pub notification: Option<Notification>,
    /// The listeners to tell, each once.
    pub listeners: Vec<ListenerId>,
    /// The summary of the step.
    pub iteration: RunIteration,
}

/// Whether the reply channels and the table are what feeding an outcome
/// back makes of them: an answer goes on its reply channel as the reply it
/// becomes; a window that was made enters the table and its identity goes
/// on its reply channel; anything else changes nothing.
pub open spec fn fed_back(
    replies: Seq<ReplySlot>,
    webviews: Seq<WindowId>,
    outcome: Outcome,
    replies_after: Seq<ReplySlot>,
    webviews_after: Seq<WindowId>,
) -> bool {
    match outcome {
        Outcome::Done => replies_after == replies && webviews_after == webviews,
        Outcome::Answer(sender, answer) => replies_after == Replies::completed(
            replies,
            sender,
            reply_of(answer),
        ) && webviews_after == webviews,
        Outcome::Created(sender, Ok(id)) => replies_after == Replies::completed(
            replies,
            sender,
            Reply::WindowCreated(id),
        ) && webviews_after == with(webviews, id),
        Outcome::Created(_, Err(_)) => replies_after == replies && webviews_after == webviews,
    }
}

/// Whether `after` and `callbacks` are what a step for `event` makes of
/// `before`, the command channel apart: the step of the event loop, with
/// the one operation that it asks for, if any, performed on the toolkit
/// and its outcome fed back.
pub open spec fn stepped(
    before: HeadlessRuntime,
    event: Event,
    after: HeadlessRuntime,
    callbacks: Callbacks,
) -> bool {
    let webviews = before.runtime.webviews@;
    let actions = tick_actions(
        event,
        webviews,
        tick_held(event, before.runtime.context.handlers@),
    );
    &&& after.control_flow == tick_control_flow(event, webviews)
    &&& callbacks.tasks@ == before.runtime.context.task_tx.tasks()
    &&& callbacks.notification == tick_notification(event)
    &&& callbacks.listeners@ == tick_listeners(
        event,
        before.runtime.context.window_event_listeners@,
        before.runtime.context.menu_event_listeners@,
        before.runtime.system_tray_event_listeners@,
    )
    &&& callbacks.iteration.webview_count == after.runtime.webviews@.len()
    &&& after.runtime.context.handlers@ == tick_slots(event, before.runtime.context.handlers@)
    &&& after.runtime.context.task_tx.tasks() == Seq::<Callback>::empty()
    &&& after.runtime.context.task_tx.is_open() == before.runtime.context.task_tx.is_open()
    &&& after.runtime.context.window_event_listeners
        == before.runtime.context.window_event_listeners
    &&& after.runtime.context.menu_event_listeners == before.runtime.context.menu_event_listeners
    &&& after.runtime.system_tray_event_listeners == before.runtime.system_tray_event_listeners
    &&& if actions.len() == 0 {
        &&& after.toolkit == before.toolkit
        &&& after.runtime.context.replies@ == before.runtime.context.replies@
        &&& after.runtime.webviews@ == tick_webviews(event, webviews)
    } else {
        exists|outcome: Outcome|
            {
                &&& #[trigger] performed(
                    before.toolkit.windows@,
                    before.toolkit.next_id,
                    actions[0],
                    after.toolkit.windows@,
                    outcome,
                )
                &&& fed_back(
                    before.runtime.context.replies@,
                    tick_webviews(event, webviews),
                    outcome,
                    after.runtime.context.replies@,
                    after.runtime.webviews@,
                )
            }
    }
}

impl HeadlessRuntime {
    /// The runtime and the toolkit are in order, and the live windows are
    /// the windows of the toolkit.
    pub open spec fn wf(&self) -> bool {
        &&& self.runtime.wf()
        &&& self.toolkit.wf()
        &&& self.runtime.webviews@ == ids_of(self.toolkit.windows@)
    }

    /// A runtime without windows, listeners or messages.
    pub fn new() -> (headless: HeadlessRuntime)
        ensures
            headless.wf(),
            headless.toolkit.windows@.len() == 0,
            headless.toolkit.next_id == 0,
            headless.runtime.webviews@.len() == 0,
            headless.runtime.context.proxy.is_open(),
            headless.runtime.context.proxy.messages().len() == 0,
            headless.runtime.context.task_tx.is_open(),
            headless.runtime.context.task_tx.tasks().len() == 0,
            headless.runtime.context.window_event_listeners@.len() == 0,
            headless.runtime.context.menu_event_listeners@.len() == 0,
            headless.runtime.system_tray_event_listeners@.len() == 0,
            headless.runtime.context.replies@.len() == 0,
            headless.runtime.context.handlers@.len() == 0,
            headless.control_flow == ControlFlow::Wait,
    {
        let headless = HeadlessRuntime {
            runtime: Wry::new(),
            toolkit: Headless::new(),
            control_flow: ControlFlow::Wait,
        };
        assert(headless.runtime.webviews@ =~= ids_of(headless.toolkit.windows@));
        headless
    }

    /// Makes a window on the thread of the event loop itself, without a
    /// message: the window is made then and there and enters the table, and
    /// a failure to make it comes back as the error that wraps its cause,
    /// with nothing changed.
    pub fn create_window(&mut self, pending: PendingWindow) -> (r: Result<DetachedWindow, Error>)
        requires
            old(self).wf(),
        ensures
            final(self).wf(),
            final(self).runtime.context == old(self).runtime.context,
            final(self).runtime.system_tray_event_listeners == old(
                self,
            ).runtime.system_tray_event_listeners,
            final(self).control_flow == old(self).control_flow,
            old(self).toolkit.next_id < u64::MAX ==> {
                let id = WindowId(old(self).toolkit.next_id);
                &&& r == Ok::<DetachedWindow, Error>(
                    DetachedWindow { label: pending.label, dispatcher: WryDispatcher { window_id: id } },
                )
                &&& final(self).runtime.webviews@ == old(self).runtime.webviews@.push(id)
                &&& final(self).toolkit.next_id == old(self).toolkit.next_id + 1
                &&& final(self).toolkit.windows@.drop_last() == old(self).toolkit.windows@
                &&& final(self).toolkit.windows@.len() == old(self).toolkit.windows@.len() + 1
                &&& made_of(final(self).toolkit.windows@.last(), webview_plan(pending), id)
            },
            old(self).toolkit.next_id == u64::MAX ==> {
                &&& r matches Err(Error::CreateWebview(_))
                &&& final(self).toolkit == old(self).toolkit
                &&& final(self).runtime.webviews@ == old(self).runtime.webviews@
            },
    {
        let plan = self.runtime.create_window(pending);
        let label = plan.label.clone();
        let created = self.toolkit.make(plan);
        self.runtime.attach_window(label, created)
    }

    /// Takes one step of the event loop for an event, and performs what
    /// the step asks for: see [`stepped`].
    pub fn step(&mut self, event: Event) -> (callbacks: Callbacks)
        requires
            old(self).wf(),
        ensures
            final(self).wf(),
            stepped(*old(self), event, *final(self), callbacks),
            final(self).runtime.context.proxy == old(self).runtime.context.proxy,
    {
        proof {
            lemma_one_action(
                event,
                self.runtime.webviews@,
                tick_held(event, self.runtime.context.handlers@),
            );
        }
        let tick = handle_event_loop(event, &mut self.control_flow, &mut self.runtime);
        let Tick { tasks, notification, listeners, actions, .. } = tick;
        let mut actions = actions;
        let ghost asked = actions@;
        let ghost webviews = self.runtime.webviews@;
        match actions.pop() {
            Some(action) => {
                assert(action == asked[0]);
                proof {
                    lemma_step_keeps_order(
                        event,
                        old(self).runtime.webviews@,
                        tick_held(event, old(self).runtime.context.handlers@),
                        old(self).toolkit.windows@,
                    );
                }
                let outcome = self.toolkit.perform(action);
                let ghost done = outcome;
                match outcome {
                    Outcome::Done => {},
                    Outcome::Answer(sender, answer) => {
                        self.runtime.answer(sender, answer);
                    },
                    Outcome::Created(sender, created) => {
                        self.runtime.webview_created(sender, created);
                    },
                }
                proof {
                    lemma_coherent(
                        old(self).toolkit.windows@,
                        old(self).toolkit.next_id,
                        webviews,
                        asked[0],
                        self.toolkit.windows@,
                        done,
                        self.runtime.webviews@,
                    );
                }
            },
            None => {
                proof {
                    lemma_step_keeps_order(
                        event,
                        old(self).runtime.webviews@,
                        tick_held(event, old(self).runtime.context.handlers@),
                        old(self).toolkit.windows@,
                    );
                }
            },
        }
        Callbacks {
            tasks,
            notification,
            listeners,
            iteration: RunIteration { webview_count: self.runtime.webview_count() },
        }
    }
}

impl HeadlessRuntime {
    /// Takes one step of the event loop for the oldest message that is
    /// under way, and performs what the step asks for; where no message is
    /// under way, the step has no event to answer.
    pub fn run_iteration(&mut self) -> (callbacks: Callbacks)
        requires
            old(self).wf(),
        ensures
            final(self).wf(),
            stepped(
                *old(self),
                next_event(old(self).runtime.context.proxy.messages()),
                *final(self),
                callbacks,
            ),
            final(self).runtime.context.proxy.is_open() == old(
                self,
            ).runtime.context.proxy.is_open(),
            final(self).runtime.context.proxy.messages() == if old(
                self,
            ).runtime.context.proxy.messages().len() > 0 {
                old(self).runtime.context.proxy.messages().drop_first()
            } else {
                old(self).runtime.context.proxy.messages()
            },
    {
        let ghost before = *self;
        let event = match self.runtime.context.proxy.next_event() {
            Some(message) => Event::UserEvent(message),
            None => Event::Other,
        };
        let ghost popped = *self;
        let callbacks = self.step(event);
        assert(stepped(before, event, *self, callbacks)) by {
            assert(stepped(popped, event, *self, callbacks));
        }
        callbacks
    }
}

/// Whether `after` and `callbacks` are what one step for the oldest message
/// under way makes of `before`.
pub open spec fn iterated(before: HeadlessRuntime, callbacks: Callbacks, after: HeadlessRuntime)
    -> bool {
    let messages = before.runtime.context.proxy.messages();
    &&& before.wf()
    &&& after.wf()
    &&& messages.len() > 0
    &&& stepped(before, next_event(messages), after, callbacks)
    &&& after.runtime.context.proxy.messages() == messages.drop_first()
    &&& after.runtime.context.proxy.is_open() == before.runtime.context.proxy.is_open()
}

/// Whether `after` is what steps for the oldest messages under way make of
/// `before`, one step after the other, with `steps` what each of them left
/// to the application. Before every step but the first, the loop had been
/// told to wait.
pub open spec fn ran(before: HeadlessRuntime, steps: Seq<Callbacks>, after: HeadlessRuntime)
    -> bool
    decreases steps.len(),
{
    if steps.len() == 0 {
        after == before
    } else {
        exists|mid: HeadlessRuntime|
            {
                &&& ran(before, steps.drop_last(), mid)
                &&& steps.len() > 1 ==> mid.control_flow != ControlFlow::Exit
                &&& #[trigger] iterated(mid, steps.last(), after)
            }
    }
}

/// A run goes on by one step.
pub proof fn lemma_ran_on(
    before: HeadlessRuntime,
    steps: Seq<Callbacks>,
    mid: HeadlessRuntime,
    after: HeadlessRuntime,
)
    requires
        steps.len() > 0,
        ran(before, steps.drop_last(), mid),
        steps.len() > 1 ==> mid.control_flow != ControlFlow::Exit,
        iterated(mid, steps.last(), after),
    ensures
        ran(before, steps, after),
{
}

/// Whether `after` is `before` with the loop gone: the command channel and
/// the queue of tasks are closed, with what was under way still in them,
/// and nothing else has changed.
pub open spec fn gone(before: HeadlessRuntime, after: HeadlessRuntime) -> bool {
    &&& after.toolkit == before.toolkit
    &&& after.control_flow == before.control_flow
    &&& after.runtime.webviews == before.runtime.webviews
    &&& after.runtime.system_tray_event_listeners == before.runtime.system_tray_event_listeners
    &&& after.runtime.context.replies == before.runtime.context.replies
    &&& after.runtime.context.handlers == before.runtime.context.handlers
    &&& after.runtime.context.window_event_listeners
        == before.runtime.context.window_event_listeners
    &&& after.runtime.context.menu_event_listeners == before.runtime.context.menu_event_listeners
    &&& after.runtime.context.proxy.messages() == before.runtime.context.proxy.messages()
    &&& !after.runtime.context.proxy.is_open()
    &&& after.runtime.context.task_tx.tasks() == before.runtime.context.task_tx.tasks()
    &&& !after.runtime.context.task_tx.is_open()
}

impl HeadlessRuntime {
    /// Runs the event loop: takes one step for each message under way,
    /// oldest first, until the loop is told to exit or no message is left,
    /// and hands back what each step left to the application.
    ///
    /// When the loop is told to exit it is gone: the command channel and
    /// the queue of tasks are closed, and whatever is still under way is
    /// never delivered. A loop that has run out of messages stays as it
    /// is, and can be run again when there are more.
    pub fn run(&mut self) -> (steps: Vec<Callbacks>)
        requires
            old(self).wf(),
        ensures
            final(self).wf(),
            exists|last: HeadlessRuntime|
                {
                    &&& #[trigger] ran(*old(self), steps@, last)
                    &&& if steps@.len() > 0 && last.control_flow == ControlFlow::Exit {
                        gone(last, *final(self))
                    } else {
                        *final(self) == last && last.runtime.context.proxy.messages().len() == 0
                    }
                },
    {
        let mut steps: Vec<Callbacks> = Vec::new();
        while self.runtime.context.proxy.has_event()
            invariant_except_break
                steps@.len() > 0 ==> self.control_flow != ControlFlow::Exit,
            invariant
                self.wf(),
                ran(*old(self), steps@, *self),
            ensures
                self.wf(),
                ran(*old(self), steps@, *self),
                !(steps@.len() > 0 && self.control_flow == ControlFlow::Exit)
                    ==> self.runtime.context.proxy.messages().len() == 0,
            decreases self.runtime.context.proxy.messages().len(),
        {
            let ghost mid = *self;
            let ghost before = steps@;
            let callbacks = self.run_iteration();
            steps.push(callbacks);
            proof {
                assert(steps@.drop_last() =~= before);
                assert(steps@.last() == callbacks);
                assert(mid.runtime.context.proxy.messages().len() > 0);
                assert(iterated(mid, steps@.last(), *self));
                assert(ran(*old(self), steps@.drop_last(), mid));
                assert(steps@.len() > 1 ==> mid.control_flow != ControlFlow::Exit);
                lemma_ran_on(*old(self), steps@, mid, *self);
            }
            if self.control_flow == ControlFlow::Exit {
                break ;
            }
        }
        let ghost last = *self;
        if steps.len() > 0 && self.control_flow == ControlFlow::Exit {
            self.runtime.context.proxy.close();
            self.runtime.context.task_tx.close();
        }
        proof {
            assert(ran(*old(self), steps@, last));
        }
        steps
    }
}

/// A step that asks for no operation leaves the table as it is, and one
/// that gives a window up asks for it to be dropped.
pub proof fn lemma_step_keeps_order(
    event: Event,
    webviews: Seq<WindowId>,
    held: Option<PendingWindow>,
    windows: Seq<HeadlessWindow>,
)
    requires
        webviews.no_duplicates(),
        webviews == ids_of(windows),
    ensures
        tick_actions(event, webviews, held).len() == 0 ==> tick_webviews(event, webviews)
            == webviews,
        tick_actions(event, webviews, held).len() == 1 ==> (tick_actions(
            event,
            webviews,
            held,
        )[0] matches Action::DropWebview(id) ==> tick_webviews(event, webviews) == without(
            webviews,
            id,
        ) && webviews.contains(id)),
        tick_actions(event, webviews, held).len() == 1 && !(tick_actions(
            event,
            webviews,
            held,
        )[0] is DropWebview) ==> tick_webviews(event, webviews) == webviews,
{
    match event {
        Event::WindowEvent { window_id, event: crate::window::NativeWindowEvent::CloseRequested } => {
            lemma_without(webviews, window_id);
        },
        _ => {},
    }
}

/// After the one operation of a step is performed and its outcome fed
/// back, the live windows are the windows of the toolkit again.
pub proof fn lemma_coherent(
    before: Seq<HeadlessWindow>,
    next_id: u64,
    webviews: Seq<WindowId>,
    action: Action,
    after: Seq<HeadlessWindow>,
    outcome: Outcome,
    webviews_after: Seq<WindowId>,
)
    requires
        ids_of(before).no_duplicates(),
        forall|i: int| 0 <= i < before.len() ==> before[i].id.0 < next_id,
        performed(before, next_id, action, after, outcome),
        action matches Action::DropWebview(id) ==> webviews == without(ids_of(before), id)
            && ids_of(before).contains(id),
        !(action is DropWebview) ==> webviews == ids_of(before),
        match outcome {
            Outcome::Created(_, Ok(id)) => webviews_after == with(webviews, id),
            _ => webviews_after == webviews,
        },
    ensures
        webviews_after == ids_of(after),
{
    match action {
        Action::CreateWebview(plan, sender) => {
            if next_id < u64::MAX {
                let id = WindowId(next_id);
                assert(!ids_of(before).contains(id)) by {
                    if ids_of(before).contains(id) {
                        let j = choose|j: int|
                            0 <= j < ids_of(before).len() && ids_of(before)[j] == id;
                        assert(before[j].id.0 < next_id);
                    }
                }
                assert(after.drop_last() == before);
                assert(ids_of(after) =~= ids_of(before).push(id)) by {
                    assert forall|k: int| 0 <= k < before.len() implies ids_of(after)[k]
                        == ids_of(before)[k] by {
                        assert(after.drop_last()[k] == after[k]);
                    }
                }
            }
        },
        Action::DropWebview(id) => {
            let at = choose|j: int| 0 <= j < ids_of(before).len() && ids_of(before)[j] == id;
            assert(before[at].id == id);
            lemma_remove_is_without(ids_of(before), at);
            assert(ids_of(before.remove(at)) =~= ids_of(before).remove(at));
        },
        Action::ResizeWebview(_) => {},
        Action::Window(id, operation) => {
            if ids_of(before).contains(id) {
                let at = choose|j: int| 0 <= j < ids_of(before).len() && ids_of(before)[j] == id;
                assert(before[at].id == id);
                lemma_same_identity(before[at], operation);
                assert(ids_of(after) =~= ids_of(before));
            }
        },
        Action::DispatchScript(id, script) => {
            if ids_of(before).contains(id) {
                let at = choose|j: int| 0 <= j < ids_of(before).len() && ids_of(before)[j] == id;
                assert(before[at].id == id);
                assert(after.len() == before.len());
                assert forall|k: int| 0 <= k < before.len() implies ids_of(after)[k] == ids_of(
                    before,
                )[k] by {
                    if k != at {
                        assert(after[k] == before[k]);
                    }
                }
                assert(ids_of(after) =~= ids_of(before));
            }
        },
        Action::Print(id) => {
            if ids_of(before).contains(id) {
                let at = choose|j: int| 0 <= j < ids_of(before).len() && ids_of(before)[j] == id;
                assert(before[at].id == id);
                assert(ids_of(after) =~= ids_of(before));
            }
        },
    }
}

} // verus!
