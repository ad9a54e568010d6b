//! The input dispatcher: what every keyboard and pointer event does to the
//! state, and what it asks of the layers around the core.

use vstd::prelude::*;
use vstd::string::*;

use crate::cursor::{CursorMode, CursorState};
use crate::geometry::{fixed_of, saturate, saturate_i64, Point};
use crate::keybinding::{bound_action, ActionView, BindingView, KeyAction, ModifiersState};
use crate::keysym::{
    Keysym, KEY_1, KEY_9, KEY_BACKSPACE, KEY_Q_LOWER, KEY_RETURN, KEY_SWITCH_VT_1,
    KEY_SWITCH_VT_12,
};
use crate::output::{center, clamped, output_at, span};
use crate::request::{views_of, AxisFrame, AxisScroll, Request, RequestView, ScrollSource};
use crate::server::{lemma_focus_raises, Server, ServerView};
use crate::view::{
    hit_at, is_topmost_at, lemma_index_of, lemma_raised_keeps_order, lemma_raised_permutes,
    lemma_replaced_keeps_ids, raised, stands_before, topmost_at, ViewId,
};

verus! {

/// Whether a key or a button went down or came up.
#[derive(Clone, Copy, Debug, PartialEq, Eq, Structural)]
pub enum KeyState {
    Released,
    Pressed,
}

/// A button of a pointer device.
#[derive(Clone, Copy, Debug, PartialEq, Eq, Structural)]
pub enum MouseButton {
    Left,
    Middle,
    Right,
    Other(u8),
}

/// Where a scroll event comes from, as the device reports it.
#[derive(Clone, Copy, Debug, PartialEq, Eq, Structural)]
pub enum AxisSource {
    Finger,
    Continuous,
    Wheel,
    WheelTilt,
}

/// One scroll event as the device reports it: for each axis the amount in
/// fixed-point units, the count of steps, both or neither.
#[derive(Clone, Copy, Debug, PartialEq, Eq)]
pub struct AxisEvent {
    pub source: AxisSource,
    pub horizontal: Option<i32>,
    pub vertical: Option<i32>,
    pub horizontal_discrete: Option<i32>,
    pub vertical_discrete: Option<i32>,
    pub time: u32,
}

/// One input event, as plain values.
#[derive(Clone, Copy, Debug, PartialEq, Eq)]
pub enum InputEvent {
    /// A key went down or came up; the key symbol and the modifiers are
    /// those of the keyboard's state after the event.
    Keyboard { modifiers: ModifiersState, keysym: Keysym, state: KeyState },
    /// The pointer moved by a distance, in fixed-point units.
    PointerMotion { dx: i32, dy: i32, time: u32 },
    /// The pointer was put at a place on the display that the cursor is
    /// on, in fixed-point units from that display's origin.
    PointerMotionAbsolute { x: i32, y: i32, time: u32 },
    PointerButton { button: MouseButton, state: KeyState, time: u32 },
    PointerAxis(AxisEvent),
    /// Any other event; it is not handled.
    Other,
}

/// The command that the built-in binding for a terminal runs.
pub open spec fn default_terminal() -> Seq<char> {
    "weston-terminal"@
}

/// What the built-in bindings make of a key, in this order: Ctrl+Alt+
/// Backspace and Logo+q quit; the twelve keys that switch the virtual
/// terminal do so, by number from 1; Logo+Return runs a terminal; Logo with
/// a digit from 1 to 9 goes to the display of that number, counted from 0.
/// Any other key is forwarded. Further modifiers do not stand in the way.
pub open spec fn builtin_action(modifiers: ModifiersState, keysym: Keysym) -> ActionView {
    if (modifiers.ctrl && modifiers.alt && keysym == KEY_BACKSPACE) || (modifiers.logo && keysym
        == KEY_Q_LOWER) {
        ActionView::Quit
    } else if KEY_SWITCH_VT_1 <= keysym <= KEY_SWITCH_VT_12 {
        ActionView::VtSwitch((keysym - KEY_SWITCH_VT_1 + 1) as i32)
    } else if modifiers.logo && keysym == KEY_RETURN {
        ActionView::Run(default_terminal())
    } else if modifiers.logo && KEY_1 <= keysym <= KEY_9 {
        ActionView::Screen((keysym - KEY_1) as usize)
    } else {
        ActionView::Forward
    }
}

/// What a key leads to: what the user's bindings make of it, and where
/// none of them answers, what the built-in bindings make of it. It depends
/// on the bindings, the modifiers and the key symbol, and on nothing else.
pub open spec fn resolved_action(
    bindings: Seq<BindingView>,
    modifiers: ModifiersState,
    keysym: Keysym,
) -> ActionView {
    if bound_action(bindings, modifiers, keysym) != ActionView::Forward {
        bound_action(bindings, modifiers, keysym)
    } else {
        builtin_action(modifiers, keysym)
    }
}

/// What an action asks of the layers around the core. A key that is
/// forwarded is forwarded when it goes down and when it comes up. All else
/// is asked for only when the key goes down.
pub open spec fn action_requests(action: ActionView, state: KeyState) -> Seq<RequestView> {
    match action {
        ActionView::Forward => seq![RequestView::ForwardKey],
        ActionView::Run(command) => if state == KeyState::Pressed {
            seq![RequestView::Spawn(command)]
        } else {
            seq![]
        },
        ActionView::VtSwitch(vt) => if state == KeyState::Pressed {
            seq![RequestView::SwitchVt(vt)]
        } else {
            seq![]
        },
        _ => seq![],
    }
}

/// The code that clients are given for a button.
pub open spec fn button_code(button: MouseButton) -> u32 {
    match button {
        MouseButton::Left => 0x110,
        MouseButton::Right => 0x111,
        MouseButton::Middle => 0x112,
        MouseButton::Other(code) => code as u32,
    }
}

/// The source that clients are told of.
pub open spec fn scroll_source(source: AxisSource) -> ScrollSource {
    match source {
        AxisSource::Continuous => ScrollSource::Continuous,
        AxisSource::Finger => ScrollSource::Finger,
        AxisSource::Wheel => ScrollSource::Wheel,
        AxisSource::WheelTilt => ScrollSource::Wheel,
    }
}

/// How far an axis scrolled: the amount, or three pixels for each step
/// where only steps are counted, or nothing.
pub open spec fn scroll_amount(amount: Option<i32>, discrete: Option<i32>) -> i32 {
    match amount {
        Some(value) => value,
        None => match discrete {
            Some(steps) => saturate(fixed_of(steps * 3)) as i32,
            None => 0,
        },
    }
}

/// What one axis does in a scroll event: it moves, with the steps where
/// they are counted; or it stands still, which a finger's scroll ends with.
pub open spec fn axis_scroll(source: AxisSource, amount: Option<i32>, discrete: Option<i32>)
    -> AxisScroll {
    if scroll_amount(amount, discrete) != 0 {
        AxisScroll::Value { amount: scroll_amount(amount, discrete), discrete }
    } else if source == AxisSource::Finger {
        AxisScroll::Stop
    } else {
        AxisScroll::Idle
    }
}

/// The scroll event that clients are given.
pub open spec fn axis_frame(event: AxisEvent) -> AxisFrame {
    AxisFrame {
        source: scroll_source(event.source),
        horizontal: axis_scroll(event.source, event.horizontal, event.horizontal_discrete),
        vertical: axis_scroll(event.source, event.vertical, event.vertical_discrete),
        time: event.time,
    }
}

/// The dispatcher's state as plain values.
pub struct StateView {
    pub server: ServerView,
    /// Whether the event loop is to go on.
    pub running: bool,
}

impl StateView {
    /// The state with the cursor at `position`.
    pub open spec fn with_cursor_at(self, position: Point) -> StateView {
        StateView {
            server: ServerView {
                cursor: CursorState { position, ..self.server.cursor },
                ..self.server
            },
            ..self
        }
    }

    /// The state after the cursor's motion has been handled where it is.
    pub open spec fn after_motion(self) -> StateView {
        StateView {
            server: ServerView {
                cursor: self.server.cursor.after_motion(self.server.views),
                views: self.server.cursor.views_after_motion(self.server.views),
                ..self.server
            },
            ..self
        }
    }

    /// What the cursor's motion asks for where it is.
    pub open spec fn motion_requests(self, time: u32) -> Seq<RequestView> {
        self.server.cursor.motion_requests(self.server.views, time)
    }

    /// Where a relative motion takes the cursor: by the distance, and then
    /// onto the displays.
    pub open spec fn moved_by(self, dx: i32, dy: i32) -> Point {
        clamped(
            self.server.outputs,
            Point {
                x: saturate(self.server.cursor.position.x + dx) as i32,
                y: saturate(self.server.cursor.position.y + dy) as i32,
            },
        )
    }

    /// Where an absolute motion takes the cursor: to the place on the
    /// display that the cursor is on.
    pub open spec fn moved_to(self, x: i32, y: i32) -> Point {
        let outputs = self.server.outputs;
        let left = if outputs.len() == 0 {
            0
        } else {
            span(outputs, output_at(outputs, self.server.cursor.position.x as int))
        };
        Point { x: saturate(x + fixed_of(left)) as i32, y }
    }

    /// The state after a key event. Only a key that goes down changes
    /// anything: `Quit` ends the event loop, and `Screen` puts the cursor in
    /// the middle of a display, if there is one of that index.
    pub open spec fn after_key(self, modifiers: ModifiersState, keysym: Keysym, state: KeyState)
        -> StateView {
        if state == KeyState::Pressed {
            match resolved_action(self.server.configuration.bindings, modifiers, keysym) {
                ActionView::Quit => StateView { running: false, ..self },
                ActionView::Screen(n) => if n < self.server.outputs.len() {
                    self.with_cursor_at(center(self.server.outputs, n as int))
                } else {
                    self
                },
                _ => self,
            }
        } else {
            self
        }
    }

    /// Whether a button that goes down looks for a window: it does unless
    /// a gesture is going on.
    pub open spec fn click_focuses(self) -> bool {
        self.server.cursor.mode == CursorMode::Passthrough
    }

    /// The state after a button event. A button that goes down while no
    /// gesture is going on gives the keyboard to the window under the
    /// cursor, which comes to the front; with no window there, nothing
    /// changes. A button that comes up ends a gesture.
    pub open spec fn after_button(self, state: KeyState) -> StateView {
        if state == KeyState::Pressed {
            if self.click_focuses() {
                match hit_at(self.server.views, self.server.cursor.position) {
                    Some(hit) => StateView { server: self.server.focused(hit.0), ..self },
                    None => self,
                }
            } else {
                self
            }
        } else {
            StateView {
                server: ServerView { cursor: self.server.cursor.released(), ..self.server },
                ..self
            }
        }
    }

    /// What a button event asks for: what the change of focus asks for, if
    /// there is one, and then the button goes to the client.
    pub open spec fn button_requests(self, button: MouseButton, state: KeyState, time: u32) -> Seq<
        RequestView,
    > {
        let focus = if state == KeyState::Pressed && self.click_focuses() {
            match hit_at(self.server.views, self.server.cursor.position) {
                Some(hit) => self.server.focus_requests(hit.0),
                None => seq![],
            }
        } else {
            seq![]
        };
        focus + seq![
            RequestView::PointerButton {
                button: button_code(button),
                pressed: state == KeyState::Pressed,
                time,
            },
        ]
    }

    /// The state after an event.
    pub open spec fn after_event(self, event: InputEvent) -> StateView {
        match event {
            InputEvent::Keyboard { modifiers, keysym, state } => self.after_key(
                modifiers,
                keysym,
                state,
            ),
            InputEvent::PointerMotion { dx, dy, time } => self.with_cursor_at(
                self.moved_by(dx, dy),
            ).after_motion(),
            InputEvent::PointerMotionAbsolute { x, y, time } => self.with_cursor_at(
                self.moved_to(x, y),
            ).after_motion(),
            InputEvent::PointerButton { button, state, time } => self.after_button(state),
            InputEvent::PointerAxis(_) => self,
            InputEvent::Other => self,
        }
    }

    /// What an event asks for.
    pub open spec fn event_requests(self, event: InputEvent) -> Seq<RequestView> {
        match event {
            InputEvent::Keyboard { modifiers, keysym, state } => action_requests(
                resolved_action(self.server.configuration.bindings, modifiers, keysym),
                state,
            ),
            InputEvent::PointerMotion { dx, dy, time } => self.with_cursor_at(
                self.moved_by(dx, dy),
            ).motion_requests(time),
            InputEvent::PointerMotionAbsolute { x, y, time } => self.with_cursor_at(
                self.moved_to(x, y),
            ).motion_requests(time),
            InputEvent::PointerButton { button, state, time } => self.button_requests(
                button,
                state,
                time,
            ),
            InputEvent::PointerAxis(event) => seq![RequestView::PointerAxis(axis_frame(event))],
            InputEvent::Other => seq![],
        }
    }
}

/// No event changes the configuration. So a key resolves alike whenever it
/// is pressed: before and after any event, the same modifiers and key symbol
/// give the same action.
pub proof fn lemma_resolution_repeats(
    state: StateView,
    event: InputEvent,
    modifiers: ModifiersState,
    keysym: Keysym,
)
    ensures
        state.after_event(event).server.configuration == state.server.configuration,
        resolved_action(
            state.after_event(event).server.configuration.bindings,
            modifiers,
            keysym,
        ) == resolved_action(state.server.configuration.bindings, modifiers, keysym),
{
}

/// A key that comes up changes nothing and asks for nothing but, where the
/// key is forwarded, that it be forwarded.
pub proof fn lemma_release_has_no_effect(
    state: StateView,
    modifiers: ModifiersState,
    keysym: Keysym,
)
    ensures
        state.after_key(modifiers, keysym, KeyState::Released) == state,
        action_requests(
            resolved_action(state.server.configuration.bindings, modifiers, keysym),
            KeyState::Released,
        ) == if resolved_action(state.server.configuration.bindings, modifiers, keysym)
            == ActionView::Forward {
            seq![RequestView::ForwardKey]
        } else {
            seq![]
        },
{
}

/// Every event leaves the state consistent: a gesture holds a window that
/// exists, and so do the pointer and the keyboard.
pub proof fn lemma_events_keep_consistency(state: StateView, event: InputEvent)
    requires
        state.server.wf(),
    ensures
        state.after_event(event).server.wf(),
{
    let server = state.server;
    lemma_replaced_keeps_ids(server.views);
    match event {
        InputEvent::PointerButton { button, state: pressed, time } => {
            match hit_at(server.views, server.cursor.position) {
                Some(hit) => {
                    lemma_raised_permutes(server.views, hit.0);
                },
                None => {},
            }
        },
        _ => {},
    }
}

/// A press on a window, while no gesture is going on, gives that window the
/// keyboard and brings it to the front: the order is the window under the
/// cursor and then the others as they stood, so a permutation of the order
/// before, and unchanged if that window stood in front already.
pub proof fn lemma_click_raises(state: StateView)
    requires
        state.server.wf(),
        state.click_focuses(),
        hit_at(state.server.views, state.server.cursor.position) is Some,
    ensures
        ({
            let hit = hit_at(state.server.views, state.server.cursor.position)->0;
            let clicked = hit.0;
            let after = state.after_button(KeyState::Pressed).server;
            &&& after.views == raised(state.server.views, clicked)
            &&& after.views.len() == state.server.views.len()
            &&& after.views.to_multiset() == state.server.views.to_multiset()
            &&& after.views[0].id == clicked
            &&& after.keyboard_focus == Some(clicked)
            &&& state.server.views[0].id == clicked ==> after.views == state.server.views
            &&& forall|a: ViewId, b: ViewId|
                a != clicked && b != clicked && stands_before(state.server.views, a, b)
                    ==> stands_before(after.views, a, b)
        }),
{
    let views = state.server.views;
    let point = state.server.cursor.position;
    let hit = hit_at(views, point)->0;
    let clicked = hit.0;
    let i = topmost_at(views, point)->0;
    assert(is_topmost_at(views, point, i));
    lemma_index_of(views, i);
    lemma_focus_raises(state.server, clicked);
    if views[0].id == clicked {
        lemma_index_of(views, 0);
        assert(raised(views, clicked) =~= views);
    }
    assert forall|a: ViewId, b: ViewId|
        a != clicked && b != clicked && stands_before(views, a, b) implies stands_before(
        raised(views, clicked),
        a,
        b,
    ) by {
        lemma_raised_keeps_order(views, clicked, a, b);
    }
}

/// A press on no window changes nothing; the button goes to the client
/// all the same.
pub proof fn lemma_click_on_nothing(state: StateView, button: MouseButton, time: u32)
    requires
        hit_at(state.server.views, state.server.cursor.position) is None,
    ensures
        state.after_button(KeyState::Pressed) == state,
        state.button_requests(button, KeyState::Pressed, time) == seq![
            RequestView::PointerButton { button: button_code(button), pressed: true, time },
        ],
{
    assert(state.button_requests(button, KeyState::Pressed, time) =~= seq![
        RequestView::PointerButton { button: button_code(button), pressed: true, time },
    ]);
}

/// The compositor as the input dispatcher sees it: the state, and whether
/// to go on.
pub struct AnvilState {
    /// The state of the windows; the protocol layer tells it of windows
    /// and displays.
    pub server: Server,
    /// Whether the event loop is to go on.
    pub running: bool,
}

impl View for AnvilState {
    type V = StateView;

    open spec fn view(&self) -> StateView {
        StateView { server: self.server@, running: self.running }
    }
}

impl AnvilState {
    /// The invariant of the state.
    pub open spec fn wf(&self) -> bool {
        self@.server.wf()
    }

    /// The compositor at its start: running.
    pub fn new(server: Server) -> (state: AnvilState)
        requires
            server.wf(),
        ensures
            state.wf(),
            state@ == (StateView { server: server@, running: true }),
    {
        AnvilState { server, running: true }
    }

    /// Resolves a key: first against the user's bindings, then against the
    /// built-in ones.
    pub fn process_keyboard_shortcut(&self, modifiers: ModifiersState, keysym: Keysym) -> (action:
        KeyAction)
        ensures
            action@ == resolved_action(self@.server.configuration.bindings, modifiers, keysym),
    {
        let action = self.server.configuration().key_bindings.process_keyboard_shortcut(
            modifiers,
            keysym,
        );
        match action {
            KeyAction::Forward => {},
            _ => {
                return action;
            },
        }
        if (modifiers.ctrl && modifiers.alt && keysym == KEY_BACKSPACE) || (modifiers.logo
            && keysym == KEY_Q_LOWER) {
            KeyAction::Quit
        } else if KEY_SWITCH_VT_1 <= keysym && keysym <= KEY_SWITCH_VT_12 {
            KeyAction::VtSwitch((keysym - KEY_SWITCH_VT_1 + 1) as i32)
        } else if modifiers.logo && keysym == KEY_RETURN {
            KeyAction::Run(String::from_str("weston-terminal"))
        } else if modifiers.logo && keysym >= KEY_1 && keysym <= KEY_9 {
            KeyAction::Screen((keysym - KEY_1) as usize)
        } else {
            KeyAction::Forward
        }
    }

    /// Handles a key event: resolves the key and, if it went down, does
    /// what the action says. The action is resolved for a key that comes up
    /// as well, so that what was forwarded going down is forwarded coming
    /// up; nothing else is done for it.
    pub fn on_keyboard_key(&mut self, modifiers: ModifiersState, keysym: Keysym, state: KeyState)
        -> (outcome: (KeyAction, Vec<Request>))
        requires
            old(self).wf(),
        ensures
            final(self).wf(),
            outcome.0@ == resolved_action(
                old(self)@.server.configuration.bindings,
                modifiers,
                keysym,
            ),
            final(self)@ == old(self)@.after_key(modifiers, keysym, state),
            views_of(outcome.1@) == action_requests(outcome.0@, state),
    {
        let action = self.process_keyboard_shortcut(modifiers, keysym);
        let mut requests: Vec<Request> = Vec::new();
        let pressed = match state {
            KeyState::Pressed => true,
            KeyState::Released => false,
        };
        match &action {
            KeyAction::Forward => {
                requests.push(Request::ForwardKey);
            },
            KeyAction::Quit => {
                if pressed {
                    self.running = false;
                }
            },
            KeyAction::VtSwitch(vt) => {
                if pressed {
                    requests.push(Request::SwitchVt(*vt));
                }
            },
            KeyAction::Run(command) => {
                if pressed {
                    requests.push(Request::Spawn(command.clone()));
                }
            },
            KeyAction::Screen(n) => {
                if pressed {
                    match self.server.outputs().screen_center(*n) {
                        Some(middle) => {
                            self.server.warp(middle);
                        },
                        None => {},
                    }
                }
            },
            KeyAction::Nothing => {},
        }
        assert(views_of(requests@) =~= action_requests(action@, state));
        (action, requests)
    }

    /// The size of the display that the cursor is on, which an absolute
    /// position is to be scaled to; `None` without a display.
    pub fn current_output_size(&self) -> (size: Option<(u32, u32)>)
        requires
            self.wf(),
        ensures
            size == if self@.server.outputs.len() == 0 {
                None
            } else {
                Some(
                    (
                        self@.server.outputs[output_at(
                            self@.server.outputs,
                            self@.server.cursor.position.x as int,
                        )].width,
                        self@.server.outputs[output_at(
                            self@.server.outputs,
                            self@.server.cursor.position.x as int,
                        )].height,
                    ),
                )
            },
    {
        self.server.outputs().current_output_size(self.server.cursor().position.x)
    }

    /// Handles a relative motion of the pointer: the cursor goes by the
    /// distance and is brought onto the displays, and then the motion is
    /// handled where the cursor is.
    pub fn on_pointer_move(&mut self, dx: i32, dy: i32, time: u32) -> (requests: Vec<Request>)
        requires
            old(self).wf(),
        ensures
            final(self).wf(),
            final(self)@ == old(self)@.with_cursor_at(old(self)@.moved_by(dx, dy)).after_motion(),
            views_of(requests@) == old(self)@.with_cursor_at(
                old(self)@.moved_by(dx, dy),
            ).motion_requests(time),
    {
        let from = self.server.cursor().position;
        let to = Point {
            x: saturate_i64(from.x as i64 + dx as i64),
            y: saturate_i64(from.y as i64 + dy as i64),
        };
        let onto = self.server.outputs().clamp_coords(to);
        self.server.warp(onto);
        self.server.on_pointer_motion(time)
    }

    /// Handles an absolute motion of the pointer: the cursor goes to the
    /// place on the display that it is on, and then the motion is handled
    /// there. The place is on the display already and is not brought onto
    /// it.
    pub fn on_pointer_move_absolute(&mut self, x: i32, y: i32, time: u32) -> (requests: Vec<
        Request,
    >)
        requires
            old(self).wf(),
        ensures
            final(self).wf(),
            final(self)@ == old(self)@.with_cursor_at(old(self)@.moved_to(x, y)).after_motion(),
            views_of(requests@) == old(self)@.with_cursor_at(
                old(self)@.moved_to(x, y),
            ).motion_requests(time),
    {
        let from = self.server.cursor().position;
        let left = self.server.outputs().current_output_offset(from.x);
        let to = Point { x: saturate_i64(x as i64 + left as i64 * 256), y };
        self.server.warp(to);
        self.server.on_pointer_motion(time)
    }

    /// Handles a button event.
    pub fn on_pointer_button(
        &mut self,
        button: MouseButton,
        state: KeyState,
        time: u32,
    ) -> (requests: Vec<Request>)
        requires
            old(self).wf(),
        ensures
            final(self).wf(),
            final(self)@ == old(self)@.after_button(state),
            views_of(requests@) == old(self)@.button_requests(button, state, time),
    {
        let code: u32 = match button {
            MouseButton::Left => 0x110,
            MouseButton::Right => 0x111,
            MouseButton::Middle => 0x112,
            MouseButton::Other(other) => other as u32,
        };
        let mut requests: Vec<Request> = Vec::new();
        let pressed = match state {
            KeyState::Pressed => {
                if !self.server.cursor().is_grabbed() {
                    let position = self.server.cursor().position;
                    match self.server.views().hit_test(position) {
                        Some(hit) => {
                            requests = self.server.focus(hit.0);
                        },
                        None => {},
                    }
                }
                true
            },
            KeyState::Released => {
                self.server.on_pointer_button_release();
                false
            },
        };
        requests.push(Request::PointerButton { button: code, pressed, time });
        assert(views_of(requests@) =~= old(self)@.button_requests(button, state, time));
        requests
    }

    /// Handles a scroll event: it goes to the client as it is, each axis by
    /// itself.
    pub fn on_pointer_axis(&self, event: AxisEvent) -> (requests: Vec<Request>)
        ensures
            views_of(requests@) == seq![RequestView::PointerAxis(axis_frame(event))],
    {
        let source = match event.source {
            AxisSource::Continuous => ScrollSource::Continuous,
            AxisSource::Finger => ScrollSource::Finger,
            AxisSource::Wheel => ScrollSource::Wheel,
            AxisSource::WheelTilt => ScrollSource::Wheel,
        };
        let frame = AxisFrame {
            source,
            horizontal: scroll_of(event.source, event.horizontal, event.horizontal_discrete),
            vertical: scroll_of(event.source, event.vertical, event.vertical_discrete),
            time: event.time,
        };
        let mut requests: Vec<Request> = Vec::new();
        requests.push(Request::PointerAxis(frame));
        assert(views_of(requests@) =~= seq![RequestView::PointerAxis(axis_frame(event))]);
        requests
    }

    /// Handles an input event, whatever its kind, and says what to carry
    /// out for it.
    pub fn process_input_event(&mut self, event: InputEvent) -> (requests: Vec<Request>)
        requires
            old(self).wf(),
        ensures
            final(self).wf(),
            final(self)@ == old(self)@.after_event(event),
            views_of(requests@) == old(self)@.event_requests(event),
    {
        match event {
            InputEvent::Keyboard { modifiers, keysym, state } => {
                let outcome = self.on_keyboard_key(modifiers, keysym, state);
                outcome.1
            },
            InputEvent::PointerMotion { dx, dy, time } => self.on_pointer_move(dx, dy, time),
            InputEvent::PointerMotionAbsolute { x, y, time } => self.on_pointer_move_absolute(
                x,
                y,
                time,
            ),
            InputEvent::PointerButton { button, state, time } => self.on_pointer_button(
                button,
                state,
                time,
            ),
            InputEvent::PointerAxis(event) => self.on_pointer_axis(event),
            InputEvent::Other => {
                let requests: Vec<Request> = Vec::new();
                assert(views_of(requests@) =~= seq![]);
                requests
            },
        }
    }
}

/// What one axis does in a scroll event.
fn scroll_of(source: AxisSource, amount: Option<i32>, discrete: Option<i32>) -> (scroll:
    AxisScroll)
    ensures
        scroll == axis_scroll(source, amount, discrete),
{
    let by: i32 = match amount {
        Some(value) => value,
        None => match discrete {
            Some(steps) => saturate_i64(steps as i64 * 768),
            None => 0,
        },
    };
    if by != 0 {
        AxisScroll::Value { amount: by, discrete }
    } else {
        match source {
            AxisSource::Finger => AxisScroll::Stop,
            _ => AxisScroll::Idle,
        }
    }
}

} // verus!
