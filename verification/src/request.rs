//! What the core asks of the layers around it. The core decides; the
//! protocol layer, the session and the process launcher carry out.

use vstd::prelude::*;

use crate::view::ViewId;

verus! {

/// Where a scroll event comes from, as clients are told.
#[derive(Clone, Copy, Debug, PartialEq, Eq, Structural)]
pub enum ScrollSource {
    Continuous,
    Finger,
    Wheel,
}

/// What one axis does within a scroll event.
#[derive(Clone, Copy, Debug, PartialEq, Eq, Structural)]
pub enum AxisScroll {
    /// The axis is not part of the event.
    Idle,
    /// The axis moved by `amount`, in fixed-point units, and by `discrete`
    /// steps where the device counts steps.
    Value { amount: i32, discrete: Option<i32> },
    /// The finger left the axis.
    Stop,
}

/// One scroll event, both axes.
#[derive(Clone, Copy, Debug, PartialEq, Eq, Structural)]
pub struct AxisFrame {
    pub source: ScrollSource,
    pub horizontal: AxisScroll,
    pub vertical: AxisScroll,
    pub time: u32,
}

/// One thing to carry out.
#[derive(Debug, PartialEq)]
pub enum Request {
    /// The pointer enters a window at a place on its surface.
    PointerEnter { view: ViewId, x: i64, y: i64 },
    /// The pointer moves over the window that it is in.
    PointerMotion { view: ViewId, x: i64, y: i64, time: u32 },
    /// The pointer is over no window any more.
    PointerLeave,
    /// A button goes to the client under the pointer.
    PointerButton { button: u32, pressed: bool, time: u32 },
    /// A scroll event goes to the client under the pointer.
    PointerAxis(AxisFrame),
    /// A window is to show itself as active, or as inactive.
    SetActivated { view: ViewId, activated: bool },
    /// The keyboard goes to a window, with the keys that are down; or to
    /// none.
    KeyboardFocus(Option<ViewId>),
    /// A window is asked to take a size.
    Resize { view: ViewId, width: i32, height: i32 },
    /// The key goes to the client that has the keyboard.
    ForwardKey,
    /// A command is to be started, and not waited for.
    Spawn(String),
    /// The session is to switch to a virtual terminal.
    SwitchVt(i32),
}

/// A `Request` with its command as a sequence of characters.
pub enum RequestView {
    PointerEnter { view: ViewId, x: i64, y: i64 },
    PointerMotion { view: ViewId, x: i64, y: i64, time: u32 },
    PointerLeave,
    PointerButton { button: u32, pressed: bool, time: u32 },
    PointerAxis(AxisFrame),
    SetActivated { view: ViewId, activated: bool },
    KeyboardFocus(Option<ViewId>),
    Resize { view: ViewId, width: i32, height: i32 },
    ForwardKey,
    Spawn(Seq<char>),
    SwitchVt(i32),
}

impl View for Request {
    type V = RequestView;

    open spec fn view(&self) -> RequestView {
        match self {
            Request::PointerEnter { view, x, y } => RequestView::PointerEnter {
                view: *view,
                x: *x,
                y: *y,
            },
            Request::PointerMotion { view, x, y, time } => RequestView::PointerMotion {
                view: *view,
                x: *x,
                y: *y,
                time: *time,
            },
            Request::PointerLeave => RequestView::PointerLeave,
            Request::PointerButton { button, pressed, time } => RequestView::PointerButton {
                button: *button,
                pressed: *pressed,
                time: *time,
            },
            Request::PointerAxis(frame) => RequestView::PointerAxis(*frame),
            Request::SetActivated { view, activated } => RequestView::SetActivated {
                view: *view,
                activated: *activated,
            },
            Request::KeyboardFocus(view) => RequestView::KeyboardFocus(*view),
            Request::Resize { view, width, height } => RequestView::Resize {
                view: *view,
                width: *width,
                height: *height,
            },
            Request::ForwardKey => RequestView::ForwardKey,
            Request::Spawn(command) => RequestView::Spawn(command@),
            Request::SwitchVt(vt) => RequestView::SwitchVt(*vt),
        }
    }
}

/// What each request of a list says.
pub open spec fn views_of(requests: Seq<Request>) -> Seq<RequestView> {
    Seq::new(requests.len(), |i: int| requests[i]@)
}

} // verus!
