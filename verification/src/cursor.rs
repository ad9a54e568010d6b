//! The cursor and the gesture it may hold.
//!
//! The cursor is in one of three modes. In `Passthrough` pointer events go
//! to the window under the cursor. In `Move` and `Resize` the cursor holds a
//! window, and its motion moves or resizes that window until the button is
//! let go.

use vstd::prelude::*;
use vstd::view::View as _;

use crate::geometry::{fixed_of, floor_pixel, pixel_of, saturate, saturate_i64, Point};
use crate::request::{views_of, Request, RequestView};
use crate::view::{
    distinct_ids, has_id, hit_at, index_of, replaced, View, ViewId, ViewRegistry,
};

verus! {

/// The edges of a window that a resize drags.
#[derive(Clone, Copy, Debug, PartialEq, Eq, Structural)]
pub struct Edges {
    pub top: bool,
    pub bottom: bool,
    pub left: bool,
    pub right: bool,
}

/// What the cursor does with pointer events.
#[derive(Clone, Copy, Debug, PartialEq, Eq, Structural)]
pub enum CursorMode {
    Passthrough,
    Move,
    Resize(Edges),
}

/// The cursor: where it is, what it is over, and the gesture it holds.
#[derive(Clone, Copy, Debug, PartialEq, Eq)]
pub struct CursorState {
    pub mode: CursorMode,
    /// Where the cursor is, in fixed-point units.
    pub position: Point,
    /// The window that the pointer was last told to be in.
    pub pointer_focus: Option<ViewId>,
    /// The window that the gesture holds.
    pub grabbed_view: Option<ViewId>,
    /// From the held window's origin (in `Move`) or the origin of its
    /// geometry box (in `Resize`) to the cursor, when the gesture began.
    pub grab_anchor: Point,
    /// That origin, in pixels, when the gesture began.
    pub grab_origin: (i32, i32),
    /// The size of the held window's geometry box when the gesture began.
    pub grab_size: (i32, i32),
}

/// One axis of a resize: where the box begins and how long it is, once the
/// dragged border has come to `border`. The box began at `origin` and was
/// `size` long when the gesture began. Dragging the near edge moves the
/// beginning and keeps the end where it was; dragging the far edge keeps
/// the beginning. The box never gets shorter than 1.
pub open spec fn resized_axis(near: bool, far: bool, origin: int, size: int, border: int) -> (
    int,
    int,
) {
    let delta = border - origin;
    if near {
        let length = if size - delta < 1 {
            1
        } else {
            size - delta
        };
        (origin + size - length, length)
    } else if far {
        (
            origin,
            if size + delta < 1 {
                1
            } else {
                size + delta
            },
        )
    } else {
        (origin, size)
    }
}

/// Dragging the near edge leaves the far edge where it was when the gesture
/// began, however far the border goes, and the length at 1 or more.
pub proof fn lemma_near_edge_keeps_far_edge(far: bool, origin: int, size: int, border: int)
    ensures
        resized_axis(true, far, origin, size, border).0 + resized_axis(
            true,
            far,
            origin,
            size,
            border,
        ).1 == origin + size,
        resized_axis(true, far, origin, size, border).1 >= 1,
        size - (border - origin) >= 1 ==> resized_axis(true, far, origin, size, border).0 == border,
{
}

/// Whether a number can be held without loss.
pub open spec fn fits_i32(v: int) -> bool {
    i32::MIN <= v <= i32::MAX
}

/// A resize by the left edge leaves the right edge of the window's geometry
/// box where it was when the gesture began, wherever the cursor goes, and
/// the width at 1 or more. This holds as long as the numbers involved can
/// be held: the left edge of the box at the start, the new width, and the
/// window's new place.
pub proof fn lemma_left_resize_keeps_right_edge(
    cursor: CursorState,
    view: View,
    edges: Edges,
    position: Point,
)
    requires
        edges.left,
        fits_i32(view.x + view.geometry.x),
        fits_i32(
            CursorState { position, ..cursor.resizing(view, edges) }.dragged_box(edges).0.1,
        ),
        fits_i32(
            CursorState { position, ..cursor.resizing(view, edges) }.dragged_box(edges).0.0
                - view.geometry.x,
        ),
    ensures
        ({
            let dragging = CursorState { position, ..cursor.resizing(view, edges) };
            let after = dragging.resized(view, edges);
            let width = dragging.resized_size(edges).0;
            &&& after.x + after.geometry.x + width == view.x + view.geometry.x
                + view.geometry.width
            &&& width >= 1
        }),
{
    let dragging = CursorState { position, ..cursor.resizing(view, edges) };
    lemma_near_edge_keeps_far_edge(
        edges.right,
        dragging.grab_origin.0 as int,
        dragging.grab_size.0 as int,
        dragging.border().0,
    );
}

/// In the same way a resize by the top edge leaves the bottom edge where
/// it was.
pub proof fn lemma_top_resize_keeps_bottom_edge(
    cursor: CursorState,
    view: View,
    edges: Edges,
    position: Point,
)
    requires
        edges.top,
        fits_i32(view.y + view.geometry.y),
        fits_i32(
            CursorState { position, ..cursor.resizing(view, edges) }.dragged_box(edges).1.1,
        ),
        fits_i32(
            CursorState { position, ..cursor.resizing(view, edges) }.dragged_box(edges).1.0
                - view.geometry.y,
        ),
    ensures
        ({
            let dragging = CursorState { position, ..cursor.resizing(view, edges) };
            let after = dragging.resized(view, edges);
            let height = dragging.resized_size(edges).1;
            &&& after.y + after.geometry.y + height == view.y + view.geometry.y
                + view.geometry.height
            &&& height >= 1
        }),
{
    let dragging = CursorState { position, ..cursor.resizing(view, edges) };
    lemma_near_edge_keeps_far_edge(
        edges.bottom,
        dragging.grab_origin.1 as int,
        dragging.grab_size.1 as int,
        dragging.border().1,
    );
}

/// While a window is resized by its left edge, every motion of the cursor
/// leaves the right edge of its geometry box where the gesture found it,
/// asks for a width of 1 or more, and leaves the gesture going. A cursor
/// dragged past the right edge gives the width 1, with the left edge one
/// pixel before the right. Where neither the top nor the bottom edge is
/// dragged, the height asked for is the one at the start and the box stays
/// at its height on the screen. All this holds as long as the numbers can be
/// held: the new width and the window's new place.
pub proof fn lemma_left_resize_motion(
    cursor: CursorState,
    views: Seq<View>,
    edges: Edges,
    time: u32,
)
    requires
        distinct_ids(views),
        cursor.grab_is_live(views),
        cursor.mode == CursorMode::Resize(edges),
        edges.left,
        fits_i32(cursor.dragged_box(edges).0.1),
        fits_i32(
            cursor.dragged_box(edges).0.0 - views[index_of(
                views,
                cursor.grabbed_view->0,
            )].geometry.x,
        ),
    ensures
        ({
            let id = cursor.grabbed_view->0;
            let i = index_of(views, id);
            let held = cursor.views_after_motion(views)[i];
            let size = cursor.resized_size(edges);
            let right = cursor.grab_origin.0 + cursor.grab_size.0;
            &&& cursor.after_motion(views).mode == CursorMode::Resize(edges)
            &&& cursor.after_motion(views).grabbed_view == Some(id)
            &&& cursor.motion_requests(views, time) == seq![
                RequestView::Resize { view: id, width: size.0, height: size.1 },
            ]
            &&& cursor.views_after_motion(views).len() == views.len()
            &&& held.id == id
            &&& held.geometry == views[i].geometry
            &&& held.x + held.geometry.x + size.0 == right
            &&& size.0 >= 1
            &&& cursor.grab_size.0 - (cursor.border().0 - cursor.grab_origin.0) < 1 ==> size.0 == 1
                && held.x + held.geometry.x == right - 1
            &&& !edges.top && !edges.bottom ==> size.1 == cursor.grab_size.1
            &&& !edges.top && !edges.bottom && fits_i32(
                cursor.grab_origin.1 - views[i].geometry.y,
            ) ==> held.y + held.geometry.y == cursor.grab_origin.1
        }),
{
    let id = cursor.grabbed_view->0;
    let i = index_of(views, id);
    lemma_near_edge_keeps_far_edge(
        edges.right,
        cursor.grab_origin.0 as int,
        cursor.grab_size.0 as int,
        cursor.border().0,
    );
    assert(cursor.repaired(views).mode == cursor.mode);
    assert(cursor.repaired(views).dragged_box(edges) == cursor.dragged_box(edges));
    assert(cursor.motion_requests(views, time) =~= seq![
        RequestView::Resize {
            view: id,
            width: cursor.resized_size(edges).0,
            height: cursor.resized_size(edges).1,
        },
    ]);
}

/// A move keeps the cursor where it was on the window: as long as the
/// anchor could be held, the window's origin is the pixel that lies the
/// anchor before the cursor.
pub proof fn lemma_move_follows_cursor(cursor: CursorState, view: View, position: Point)
    requires
        fits_i32(cursor.position.x - fixed_of(view.x as int)),
        fits_i32(cursor.position.y - fixed_of(view.y as int)),
    ensures
        ({
            let dragging = CursorState { position, ..cursor.moving(view) };
            let after = dragging.moved(view);
            &&& after.x == view.x + pixel_of(position.x - cursor.position.x)
            &&& after.y == view.y + pixel_of(position.y - cursor.position.y)
        }),
{
    let dragging = CursorState { position, ..cursor.moving(view) };
    let dx = position.x - cursor.position.x;
    let dy = position.y - cursor.position.y;
    assert((dx + view.x * 256) / 256 == dx / 256 + view.x) by (nonlinear_arith);
    assert((dy + view.y * 256) / 256 == dy / 256 + view.y) by (nonlinear_arith);
}

impl CursorState {
    /// The cursor at the start: at the origin, over nothing, holding
    /// nothing.
    pub open spec fn initial() -> CursorState {
        CursorState {
            mode: CursorMode::Passthrough,
            position: Point { x: 0, y: 0 },
            pointer_focus: None,
            grabbed_view: None,
            grab_anchor: Point { x: 0, y: 0 },
            grab_origin: (0, 0),
            grab_size: (0, 0),
        }
    }

    /// Whether the cursor holds a window that exists.
    pub open spec fn grab_is_live(self, views: Seq<View>) -> bool {
        &&& self.mode != CursorMode::Passthrough
        &&& self.grabbed_view matches Some(id)
        &&& has_id(views, id)
    }

    /// Whether the cursor refers to nothing that is gone: a gesture holds
    /// a window that exists, no gesture holds none, and the pointer focus
    /// exists.
    pub open spec fn consistent(self, views: Seq<View>) -> bool {
        &&& self.mode != CursorMode::Passthrough ==> self.grab_is_live(views)
        &&& self.mode == CursorMode::Passthrough ==> self.grabbed_view is None
        &&& self.pointer_focus matches Some(id) ==> has_id(views, id)
    }

    /// The cursor with what refers to a window that is gone taken back: a
    /// gesture on such a window ends, and such a pointer focus is cleared.
    pub open spec fn repaired(self, views: Seq<View>) -> CursorState {
        CursorState {
            mode: if self.grab_is_live(views) {
                self.mode
            } else {
                CursorMode::Passthrough
            },
            grabbed_view: if self.grab_is_live(views) {
                self.grabbed_view
            } else {
                None
            },
            pointer_focus: if self.pointer_focus matches Some(id) && has_id(views, id) {
                self.pointer_focus
            } else {
                None
            },
            ..self
        }
    }

    /// Whether a gesture on `view` may begin: the pointer is in that
    /// window, and that window is the one under the cursor.
    pub open spec fn may_grab(self, views: Seq<View>, view: ViewId) -> bool {
        &&& self.pointer_focus == Some(view)
        &&& hit_at(views, self.position) matches Some(hit)
        &&& hit.0 == view
    }

    /// The cursor once it has begun to move `view`.
    pub open spec fn moving(self, view: View) -> CursorState {
        CursorState {
            mode: CursorMode::Move,
            grabbed_view: Some(view.id),
            grab_anchor: Point {
                x: saturate(self.position.x - fixed_of(view.x as int)) as i32,
                y: saturate(self.position.y - fixed_of(view.y as int)) as i32,
            },
            grab_origin: (view.x, view.y),
            grab_size: (view.geometry.width, view.geometry.height),
            ..self
        }
    }

    /// The cursor once it has begun to resize `view` by `edges`.
    pub open spec fn resizing(self, view: View, edges: Edges) -> CursorState {
        let left = saturate(view.x + view.geometry.x);
        let top = saturate(view.y + view.geometry.y);
        CursorState {
            mode: CursorMode::Resize(edges),
            grabbed_view: Some(view.id),
            grab_anchor: Point {
                x: saturate(self.position.x - fixed_of(left)) as i32,
                y: saturate(self.position.y - fixed_of(top)) as i32,
            },
            grab_origin: (left as i32, top as i32),
            grab_size: (view.geometry.width, view.geometry.height),
            ..self
        }
    }

    /// The pixel that the anchor's reference has come to with the cursor.
    pub open spec fn border(self) -> (int, int) {
        (
            pixel_of(self.position.x - self.grab_anchor.x),
            pixel_of(self.position.y - self.grab_anchor.y),
        )
    }

    /// The held window after the cursor has moved it: its origin keeps its
    /// distance to the cursor.
    pub open spec fn moved(self, view: View) -> View {
        View { x: self.border().0 as i32, y: self.border().1 as i32, ..view }
    }

    /// The geometry box of the held window, on the screen, after the cursor
    /// has dragged `edges`. With two opposite edges the left and the top one
    /// are dragged.
    pub open spec fn dragged_box(self, edges: Edges) -> ((int, int), (int, int)) {
        (
            resized_axis(
                edges.left,
                edges.right,
                self.grab_origin.0 as int,
                self.grab_size.0 as int,
                self.border().0,
            ),
            resized_axis(
                edges.top,
                edges.bottom,
                self.grab_origin.1 as int,
                self.grab_size.1 as int,
                self.border().1,
            ),
        )
    }

    /// The held window after the cursor has dragged `edges`: it lies where
    /// its geometry box falls onto the dragged box.
    pub open spec fn resized(self, view: View, edges: Edges) -> View {
        View {
            x: saturate(self.dragged_box(edges).0.0 - view.geometry.x) as i32,
            y: saturate(self.dragged_box(edges).1.0 - view.geometry.y) as i32,
            ..view
        }
    }

    /// The size that the held window is asked to take.
    pub open spec fn resized_size(self, edges: Edges) -> (i32, i32) {
        (
            saturate(self.dragged_box(edges).0.1) as i32,
            saturate(self.dragged_box(edges).1.1) as i32,
        )
    }

    /// The cursor after a motion has been handled.
    pub open spec fn after_motion(self, views: Seq<View>) -> CursorState {
        let cursor = self.repaired(views);
        if cursor.mode == CursorMode::Passthrough {
            CursorState {
                pointer_focus: match hit_at(views, cursor.position) {
                    Some(hit) => Some(hit.0),
                    None => None,
                },
                ..cursor
            }
        } else {
            cursor
        }
    }

    /// The windows after a motion has been handled.
    pub open spec fn views_after_motion(self, views: Seq<View>) -> Seq<View> {
        let cursor = self.repaired(views);
        match cursor.mode {
            CursorMode::Passthrough => views,
            CursorMode::Move => replaced(
                views,
                cursor.grabbed_view->0,
                cursor.moved(views[index_of(views, cursor.grabbed_view->0)]),
            ),
            CursorMode::Resize(edges) => replaced(
                views,
                cursor.grabbed_view->0,
                cursor.resized(views[index_of(views, cursor.grabbed_view->0)], edges),
            ),
        }
    }

    /// What a motion asks for. While a window is moved: nothing. While one
    /// is resized: that it take its new size. Else the window under the
    /// cursor hears of the pointer: that it enters, or, if it is in that
    /// window already, that it moves; and with no window under the cursor,
    /// the window that the pointer was in hears that it left.
    pub open spec fn motion_requests(self, views: Seq<View>, time: u32) -> Seq<RequestView> {
        let cursor = self.repaired(views);
        match cursor.mode {
            CursorMode::Move => seq![],
            CursorMode::Resize(edges) => seq![
                RequestView::Resize {
                    view: cursor.grabbed_view->0,
                    width: cursor.resized_size(edges).0,
                    height: cursor.resized_size(edges).1,
                },
            ],
            CursorMode::Passthrough => match hit_at(views, cursor.position) {
                Some(hit) => if cursor.pointer_focus == Some(hit.0) {
                    seq![RequestView::PointerMotion { view: hit.0, x: hit.1, y: hit.2, time }]
                } else {
                    seq![RequestView::PointerEnter { view: hit.0, x: hit.1, y: hit.2 }]
                },
                None => if cursor.pointer_focus is Some {
                    seq![RequestView::PointerLeave]
                } else {
                    seq![]
                },
            },
        }
    }

    /// The cursor after the button has been let go: it holds nothing.
    pub open spec fn released(self) -> CursorState {
        CursorState { mode: CursorMode::Passthrough, grabbed_view: None, ..self }
    }

    /// The cursor at the origin, over nothing, holding nothing.
    pub fn new() -> (cursor: CursorState)
        ensures
            cursor == CursorState::initial(),
    {
        CursorState {
            mode: CursorMode::Passthrough,
            position: Point { x: 0, y: 0 },
            pointer_focus: None,
            grabbed_view: None,
            grab_anchor: Point { x: 0, y: 0 },
            grab_origin: (0, 0),
            grab_size: (0, 0),
        }
    }

    /// Whether a gesture is going on.
    pub fn is_grabbed(&self) -> (grabbed: bool)
        ensures
            grabbed == (self.mode != CursorMode::Passthrough),
    {
        match self.mode {
            CursorMode::Passthrough => false,
            _ => true,
        }
    }

    /// Takes back what refers to a window that is gone. A gesture on such a
    /// window ends here, before anything else is made of an event.
    pub fn repair(&mut self, views: &ViewRegistry)
        requires
            views.wf(),
        ensures
            *final(self) == old(self).repaired(views@),
            final(self).consistent(views@),
    {
        let live = match self.grabbed_view {
            Some(id) => self.is_grabbed() && views.contains(id),
            None => false,
        };
        if !live {
            self.mode = CursorMode::Passthrough;
            self.grabbed_view = None;
        }
        let focus_live = match self.pointer_focus {
            Some(id) => views.contains(id),
            None => false,
        };
        if !focus_live {
            self.pointer_focus = None;
        }
    }

    /// Begins to move `view` with the cursor. Does so only if the pointer
    /// is in that window and that window is the one under the cursor; any
    /// other request comes from a window that has lost the pointer, and
    /// begins nothing.
    pub fn begin_move(&mut self, views: &ViewRegistry, view: ViewId) -> (begun: bool)
        requires
            views.wf(),
        ensures
            begun == old(self).repaired(views@).may_grab(views@, view),
            *final(self) == if begun {
                old(self).repaired(views@).moving(views@[index_of(views@, view)])
            } else {
                old(self).repaired(views@)
            },
            final(self).consistent(views@),
    {
        self.repair(views);
        match self.grab_target(views, view) {
            Some(held) => {
                self.mode = CursorMode::Move;
                self.grabbed_view = Some(view);
                self.grab_anchor = Point {
                    x: saturate_i64(self.position.x as i64 - held.x as i64 * 256),
                    y: saturate_i64(self.position.y as i64 - held.y as i64 * 256),
                };
                self.grab_origin = (held.x, held.y);
                self.grab_size = (held.geometry.width, held.geometry.height);
                true
            },
            None => false,
        }
    }

    /// Begins to resize `view` by dragging `edges`. Does so only if the
    /// pointer is in that window and that window is the one under the
    /// cursor.
    pub fn begin_resize(&mut self, views: &ViewRegistry, view: ViewId, edges: Edges) -> (begun:
        bool)
        requires
            views.wf(),
        ensures
            begun == old(self).repaired(views@).may_grab(views@, view),
            *final(self) == if begun {
                old(self).repaired(views@).resizing(views@[index_of(views@, view)], edges)
            } else {
                old(self).repaired(views@)
            },
            final(self).consistent(views@),
    {
        self.repair(views);
        match self.grab_target(views, view) {
            Some(held) => {
                let left = saturate_i64(held.x as i64 + held.geometry.x as i64);
                let top = saturate_i64(held.y as i64 + held.geometry.y as i64);
                self.mode = CursorMode::Resize(edges);
                self.grabbed_view = Some(view);
                self.grab_anchor = Point {
                    x: saturate_i64(self.position.x as i64 - left as i64 * 256),
                    y: saturate_i64(self.position.y as i64 - top as i64 * 256),
                };
                self.grab_origin = (left, top);
                self.grab_size = (held.geometry.width, held.geometry.height);
                true
            },
            None => false,
        }
    }

    /// The window that a gesture on `view` would hold, if one may begin.
    fn grab_target(&self, views: &ViewRegistry, view: ViewId) -> (held: Option<View>)
        requires
            views.wf(),
        ensures
            held is Some <==> self.may_grab(views@, view),
            held matches Some(v) ==> v == views@[index_of(views@, view)] && v.id == view && has_id(
                views@,
                view,
            ),
    {
        let focused = match self.pointer_focus {
            Some(id) => id == view,
            None => false,
        };
        if !focused {
            return None;
        }
        match views.hit_test(self.position) {
            Some(hit) => {
                if hit.0 == view {
                    views.get(view)
                } else {
                    None
                }
            },
            None => None,
        }
    }

    /// Handles a motion of the cursor, which has been brought to its new
    /// position already: moves or resizes the held window, or tells the
    /// window under the cursor of the pointer.
    pub fn on_pointer_motion(&mut self, views: &mut ViewRegistry, time: u32) -> (requests: Vec<
        Request,
    >)
        requires
            old(views).wf(),
        ensures
            final(views).wf(),
            *final(self) == old(self).after_motion(old(views)@),
            final(views)@ == old(self).views_after_motion(old(views)@),
            views_of(requests@) == old(self).motion_requests(old(views)@, time),
            final(self).consistent(final(views)@),
    {
        self.repair(views);
        let mut requests: Vec<Request> = Vec::new();
        match self.mode {
            CursorMode::Passthrough => {
                match views.hit_test(self.position) {
                    Some(hit) => {
                        let inside = match self.pointer_focus {
                            Some(id) => id == hit.0,
                            None => false,
                        };
                        if inside {
                            requests.push(
                                Request::PointerMotion { view: hit.0, x: hit.1, y: hit.2, time },
                            );
                        } else {
                            requests.push(
                                Request::PointerEnter { view: hit.0, x: hit.1, y: hit.2 },
                            );
                        }
                        self.pointer_focus = Some(hit.0);
                    },
                    None => {
                        if self.pointer_focus.is_some() {
                            requests.push(Request::PointerLeave);
                        }
                        self.pointer_focus = None;
                    },
                }
            },
            CursorMode::Move => {
                let id = self.grabbed_view.unwrap();
                let held = views.get(id).unwrap();
                let x = floor_pixel(self.position.x as i64 - self.grab_anchor.x as i64);
                let y = floor_pixel(self.position.y as i64 - self.grab_anchor.y as i64);
                views.replace(
                    View {
                        id: held.id,
                        x: x as i32,
                        y: y as i32,
                        geometry: held.geometry,
                        mapped: held.mapped,
                    },
                );
            },
            CursorMode::Resize(edges) => {
                let id = self.grabbed_view.unwrap();
                let held = views.get(id).unwrap();
                let border_x = floor_pixel(self.position.x as i64 - self.grab_anchor.x as i64);
                let border_y = floor_pixel(self.position.y as i64 - self.grab_anchor.y as i64);
                let across = drag_axis(
                    edges.left,
                    edges.right,
                    self.grab_origin.0,
                    self.grab_size.0,
                    border_x,
                );
                let down = drag_axis(
                    edges.top,
                    edges.bottom,
                    self.grab_origin.1,
                    self.grab_size.1,
                    border_y,
                );
                views.replace(
                    View {
                        id: held.id,
                        x: saturate_i64(across.0 - held.geometry.x as i64),
                        y: saturate_i64(down.0 - held.geometry.y as i64),
                        geometry: held.geometry,
                        mapped: held.mapped,
                    },
                );
                requests.push(
                    Request::Resize {
                        view: id,
                        width: saturate_i64(across.1),
                        height: saturate_i64(down.1),
                    },
                );
            },
        }
        assert(views_of(requests@) =~= old(self).motion_requests(old(views)@, time));
        proof {
            crate::view::lemma_replaced_keeps_ids(old(views)@);
        }
        requests
    }

    /// Handles the letting go of the button: a gesture ends.
    pub fn on_pointer_button_release(&mut self)
        ensures
            *final(self) == old(self).released(),
    {
        self.mode = CursorMode::Passthrough;
        self.grabbed_view = None;
    }
}

/// One axis of a resize.
fn drag_axis(near: bool, far: bool, origin: i32, size: i32, border: i64) -> (dragged: (i64, i64))
    requires
        -0x1_0000_0000 <= border <= 0x1_0000_0000,
    ensures
        dragged.0 == resized_axis(near, far, origin as int, size as int, border as int).0,
        dragged.1 == resized_axis(near, far, origin as int, size as int, border as int).1,
{
    let delta: i64 = border - origin as i64;
    if near {
        let length: i64 = if size as i64 - delta < 1 {
            1
        } else {
            size as i64 - delta
        };
        (origin as i64 + size as i64 - length, length)
    } else if far {
        let length: i64 = if size as i64 + delta < 1 {
            1
        } else {
            size as i64 + delta
        };
        (origin as i64, length)
    } else {
        (origin as i64, size as i64)
    }
}

} // verus!
