//! The state of the compositor: the windows, the cursor, the displays and
//! the window that has the keyboard, kept consistent with each other.

use vstd::prelude::*;
use vstd::view::View as _;

use crate::config::{Configuration, ConfigurationView};
use crate::cursor::{CursorMode, CursorState, Edges};
use crate::geometry::{Point, Rect};
use crate::output::{fits, Output, OutputLayout};
use crate::request::{views_of, Request, RequestView};
use crate::view::{
    distinct_ids, has_id, index_of, lemma_index_of, lemma_push_keeps_ids,
    lemma_raised_permutes, lemma_replaced_keeps_ids, lemma_without_keeps_order, raised, replaced,
    without, View, ViewId, ViewRegistry,
};

verus! {

/// The state of the compositor as plain values.
pub struct ServerView {
    /// The windows, the topmost first.
    pub views: Seq<View>,
    pub cursor: CursorState,
    /// The displays, from left to right.
    pub outputs: Seq<Output>,
    /// The window that has the keyboard.
    pub keyboard_focus: Option<ViewId>,
    /// The configuration that the compositor was started with.
    pub configuration: ConfigurationView,
}

impl ServerView {
    /// The invariant of the state: window ids are distinct, the displays
    /// fit, the cursor refers to no window that is gone, and the window that
    /// has the keyboard exists and stands in front of all others.
    pub open spec fn wf(self) -> bool {
        &&& distinct_ids(self.views)
        &&& fits(self.outputs)
        &&& self.cursor.consistent(self.views)
        &&& self.keyboard_focus matches Some(id) ==> has_id(self.views, id)
            && self.views.len() > 0 && self.views[0].id == id
    }

    /// Whether giving the keyboard to window `id` changes anything: the
    /// window exists, is shown, and does not have the keyboard yet.
    pub open spec fn can_focus(self, id: ViewId) -> bool {
        &&& has_id(self.views, id)
        &&& self.views[index_of(self.views, id)].mapped
        &&& self.keyboard_focus != Some(id)
    }

    /// The state after the keyboard has gone to window `id`, which comes to
    /// the front. Nothing changes if the window has the keyboard already, if
    /// it is not shown, or if it does not exist.
    pub open spec fn focused(self, id: ViewId) -> ServerView {
        if self.can_focus(id) {
            ServerView { views: raised(self.views, id), keyboard_focus: Some(id), ..self }
        } else {
            self
        }
    }

    /// What giving the keyboard to window `id` asks for: the window that had
    /// it shows itself inactive, the new one active, and the keyboard enters
    /// it.
    pub open spec fn focus_requests(self, id: ViewId) -> Seq<RequestView> {
        if self.can_focus(id) {
            let leave = match self.keyboard_focus {
                Some(previous) => seq![
                    RequestView::SetActivated { view: previous, activated: false },
                ],
                None => seq![],
            };
            leave + seq![
                RequestView::SetActivated { view: id, activated: true },
                RequestView::KeyboardFocus(Some(id)),
            ]
        } else {
            seq![]
        }
    }

    /// The state with window `id` marked as shown.
    pub open spec fn shown(self, id: ViewId) -> ServerView {
        if has_id(self.views, id) {
            let view = View { mapped: true, ..self.views[index_of(self.views, id)] };
            ServerView { views: replaced(self.views, id, view), ..self }
        } else {
            self
        }
    }

    /// The state after window `id` has been shown: it is marked as shown
    /// and gets the keyboard.
    pub open spec fn mapped(self, id: ViewId) -> ServerView {
        self.shown(id).focused(id)
    }

    /// What showing window `id` asks for: what giving it the keyboard asks
    /// for.
    pub open spec fn map_requests(self, id: ViewId) -> Seq<RequestView> {
        self.shown(id).focus_requests(id)
    }

    /// The state after window `id` has gone. What referred to it refers to
    /// nothing any more: a gesture on it has ended, and neither the pointer
    /// nor the keyboard is in it.
    pub open spec fn destroyed(self, id: ViewId) -> ServerView {
        ServerView {
            views: without(self.views, id),
            cursor: self.cursor.repaired(without(self.views, id)),
            keyboard_focus: if self.keyboard_focus == Some(id) {
                None
            } else {
                self.keyboard_focus
            },
            ..self
        }
    }
}

/// Giving the keyboard to a window that is shown brings it to the front,
/// whether it had the keyboard or not: the order is that window and then
/// the others as they stood, a permutation of the order before.
pub proof fn lemma_focus_raises(server: ServerView, id: ViewId)
    requires
        server.wf(),
        has_id(server.views, id),
        server.views[index_of(server.views, id)].mapped,
    ensures
        server.focused(id).views == raised(server.views, id),
        server.focused(id).keyboard_focus == Some(id),
        server.focused(id).views.len() == server.views.len(),
        server.focused(id).views[0] == server.views[index_of(server.views, id)],
        server.focused(id).views.to_multiset() == server.views.to_multiset(),
        server.focused(id).wf(),
{
    lemma_raised_permutes(server.views, id);
    if server.keyboard_focus == Some(id) {
        lemma_index_of(server.views, 0);
        assert(raised(server.views, id) =~= server.views);
    }
}

/// The state of the compositor.
pub struct Server {
    views: ViewRegistry,
    cursor: CursorState,
    outputs: OutputLayout,
    keyboard_focus: Option<ViewId>,
    configuration: Configuration,
}

impl vstd::view::View for Server {
    type V = ServerView;

    closed spec fn view(&self) -> ServerView {
        ServerView {
            views: self.views@,
            cursor: self.cursor,
            outputs: self.outputs@,
            keyboard_focus: self.keyboard_focus,
            configuration: self.configuration@,
        }
    }
}

impl Server {
    /// The invariant of the state.
    pub open spec fn wf(&self) -> bool {
        self@.wf()
    }

    /// The state at the start: no window, no display, the cursor at the
    /// origin and holding nothing, the keyboard with no window, and the
    /// configuration as it was given.
    pub fn new(configuration: Configuration) -> (server: Server)
        ensures
            server.wf(),
            server@ == (ServerView {
                views: Seq::<View>::empty(),
                cursor: CursorState::initial(),
                outputs: Seq::<Output>::empty(),
                keyboard_focus: None,
                configuration: configuration@,
            }),
    {
        Server {
            views: ViewRegistry::new(),
            cursor: CursorState::new(),
            outputs: OutputLayout::new(),
            keyboard_focus: None,
            configuration,
        }
    }

    /// The windows, the topmost first.
    pub fn views(&self) -> (views: &ViewRegistry)
        ensures
            views@ == self@.views,
    {
        &self.views
    }

    pub fn cursor(&self) -> (cursor: CursorState)
        ensures
            cursor == self@.cursor,
    {
        self.cursor
    }

    /// The displays, from left to right.
    pub fn outputs(&self) -> (outputs: &OutputLayout)
        ensures
            outputs@ == self@.outputs,
    {
        &self.outputs
    }

    /// The window that has the keyboard.
    pub fn keyboard_focus(&self) -> (focus: Option<ViewId>)
        ensures
            focus == self@.keyboard_focus,
    {
        self.keyboard_focus
    }

    /// The configuration that the compositor was started with.
    pub fn configuration(&self) -> (configuration: &Configuration)
        ensures
            configuration@ == self@.configuration,
    {
        &self.configuration
    }

    /// Attaches a display to the right of the others. Refuses one with
    /// which the layout would not fit any more.
    pub fn new_output(&mut self, output: Output) -> (added: bool)
        requires
            old(self).wf(),
        ensures
            final(self).wf(),
            added == fits(old(self)@.outputs.push(output)),
            final(self)@ == (ServerView {
                outputs: if added {
                    old(self)@.outputs.push(output)
                } else {
                    old(self)@.outputs
                },
                ..old(self)@
            }),
    {
        self.outputs.add(output)
    }

    /// Takes in the window of a surface that has been announced: it is not
    /// shown yet and stands behind all others. Refuses an id that is in use.
    pub fn new_view(&mut self, id: ViewId) -> (added: bool)
        requires
            old(self).wf(),
        ensures
            final(self).wf(),
            added == !has_id(old(self)@.views, id),
            final(self)@ == (ServerView {
                views: if added {
                    old(self)@.views.push(View::unmapped(id))
                } else {
                    old(self)@.views
                },
                ..old(self)@
            }),
    {
        proof {
            if !has_id(self@.views, id) {
                self.lemma_push_keeps_wf(View::unmapped(id));
            }
        }
        self.views.insert(id)
    }

    proof fn lemma_push_keeps_wf(&self, view: View)
        requires
            self.wf(),
            !has_id(self@.views, view.id),
        ensures
            (ServerView { views: self@.views.push(view), ..self@ }).wf(),
    {
        let after = self@.views.push(view);
        lemma_push_keeps_ids(self@.views, view, view.id);
        match self.cursor.grabbed_view {
            Some(id) => lemma_push_keeps_ids(self@.views, view, id),
            None => {},
        }
        match self.cursor.pointer_focus {
            Some(id) => lemma_push_keeps_ids(self@.views, view, id),
            None => {},
        }
        match self.keyboard_focus {
            Some(id) => lemma_push_keeps_ids(self@.views, view, id),
            None => {},
        }
    }

    /// Takes note of the geometry box that a window has committed.
    pub fn set_geometry(&mut self, id: ViewId, geometry: Rect) -> (found: bool)
        requires
            old(self).wf(),
        ensures
            final(self).wf(),
            found == has_id(old(self)@.views, id),
            final(self)@ == (ServerView {
                views: if found {
                    replaced(
                        old(self)@.views,
                        id,
                        View { geometry, ..old(self)@.views[index_of(old(self)@.views, id)] },
                    )
                } else {
                    old(self)@.views
                },
                ..old(self)@
            }),
    {
        proof {
            lemma_replaced_keeps_ids(self@.views);
        }
        match self.views.get(id) {
            Some(view) => {
                self.views.replace(
                    View { id: view.id, x: view.x, y: view.y, geometry, mapped: view.mapped },
                );
                true
            },
            None => false,
        }
    }

    /// Puts a window's origin at a place.
    pub fn set_position(&mut self, id: ViewId, x: i32, y: i32) -> (found: bool)
        requires
            old(self).wf(),
        ensures
            final(self).wf(),
            found == has_id(old(self)@.views, id),
            final(self)@ == (ServerView {
                views: if found {
                    replaced(
                        old(self)@.views,
                        id,
                        View { x, y, ..old(self)@.views[index_of(old(self)@.views, id)] },
                    )
                } else {
                    old(self)@.views
                },
                ..old(self)@
            }),
    {
        proof {
            lemma_replaced_keeps_ids(self@.views);
        }
        match self.views.get(id) {
            Some(view) => {
                self.views.replace(
                    View { id: view.id, x, y, geometry: view.geometry, mapped: view.mapped },
                );
                true
            },
            None => false,
        }
    }

    /// Gives the keyboard to a window: the window that had it is shown
    /// inactive, the new one comes to the front and is shown active, and
    /// the keyboard enters it. Does nothing if the window has the keyboard
    /// already, if it is not shown, or if there is no such window. Nothing
    /// else makes a window active.
    pub fn focus(&mut self, view: ViewId) -> (requests: Vec<Request>)
        requires
            old(self).wf(),
        ensures
            final(self).wf(),
            final(self)@ == old(self)@.focused(view),
            views_of(requests@) == old(self)@.focus_requests(view),
    {
        let mut requests: Vec<Request> = Vec::new();
        let has_it = match self.keyboard_focus {
            Some(id) => id == view,
            None => false,
        };
        let shown = match self.views.get(view) {
            Some(found) => found.mapped,
            None => false,
        };
        if has_it || !shown {
            assert(views_of(requests@) =~= old(self)@.focus_requests(view));
            return requests;
        }
        match self.keyboard_focus {
            Some(previous) => {
                requests.push(Request::SetActivated { view: previous, activated: false });
            },
            None => {},
        }
        proof {
            lemma_raised_permutes(self@.views, view);
        }
        self.views.raise_to_front(view);
        self.keyboard_focus = Some(view);
        requests.push(Request::SetActivated { view, activated: true });
        requests.push(Request::KeyboardFocus(Some(view)));
        assert(views_of(requests@) =~= old(self)@.focus_requests(view));
        requests
    }

    /// Shows a window, and gives it the keyboard.
    pub fn map_view(&mut self, id: ViewId) -> (requests: Vec<Request>)
        requires
            old(self).wf(),
        ensures
            final(self).wf(),
            final(self)@ == old(self)@.mapped(id),
            views_of(requests@) == old(self)@.map_requests(id),
    {
        proof {
            lemma_replaced_keeps_ids(self@.views);
        }
        match self.views.get(id) {
            Some(view) => {
                self.views.replace(
                    View {
                        id: view.id,
                        x: view.x,
                        y: view.y,
                        geometry: view.geometry,
                        mapped: true,
                    },
                );
                self.focus(id)
            },
            None => {
                let requests: Vec<Request> = Vec::new();
                assert(views_of(requests@) =~= old(self)@.map_requests(id));
                requests
            },
        }
    }

    /// Hides a window. It stays where it is in the order.
    pub fn unmap_view(&mut self, id: ViewId) -> (found: bool)
        requires
            old(self).wf(),
        ensures
            final(self).wf(),
            found == has_id(old(self)@.views, id),
            final(self)@ == (ServerView {
                views: if found {
                    replaced(
                        old(self)@.views,
                        id,
                        View { mapped: false, ..old(self)@.views[index_of(old(self)@.views, id)] },
                    )
                } else {
                    old(self)@.views
                },
                ..old(self)@
            }),
    {
        proof {
            lemma_replaced_keeps_ids(self@.views);
        }
        match self.views.get(id) {
            Some(view) => {
                self.views.replace(
                    View {
                        id: view.id,
                        x: view.x,
                        y: view.y,
                        geometry: view.geometry,
                        mapped: false,
                    },
                );
                true
            },
            None => false,
        }
    }

    /// Takes a window out for good. In the same step all that referred to
    /// it is taken back: a gesture that held it ends, and neither the
    /// pointer nor the keyboard is in it any more.
    pub fn destroy_view(&mut self, id: ViewId) -> (found: bool)
        requires
            old(self).wf(),
        ensures
            final(self).wf(),
            found == has_id(old(self)@.views, id),
            final(self)@ == old(self)@.destroyed(id),
            !has_id(final(self)@.views, id),
            old(self)@.cursor.grabbed_view == Some(id) ==> final(self)@.cursor.mode
                == CursorMode::Passthrough && final(self)@.cursor.grabbed_view is None,
    {
        proof {
            lemma_without_keeps_order(self@.views, id, id, id);
            match self.keyboard_focus {
                Some(other) => lemma_without_keeps_order(self@.views, id, other, other),
                None => {},
            }
        }
        let found = self.views.remove(id).is_some();
        self.cursor.repair(&self.views);
        let had_keyboard = match self.keyboard_focus {
            Some(focus) => focus == id,
            None => false,
        };
        if had_keyboard {
            self.keyboard_focus = None;
        }
        found
    }

    /// Puts the cursor at a position.
    pub fn warp(&mut self, position: Point)
        requires
            old(self).wf(),
        ensures
            final(self).wf(),
            final(self)@ == (ServerView {
                cursor: CursorState { position, ..old(self)@.cursor },
                ..old(self)@
            }),
    {
        self.cursor.position = position;
    }

    /// Begins to move a window with the cursor, at the window's request.
    /// The request is passed over unless the pointer is in that window and
    /// that window is the one under the cursor.
    pub fn begin_move(&mut self, view: ViewId) -> (begun: bool)
        requires
            old(self).wf(),
        ensures
            final(self).wf(),
            begun == old(self)@.cursor.may_grab(old(self)@.views, view),
            final(self)@ == (ServerView {
                cursor: if begun {
                    old(self)@.cursor.moving(
                        old(self)@.views[index_of(old(self)@.views, view)],
                    )
                } else {
                    old(self)@.cursor
                },
                ..old(self)@
            }),
    {
        self.cursor.begin_move(&self.views, view)
    }

    /// Begins to resize a window with the cursor, at the window's request
    /// and under the same condition.
    pub fn begin_resize(&mut self, view: ViewId, edges: Edges) -> (begun: bool)
        requires
            old(self).wf(),
        ensures
            final(self).wf(),
            begun == old(self)@.cursor.may_grab(old(self)@.views, view),
            final(self)@ == (ServerView {
                cursor: if begun {
                    old(self)@.cursor.resizing(
                        old(self)@.views[index_of(old(self)@.views, view)],
                        edges,
                    )
                } else {
                    old(self)@.cursor
                },
                ..old(self)@
            }),
    {
        self.cursor.begin_resize(&self.views, view, edges)
    }

    /// Handles a motion of the cursor, which is at its new position
    /// already.
    pub fn on_pointer_motion(&mut self, time: u32) -> (requests: Vec<Request>)
        requires
            old(self).wf(),
        ensures
            final(self).wf(),
            final(self)@ == (ServerView {
                cursor: old(self)@.cursor.after_motion(old(self)@.views),
                views: old(self)@.cursor.views_after_motion(old(self)@.views),
                ..old(self)@
            }),
            views_of(requests@) == old(self)@.cursor.motion_requests(old(self)@.views, time),
    {
        proof {
            lemma_replaced_keeps_ids(self@.views);
        }
        self.cursor.on_pointer_motion(&mut self.views, time)
    }

    /// Handles the letting go of the button: a gesture ends.
    pub fn on_pointer_button_release(&mut self)
        requires
            old(self).wf(),
        ensures
            final(self).wf(),
            final(self)@ == (ServerView { cursor: old(self)@.cursor.released(), ..old(self)@ }),
    {
        self.cursor.on_pointer_button_release();
    }
}

/// Handles the announcement of a display. A display whose mode could not
/// be set is not attached; nor is one with which the layout would not fit.
pub fn server_new_output(server: &mut Server, output: Output, committed: bool) -> (added: bool)
    requires
        old(server).wf(),
    ensures
        final(server).wf(),
        added == (committed && fits(old(server)@.outputs.push(output))),
        final(server)@ == (ServerView {
            outputs: if added {
                old(server)@.outputs.push(output)
            } else {
                old(server)@.outputs
            },
            ..old(server)@
        }),
{
    if !committed {
        return false;
    }
    server.new_output(output)
}

/// Handles the announcement of a surface. Only a top-level surface gets a
/// window; it is not shown yet, lies at the origin and stands behind all
/// others.
pub fn server_new_xdg_surface(server: &mut Server, surface: ViewId, toplevel: bool) -> (added:
    bool)
    requires
        old(server).wf(),
    ensures
        final(server).wf(),
        added == (toplevel && !has_id(old(server)@.views, surface)),
        final(server)@ == (ServerView {
            views: if added {
                old(server)@.views.push(View::unmapped(surface))
            } else {
                old(server)@.views
            },
            ..old(server)@
        }),
{
    if !toplevel {
        return false;
    }
    server.new_view(surface)
}

} // verus!
