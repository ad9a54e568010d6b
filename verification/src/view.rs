//! Windows and their stacking order.
//!
//! One order serves two purposes: it is the paint order, the topmost window
//! first, and the order of recency, the window focused last first.

use vstd::prelude::*;
use vstd::view::View as _;

use crate::geometry::{fixed_of, Point, Rect};

verus! {

/// Names a window for as long as it exists.
pub type ViewId = u64;

/// One top-level window.
#[derive(Clone, Copy, Debug, PartialEq, Eq, Structural)]
pub struct View {
    /// The handle of the window's surface.
    pub id: ViewId,
    /// Where the surface's origin lies, in pixels.
    pub x: i32,
    pub y: i32,
    /// The window's geometry box, relative to the surface's origin.
    pub geometry: Rect,
    /// Whether the window is shown.
    pub mapped: bool,
}

impl View {
    /// A window as it is when its surface is announced: not shown, at the
    /// origin, with an empty geometry box.
    pub open spec fn unmapped(id: ViewId) -> View {
        View { id, x: 0, y: 0, geometry: Rect { x: 0, y: 0, width: 0, height: 0 }, mapped: false }
    }

    /// Whether the window is shown and its geometry box holds `point`. The
    /// box holds its left and top edge and not its right and bottom edge.
    pub open spec fn covers(self, point: Point) -> bool {
        &&& self.mapped
        &&& fixed_of(self.x + self.geometry.x) <= point.x < fixed_of(
            self.x + self.geometry.x + self.geometry.width,
        )
        &&& fixed_of(self.y + self.geometry.y) <= point.y < fixed_of(
            self.y + self.geometry.y + self.geometry.height,
        )
    }

    /// `point` as seen from the surface's origin, in fixed-point units.
    pub open spec fn local(self, point: Point) -> (int, int) {
        (point.x - fixed_of(self.x as int), point.y - fixed_of(self.y as int))
    }

    /// A window that is not shown yet.
    pub fn new(id: ViewId) -> (view: View)
        ensures
            view == View::unmapped(id),
    {
        View { id, x: 0, y: 0, geometry: Rect { x: 0, y: 0, width: 0, height: 0 }, mapped: false }
    }

    /// Whether the window is shown and its geometry box holds `point`.
    pub fn is_under(&self, point: Point) -> (hit: bool)
        ensures
            hit == self.covers(point),
    {
        let left: i64 = (self.x as i64 + self.geometry.x as i64) * 256;
        let right: i64 = (self.x as i64 + self.geometry.x as i64 + self.geometry.width as i64)
            * 256;
        let top: i64 = (self.y as i64 + self.geometry.y as i64) * 256;
        let bottom: i64 = (self.y as i64 + self.geometry.y as i64 + self.geometry.height as i64)
            * 256;
        self.mapped && left <= point.x as i64 && (point.x as i64) < right && top <= point.y as i64
            && (point.y as i64) < bottom
    }

    /// `point` as seen from the surface's origin.
    pub fn to_local(&self, point: Point) -> (local: (i64, i64))
        ensures
            local.0 == self.local(point).0,
            local.1 == self.local(point).1,
    {
        (point.x as i64 - self.x as i64 * 256, point.y as i64 - self.y as i64 * 256)
    }
}

/// No two windows share an id.
pub open spec fn distinct_ids(views: Seq<View>) -> bool {
    forall|i: int, j: int| 0 <= i < j < views.len() ==> views[i].id != views[j].id
}

/// Whether a window of this id is among `views`.
pub open spec fn has_id(views: Seq<View>, id: ViewId) -> bool {
    exists|i: int| 0 <= i < views.len() && views[i].id == id
}

/// Where the window of this id stands, if it is among `views`.
pub open spec fn index_of(views: Seq<View>, id: ViewId) -> int {
    choose|i: int| 0 <= i < views.len() && views[i].id == id
}

/// The order after the window of this id has come to the front: that
/// window, then the others as they stood. Unchanged if there is no such
/// window.
pub open spec fn raised(views: Seq<View>, id: ViewId) -> Seq<View> {
    if has_id(views, id) {
        seq![views[index_of(views, id)]] + views.remove(index_of(views, id))
    } else {
        views
    }
}

/// The order after the window of this id has gone: the others as they
/// stood. Unchanged if there is no such window.
pub open spec fn without(views: Seq<View>, id: ViewId) -> Seq<View> {
    if has_id(views, id) {
        views.remove(index_of(views, id))
    } else {
        views
    }
}

/// The order after window `id` has been replaced by `view`, which keeps the
/// id. Unchanged if there is no such window.
pub open spec fn replaced(views: Seq<View>, id: ViewId, view: View) -> Seq<View> {
    if has_id(views, id) {
        views.update(index_of(views, id), view)
    } else {
        views
    }
}

/// Whether the window at `i` is the topmost of those that cover `point`.
pub open spec fn is_topmost_at(views: Seq<View>, point: Point, i: int) -> bool {
    &&& 0 <= i < views.len()
    &&& views[i].covers(point)
    &&& forall|j: int| 0 <= j < i ==> !(#[trigger] views[j]).covers(point)
}

/// The place of the topmost window under `point`.
pub open spec fn topmost_at(views: Seq<View>, point: Point) -> Option<int> {
    if exists|i: int| is_topmost_at(views, point, i) {
        Some(choose|i: int| is_topmost_at(views, point, i))
    } else {
        None
    }
}

/// The topmost window under `point`, and the point as that window's surface
/// sees it.
pub open spec fn hit_at(views: Seq<View>, point: Point) -> Option<(ViewId, i64, i64)> {
    match topmost_at(views, point) {
        Some(i) => Some(
            (views[i].id, views[i].local(point).0 as i64, views[i].local(point).1 as i64),
        ),
        None => None,
    }
}

/// Whether window `a` stands in front of window `b`.
pub open spec fn stands_before(views: Seq<View>, a: ViewId, b: ViewId) -> bool {
    exists|i: int, j: int| 0 <= i < j < views.len() && views[i].id == a && views[j].id == b
}

/// The order after the windows of `ids` have come to the front one after
/// the other.
pub open spec fn raised_all(views: Seq<View>, ids: Seq<ViewId>) -> Seq<View>
    decreases ids.len(),
{
    if ids.len() == 0 {
        views
    } else {
        raised(raised_all(views, ids.drop_last()), ids.last())
    }
}

/// Among windows with distinct ids, an id stands at one place only.
pub proof fn lemma_index_of(views: Seq<View>, i: int)
    requires
        distinct_ids(views),
        0 <= i < views.len(),
    ensures
        has_id(views, views[i].id),
        index_of(views, views[i].id) == i,
{
    let k = index_of(views, views[i].id);
    if k < i {
        assert(views[k].id != views[i].id);
    }
    if i < k {
        assert(views[i].id != views[k].id);
    }
}

/// Raising a window permutes the order: the same windows stand in it, each
/// once.
pub proof fn lemma_raised_permutes(views: Seq<View>, id: ViewId)
    requires
        distinct_ids(views),
    ensures
        raised(views, id).to_multiset() == views.to_multiset(),
        raised(views, id).len() == views.len(),
        distinct_ids(raised(views, id)),
        forall|other: ViewId| has_id(raised(views, id), other) <==> has_id(views, other),
{
    let after = raised(views, id);
    if has_id(views, id) {
        let k = index_of(views, id);
        let rest = views.remove(k);
        assert(views =~= rest.insert(k, views[k]));
        vstd::seq_lib::to_multiset_insert(rest, k, views[k]);
        vstd::seq_lib::to_multiset_insert(rest, 0, views[k]);
        assert(after =~= rest.insert(0, views[k]));
        assert forall|i: int, j: int| 0 <= i < j < after.len() implies after[i].id
            != after[j].id by {
            let from_i = if i == 0 {
                k
            } else if i - 1 < k {
                i - 1
            } else {
                i
            };
            let from_j = if j - 1 < k {
                j - 1
            } else {
                j
            };
            assert(after[i] == views[from_i]);
            assert(after[j] == views[from_j]);
            if from_i < from_j {
                assert(views[from_i].id != views[from_j].id);
            } else {
                assert(views[from_j].id != views[from_i].id);
            }
        }
        assert forall|other: ViewId| has_id(after, other) <==> has_id(views, other) by {
            if has_id(after, other) {
                let i = index_of(after, other);
                let from = if i == 0 {
                    k
                } else if i - 1 < k {
                    i - 1
                } else {
                    i
                };
                assert(views[from].id == other);
            }
            if has_id(views, other) {
                let i = index_of(views, other);
                let to = if i == k {
                    0
                } else if i < k {
                    i + 1
                } else {
                    i
                };
                assert(after[to].id == other);
            }
        }
    }
}

/// Raising a window leaves the others in the order in which they stood.
pub proof fn lemma_raised_keeps_order(views: Seq<View>, id: ViewId, a: ViewId, b: ViewId)
    requires
        a != id,
        b != id,
        stands_before(views, a, b),
    ensures
        stands_before(raised(views, id), a, b),
{
    if has_id(views, id) {
        let k = index_of(views, id);
        let after = raised(views, id);
        let (i, j) = choose|i: int, j: int|
            0 <= i < j < views.len() && views[i].id == a && views[j].id == b;
        let to_i = if i < k {
            i + 1
        } else {
            i
        };
        let to_j = if j < k {
            j + 1
        } else {
            j
        };
        assert(after[to_i] == views[i]);
        assert(after[to_j] == views[j]);
        assert(0 <= to_i < to_j < after.len());
    }
}

/// However many windows are raised, and in whatever order, the result is a
/// permutation of the order at the start.
pub proof fn lemma_raises_permute(views: Seq<View>, ids: Seq<ViewId>)
    requires
        distinct_ids(views),
    ensures
        raised_all(views, ids).to_multiset() == views.to_multiset(),
        raised_all(views, ids).len() == views.len(),
        distinct_ids(raised_all(views, ids)),
    decreases ids.len(),
{
    if ids.len() > 0 {
        lemma_raises_permute(views, ids.drop_last());
        lemma_raised_permutes(raised_all(views, ids.drop_last()), ids.last());
    }
}

/// However many windows are raised, two windows that were never raised
/// keep their order.
pub proof fn lemma_raises_keep_order(views: Seq<View>, ids: Seq<ViewId>, a: ViewId, b: ViewId)
    requires
        !ids.contains(a),
        !ids.contains(b),
        stands_before(views, a, b),
    ensures
        stands_before(raised_all(views, ids), a, b),
    decreases ids.len(),
{
    if ids.len() > 0 {
        let before = ids.drop_last();
        assert forall|id: ViewId| before.contains(id) implies ids.contains(id) by {
            let i = choose|i: int| 0 <= i < before.len() && before[i] == id;
            assert(ids[i] == id);
        }
        assert(ids[ids.len() - 1] == ids.last());
        lemma_raises_keep_order(views, before, a, b);
        lemma_raised_keeps_order(raised_all(views, before), ids.last(), a, b);
    }
}

/// Taking a window out leaves the others in the order in which they stood,
/// and takes out that window only.
pub proof fn lemma_without_keeps_order(views: Seq<View>, id: ViewId, a: ViewId, b: ViewId)
    requires
        distinct_ids(views),
    ensures
        distinct_ids(without(views, id)),
        !has_id(without(views, id), id),
        a != id ==> (has_id(without(views, id), a) <==> has_id(views, a)),
        a != id && b != id ==> (stands_before(without(views, id), a, b) <==> stands_before(
            views,
            a,
            b,
        )),
{
    let after = without(views, id);
    if has_id(views, id) {
        let k = index_of(views, id);
        assert forall|i: int| 0 <= i < after.len() implies after[i] == views[if i < k {
            i
        } else {
            i + 1
        }] by {}
        assert forall|i: int, j: int| 0 <= i < j < after.len() implies after[i].id
            != after[j].id by {
            let from_i = if i < k {
                i
            } else {
                i + 1
            };
            let from_j = if j < k {
                j
            } else {
                j + 1
            };
            assert(views[from_i].id != views[from_j].id);
        }
        if has_id(after, id) {
            let i = index_of(after, id);
            let from = if i < k {
                i
            } else {
                i + 1
            };
            lemma_index_of(views, from);
        }
        if a != id {
            if has_id(after, a) {
                let i = index_of(after, a);
                assert(views[if i < k {
                    i
                } else {
                    i + 1
                }].id == a);
            }
            if has_id(views, a) {
                let i = index_of(views, a);
                assert(after[if i < k {
                    i
                } else {
                    i - 1
                }].id == a);
            }
        }
        if a != id && b != id {
            if stands_before(after, a, b) {
                let (i, j) = choose|i: int, j: int|
                    0 <= i < j < after.len() && after[i].id == a && after[j].id == b;
                let from_i = if i < k {
                    i
                } else {
                    i + 1
                };
                let from_j = if j < k {
                    j
                } else {
                    j + 1
                };
                assert(views[from_i].id == a && views[from_j].id == b);
            }
            if stands_before(views, a, b) {
                let (i, j) = choose|i: int, j: int|
                    0 <= i < j < views.len() && views[i].id == a && views[j].id == b;
                let to_i = if i < k {
                    i
                } else {
                    i - 1
                };
                let to_j = if j < k {
                    j
                } else {
                    j - 1
                };
                assert(after[to_i].id == a && after[to_j].id == b);
            }
        }
    }
}

/// A window that is appended is there, and so are all that were.
pub proof fn lemma_push_keeps_ids(views: Seq<View>, view: View, other: ViewId)
    ensures
        has_id(views.push(view), other) <==> has_id(views, other) || other == view.id,
        distinct_ids(views) && !has_id(views, view.id) ==> distinct_ids(views.push(view)),
{
    let after = views.push(view);
    if has_id(after, other) && other != view.id {
        let i = index_of(after, other);
        assert(views[i].id == other);
    }
    if has_id(views, other) {
        let i = index_of(views, other);
        assert(after[i].id == other);
    }
    if other == view.id {
        assert(after[views.len() as int].id == other);
    }
    if distinct_ids(views) && !has_id(views, view.id) {
        assert forall|i: int, j: int| 0 <= i < j < after.len() implies after[i].id
            != after[j].id by {
            if j == views.len() {
                assert(views[i].id != view.id);
            }
        }
    }
}

/// Replacing a window by one of the same id keeps the ids where they are.
pub proof fn lemma_replaced_keeps_ids(views: Seq<View>)
    ensures
        forall|id: ViewId, view: View|
            view.id == id ==> #[trigger] replaced(views, id, view).len() == views.len() && (
            forall|i: int|
                0 <= i < views.len() ==> (#[trigger] replaced(views, id, view)[i]).id
                    == views[i].id),
        forall|id: ViewId, view: View, other: ViewId|
            view.id == id ==> (#[trigger] has_id(replaced(views, id, view), other) <==> has_id(
                views,
                other,
            )),
{
    assert forall|id: ViewId, view: View, other: ViewId| view.id == id implies (#[trigger] has_id(
        replaced(views, id, view),
        other,
    ) <==> has_id(views, other)) by {
        let after = replaced(views, id, view);
        if has_id(after, other) {
            let i = index_of(after, other);
            assert(views[i].id == other);
        }
        if has_id(views, other) {
            let i = index_of(views, other);
            assert(after[i].id == other);
        }
    }
}

/// At most one window is the topmost under a point.
pub proof fn lemma_topmost_unique(views: Seq<View>, point: Point, i: int, j: int)
    requires
        is_topmost_at(views, point, i),
        is_topmost_at(views, point, j),
    ensures
        i == j,
{
    if i < j {
        assert(!views[i].covers(point));
    }
    if j < i {
        assert(!views[j].covers(point));
    }
}

/// The windows, the topmost first.
pub struct ViewRegistry {
    views: Vec<View>,
}

impl vstd::view::View for ViewRegistry {
    type V = Seq<View>;

    closed spec fn view(&self) -> Seq<View> {
        self.views@
    }
}

impl ViewRegistry {
    /// The registry's invariant: no two windows share an id.
    pub open spec fn wf(&self) -> bool {
        distinct_ids(self@)
    }

    /// No windows.
    pub fn new() -> (registry: ViewRegistry)
        ensures
            registry.wf(),
            registry@ == Seq::<View>::empty(),
    {
        ViewRegistry { views: Vec::new() }
    }

    pub fn len(&self) -> (len: usize)
        ensures
            len == self@.len(),
    {
        self.views.len()
    }

    /// The windows in their order, the topmost first.
    pub fn views(&self) -> (views: &Vec<View>)
        ensures
            views@ == self@,
    {
        &self.views
    }

    /// Where the window of this id stands.
    pub fn position(&self, id: ViewId) -> (place: Option<usize>)
        requires
            self.wf(),
        ensures
            place is Some <==> has_id(self@, id),
            place matches Some(i) ==> i == index_of(self@, id) && i < self@.len()
                && self@[i as int].id == id,
    {
        let mut i: usize = 0;
        while i < self.views.len()
            invariant
                i <= self.views.len(),
                distinct_ids(self.views@),
                forall|j: int| 0 <= j < i ==> self.views@[j].id != id,
            decreases self.views.len() - i,
        {
            if self.views[i].id == id {
                proof {
                    lemma_index_of(self.views@, i as int);
                }
                return Some(i);
            }
            i += 1;
        }
        None
    }

    /// Whether a window of this id exists.
    pub fn contains(&self, id: ViewId) -> (found: bool)
        requires
            self.wf(),
        ensures
            found == has_id(self@, id),
    {
        self.position(id).is_some()
    }

    /// The window of this id.
    pub fn get(&self, id: ViewId) -> (view: Option<View>)
        requires
            self.wf(),
        ensures
            view is Some <==> has_id(self@, id),
            view matches Some(v) ==> v == self@[index_of(self@, id)] && v.id == id,
    {
        match self.position(id) {
            Some(i) => Some(self.views[i]),
            None => None,
        }
    }

    /// The topmost window.
    pub fn front(&self) -> (id: Option<ViewId>)
        ensures
            id == if self@.len() > 0 {
                Some(self@[0].id)
            } else {
                None
            },
    {
        if self.views.len() > 0 {
            Some(self.views[0].id)
        } else {
            None
        }
    }

    /// Takes a new window in, behind all others and not shown. Refuses an
    /// id that is in use.
    pub fn insert(&mut self, id: ViewId) -> (added: bool)
        requires
            old(self).wf(),
        ensures
            final(self).wf(),
            added == !has_id(old(self)@, id),
            final(self)@ == if added {
                old(self)@.push(View::unmapped(id))
            } else {
                old(self)@
            },
    {
        if self.position(id).is_some() {
            return false;
        }
        self.views.push(View::new(id));
        true
    }

    /// Puts `view` in the place of the window that has its id.
    pub fn replace(&mut self, view: View) -> (found: bool)
        requires
            old(self).wf(),
        ensures
            final(self).wf(),
            found == has_id(old(self)@, view.id),
            final(self)@ == replaced(old(self)@, view.id, view),
    {
        match self.position(view.id) {
            Some(i) => {
                self.views.set(i, view);
                true
            },
            None => false,
        }
    }

    /// Moves the window of this id to the front. Does nothing if it stands
    /// there already, or if there is no such window.
    pub fn raise_to_front(&mut self, id: ViewId)
        requires
            old(self).wf(),
        ensures
            final(self).wf(),
            final(self)@ == raised(old(self)@, id),
    {
        proof {
            lemma_raised_permutes(self@, id);
        }
        match self.position(id) {
            Some(i) => {
                let view = self.views.remove(i);
                self.views.insert(0, view);
                assert(self.views@ =~= raised(old(self)@, id));
            },
            None => {},
        }
    }

    /// Takes the window of this id out and hands it back. The others keep
    /// their order.
    pub fn remove(&mut self, id: ViewId) -> (view: Option<View>)
        requires
            old(self).wf(),
        ensures
            final(self).wf(),
            final(self)@ == without(old(self)@, id),
            view is Some <==> has_id(old(self)@, id),
            view matches Some(v) ==> v == old(self)@[index_of(old(self)@, id)] && v.id == id,
    {
        proof {
            lemma_without_keeps_order(self@, id, id, id);
        }
        match self.position(id) {
            Some(i) => Some(self.views.remove(i)),
            None => None,
        }
    }

    /// The topmost window under `point`, with the point as seen from that
    /// window's surface. Goes through the windows from the front, so that of
    /// two windows that overlap the one in front is found.
    pub fn hit_test(&self, point: Point) -> (hit: Option<(ViewId, i64, i64)>)
        ensures
            hit == hit_at(self@, point),
            hit is None <==> forall|i: int|
                0 <= i < self@.len() ==> !(#[trigger] self@[i]).covers(point),
            hit matches Some((id, x, y)) ==> exists|i: int|
                is_topmost_at(self@, point, i) && id == self@[i].id && x == self@[i].local(point).0
                    && y == self@[i].local(point).1,
    {
        let mut i: usize = 0;
        while i < self.views.len()
            invariant
                i <= self.views.len(),
                forall|j: int| 0 <= j < i ==> !(#[trigger] self.views@[j]).covers(point),
            decreases self.views.len() - i,
        {
            if self.views[i].is_under(point) {
                let local = self.views[i].to_local(point);
                proof {
                    assert(is_topmost_at(self@, point, i as int));
                    let k = choose|k: int| is_topmost_at(self@, point, k);
                    lemma_topmost_unique(self@, point, i as int, k);
                }
                return Some((self.views[i].id, local.0, local.1));
            }
            i += 1;
        }
        assert forall|k: int| !is_topmost_at(self@, point, k) by {
            if 0 <= k < self@.len() {
                assert(!self@[k].covers(point));
            }
        }
        None
    }
}

} // verus!
