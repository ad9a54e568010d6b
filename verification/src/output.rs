//! The displays, side by side from left to right, and what they mean for
//! the cursor.

use vstd::prelude::*;

use crate::geometry::{clamp, fixed_of, Point, MAX_PIXEL};

verus! {

/// One display: its size in pixels.
#[derive(Clone, Copy, Debug, PartialEq, Eq, Structural)]
pub struct Output {
    pub width: u32,
    pub height: u32,
}

/// The width that the first `n` displays take up together: where display
/// `n` begins.
pub open spec fn span(outputs: Seq<Output>, n: int) -> int
    decreases n,
{
    if n <= 0 {
        0
    } else {
        span(outputs, n - 1) + outputs[n - 1].width
    }
}

/// The width of all displays together.
pub open spec fn total_width(outputs: Seq<Output>) -> int {
    span(outputs, outputs.len() as int)
}

/// Whether every position on the displays can be written as a fixed-point
/// number.
pub open spec fn fits(outputs: Seq<Output>) -> bool {
    &&& total_width(outputs) <= MAX_PIXEL
    &&& forall|i: int| 0 <= i < outputs.len() ==> (#[trigger] outputs[i]).height <= MAX_PIXEL
}

/// Whether display `i` is the one that the horizontal position `x` belongs
/// to: it begins at or left of `x`, and the next one begins right of `x`.
/// What lies left of all displays belongs to the first, what lies right of
/// them to the last.
pub open spec fn is_output_at(outputs: Seq<Output>, x: int, i: int) -> bool {
    &&& 0 <= i < outputs.len()
    &&& (i == 0 || fixed_of(span(outputs, i)) <= x)
    &&& (i + 1 < outputs.len() ==> x < fixed_of(span(outputs, i + 1)))
}

/// The display that `x` belongs to.
pub open spec fn output_at(outputs: Seq<Output>, x: int) -> int {
    choose|i: int| is_output_at(outputs, x, i)
}

/// A position brought onto the displays: `x` into the width of all of them,
/// then `y` into the height of the display that the new `x` belongs to.
/// Without a display the position stays as it is.
pub open spec fn clamped(outputs: Seq<Output>, position: Point) -> Point {
    if outputs.len() == 0 {
        position
    } else {
        let x = clamp(position.x as int, 0, fixed_of(total_width(outputs)));
        let y = clamp(position.y as int, 0, fixed_of(outputs[output_at(outputs, x)].height as int));
        Point { x: x as i32, y: y as i32 }
    }
}

/// The middle of display `n`.
pub open spec fn center(outputs: Seq<Output>, n: int) -> Point {
    Point {
        x: (fixed_of(span(outputs, n)) + 128 * outputs[n].width) as i32,
        y: (128 * outputs[n].height) as i32,
    }
}

/// Displays begin further right the later they come.
pub proof fn lemma_span_grows(outputs: Seq<Output>, m: int, n: int)
    requires
        0 <= m <= n,
    ensures
        0 <= span(outputs, m) <= span(outputs, n),
    decreases n,
{
    if n > 0 {
        if m < n {
            lemma_span_grows(outputs, m, n - 1);
        } else {
            lemma_span_grows(outputs, m - 1, n - 1);
        }
    }
}

/// A horizontal position belongs to one display only.
pub proof fn lemma_output_at_unique(outputs: Seq<Output>, x: int, i: int, j: int)
    requires
        is_output_at(outputs, x, i),
        is_output_at(outputs, x, j),
    ensures
        i == j,
{
    if i < j {
        lemma_span_grows(outputs, i + 1, j);
    }
    if j < i {
        lemma_span_grows(outputs, j + 1, i);
    }
}

/// Appending a display leaves the places of the others.
proof fn lemma_span_push(outputs: Seq<Output>, output: Output, n: int)
    requires
        0 <= n <= outputs.len(),
    ensures
        span(outputs.push(output), n) == span(outputs, n),
    decreases n,
{
    if n > 0 {
        lemma_span_push(outputs, output, n - 1);
    }
}

/// The displays, from left to right.
pub struct OutputLayout {
    outputs: Vec<Output>,
}

impl View for OutputLayout {
    type V = Seq<Output>;

    closed spec fn view(&self) -> Seq<Output> {
        self.outputs@
    }
}

impl OutputLayout {
    /// The layout's invariant: all positions on it are fixed-point numbers.
    pub open spec fn wf(&self) -> bool {
        fits(self@)
    }

    /// No display.
    pub fn new() -> (layout: OutputLayout)
        ensures
            layout.wf(),
            layout@ == Seq::<Output>::empty(),
    {
        OutputLayout { outputs: Vec::new() }
    }

    pub fn len(&self) -> (len: usize)
        ensures
            len == self@.len(),
    {
        self.outputs.len()
    }

    /// The displays, from left to right.
    pub fn outputs(&self) -> (outputs: &Vec<Output>)
        ensures
            outputs@ == self@,
    {
        &self.outputs
    }

    /// Where display `n` begins; from `n == len` on, the width of all
    /// displays.
    pub fn offset(&self, n: usize) -> (offset: u32)
        requires
            self.wf(),
        ensures
            offset == span(
                self@,
                if n <= self@.len() {
                    n as int
                } else {
                    self@.len() as int
                },
            ),
    {
        let mut i: usize = 0;
        let mut sum: u32 = 0;
        while i < n && i < self.outputs.len()
            invariant
                i <= n,
                i <= self.outputs@.len(),
                sum == span(self.outputs@, i as int),
                span(self.outputs@, self.outputs@.len() as int) <= MAX_PIXEL,
            decreases self.outputs.len() - i,
        {
            proof {
                lemma_span_grows(self.outputs@, i + 1, self.outputs@.len() as int);
            }
            sum = sum + self.outputs[i].width;
            i += 1;
        }
        sum
    }

    /// Attaches a display to the right of the others. Refuses one with
    /// which the layout would reach beyond what a fixed-point position can
    /// hold.
    pub fn add(&mut self, output: Output) -> (added: bool)
        requires
            old(self).wf(),
        ensures
            final(self).wf(),
            added == fits(old(self)@.push(output)),
            final(self)@ == if added {
                old(self)@.push(output)
            } else {
                old(self)@
            },
    {
        let total = self.offset(self.outputs.len());
        proof {
            let after = self@.push(output);
            lemma_span_push(self@, output, self@.len() as int);
            assert(after[after.len() - 1] == output);
            assert(total_width(after) == total + output.width);
            assert forall|i: int| 0 <= i < self@.len() implies (#[trigger] after[i]).height
                <= MAX_PIXEL by {
                assert(after[i] == self@[i]);
            }
        }
        if output.height <= MAX_PIXEL as u32 && output.width <= MAX_PIXEL as u32 - total {
            self.outputs.push(output);
            true
        } else {
            false
        }
    }

    /// The display that the horizontal position `x` belongs to; `None`
    /// without a display.
    pub fn current_output_idx(&self, x: i32) -> (index: Option<usize>)
        requires
            self.wf(),
        ensures
            index is None <==> self@.len() == 0,
            index matches Some(i) ==> is_output_at(self@, x as int, i as int) && i == output_at(
                self@,
                x as int,
            ),
    {
        if self.outputs.len() == 0 {
            return None;
        }
        let mut i: usize = 0;
        let mut next: u32 = self.outputs[0].width;
        proof {
            assert(span(self.outputs@, 1) == span(self.outputs@, 0) + self.outputs@[0].width);
            lemma_span_grows(self.outputs@, 1, self.outputs@.len() as int);
        }
        while i + 1 < self.outputs.len()
            invariant
                i < self.outputs@.len(),
                next == span(self.outputs@, i + 1),
                i == 0 || fixed_of(span(self.outputs@, i as int)) <= x,
                span(self.outputs@, self.outputs@.len() as int) <= MAX_PIXEL,
            decreases self.outputs.len() - i,
        {
            if next as i64 * 256 > x as i64 {
                proof {
                    let k = output_at(self.outputs@, x as int);
                    assert(is_output_at(self.outputs@, x as int, i as int));
                    lemma_output_at_unique(self.outputs@, x as int, i as int, k);
                }
                return Some(i);
            }
            i += 1;
            proof {
                lemma_span_grows(self.outputs@, i + 1, self.outputs@.len() as int);
            }
            next = next + self.outputs[i].width;
        }
        proof {
            let k = output_at(self.outputs@, x as int);
            assert(is_output_at(self.outputs@, x as int, i as int));
            lemma_output_at_unique(self.outputs@, x as int, i as int, k);
        }
        Some(i)
    }

    /// The size of the display that `x` belongs to.
    pub fn current_output_size(&self, x: i32) -> (size: Option<(u32, u32)>)
        requires
            self.wf(),
        ensures
            size == if self@.len() == 0 {
                None
            } else {
                Some(
                    (
                        self@[output_at(self@, x as int)].width,
                        self@[output_at(self@, x as int)].height,
                    ),
                )
            },
    {
        match self.current_output_idx(x) {
            Some(i) => Some((self.outputs[i].width, self.outputs[i].height)),
            None => None,
        }
    }

    /// Where the display that `x` belongs to begins; 0 without a display.
    pub fn current_output_offset(&self, x: i32) -> (offset: u32)
        requires
            self.wf(),
        ensures
            offset == if self@.len() == 0 {
                0
            } else {
                span(self@, output_at(self@, x as int))
            },
    {
        match self.current_output_idx(x) {
            Some(i) => self.offset(i),
            None => 0,
        }
    }

    /// Brings a position onto the displays.
    pub fn clamp_coords(&self, position: Point) -> (onto: Point)
        requires
            self.wf(),
        ensures
            onto == clamped(self@, position),
    {
        if self.outputs.len() == 0 {
            return position;
        }
        let max_x: i32 = (self.offset(self.outputs.len()) * 256) as i32;
        let x: i32 = if position.x < 0 {
            0
        } else if position.x > max_x {
            max_x
        } else {
            position.x
        };
        let max_y: i32 = match self.current_output_idx(x) {
            Some(i) => (self.outputs[i].height * 256) as i32,
            None => 0,
        };
        let y: i32 = if position.y < 0 {
            0
        } else if position.y > max_y {
            max_y
        } else {
            position.y
        };
        Point { x, y }
    }

    /// The middle of display `n`; `None` if there is no such display.
    pub fn screen_center(&self, n: usize) -> (middle: Option<Point>)
        requires
            self.wf(),
        ensures
            middle == if n < self@.len() {
                Some(center(self@, n as int))
            } else {
                None
            },
    {
        if n < self.outputs.len() {
            let left = self.offset(n);
            proof {
                lemma_span_grows(self.outputs@, n + 1, self.outputs@.len() as int);
            }
            let x: u32 = left * 256 + self.outputs[n].width * 128;
            let y: u32 = self.outputs[n].height * 128;
            Some(Point { x: x as i32, y: y as i32 })
        } else {
            None
        }
    }
}

} // verus!
