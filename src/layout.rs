use vstd::prelude::*;
use vstd::math::min;
use crate::msg::LayoutMessage;

verus! {

/// The usable area of the screen.
#[derive(Clone, Copy, Debug, PartialEq, Eq, Structural)]
pub struct ScreenSize {
    pub width: u16,
    pub height: u16,
}

impl ScreenSize {
    /// The area left by a new observation of `width` by `height`: each side is the
    /// smaller of the old side and the new one, so the area never grows.
    pub fn new(old: &ScreenSize, width: u16, height: u16) -> (r: ScreenSize)
        ensures
            r.width == min(old.width as int, width as int),
            r.height == min(old.height as int, height as int),
    {
        let new_width = if old.width < width {
            old.width
        } else {
            width
        };
        let new_height = if old.height < height {
            old.height
        } else {
            height
        };
        ScreenSize { width: new_width, height: new_height }
    }
}

/// A window's geometry.
#[derive(Clone, Copy, Debug, PartialEq, Eq, Structural)]
pub struct Geometry {
    pub x: u16,
    pub y: u16,
    pub width: u16,
    pub height: u16,
}

/// The `k`-th of `count` windows stacked top to bottom in a column that starts at `x`
/// and is `width` wide and `height` high; each gets an equal share of the height.
pub open spec fn column_cell(x: int, width: int, height: int, count: int, k: int) -> Geometry {
    Geometry {
        x: x as u16,
        y: (k * (height / count)) as u16,
        width: width as u16,
        height: (height / count) as u16,
    }
}

/// The `k`-th of `count` windows placed left to right in a row that fills the screen;
/// each gets an equal share of the width.
pub open spec fn row_cell(width: int, height: int, count: int, k: int) -> Geometry {
    Geometry {
        x: (k * (width / count)) as u16,
        y: 0,
        width: (width / count) as u16,
        height: height as u16,
    }
}

/// Types implementing this trait arrange windows, parametrized over the number of
/// windows and the screen size, and say which window lies next to which.
pub trait Layout: Sized {
    /// What the layout's parameters must satisfy.
    spec fn inv(&self) -> bool;

    /// The geometry of each of `num_windows` windows, in window order.
    spec fn spec_arrange(&self, num_windows: nat, screen: ScreenSize) -> Seq<Option<Geometry>>;

    /// The window to the right of window `index` among `max` windows.
    spec fn spec_right_window(&self, index: usize, max: usize) -> Option<usize>;

    /// The window to the left of window `index` among `max` windows.
    spec fn spec_left_window(&self, index: usize, max: usize) -> Option<usize>;

    /// The window above window `index` among `max` windows.
    spec fn spec_top_window(&self, index: usize, max: usize) -> Option<usize>;

    /// The window below window `index` among `max` windows.
    spec fn spec_bottom_window(&self, index: usize, max: usize) -> Option<usize>;

    /// Whether the layout takes messages of this kind.
    spec fn spec_accepts(&self, msg: LayoutMessage) -> bool;

    /// The layout after it took `msg`.
    spec fn spec_apply(&self, msg: LayoutMessage) -> Self;

    /// Compute window geometries: one entry per window, `None` for a window that is
    /// not shown.
    fn arrange(&self, num_windows: usize, screen: &ScreenSize) -> (r: Vec<Option<Geometry>>)
        requires
            self.inv(),
        ensures
            r@.len() == num_windows,
            r@ == self.spec_arrange(num_windows as nat, *screen),
    ;

    /// Get the window to the right of the nth window.
    fn right_window(&self, index: usize, max: usize) -> (r: Option<usize>)
        requires
            self.inv(),
        ensures
            r == self.spec_right_window(index, max),
            r matches Some(j) ==> j < max,
    ;

    /// Get the window to the left of the nth window.
    fn left_window(&self, index: usize, max: usize) -> (r: Option<usize>)
        requires
            self.inv(),
        ensures
            r == self.spec_left_window(index, max),
            r matches Some(j) ==> j < max,
    ;

    /// Get the window to the top of the nth window.
    fn top_window(&self, index: usize, max: usize) -> (r: Option<usize>)
        requires
            self.inv(),
        ensures
            r == self.spec_top_window(index, max),
            r matches Some(j) ==> j < max,
    ;

    /// Get the window to the bottom of the nth window.
    fn bottom_window(&self, index: usize, max: usize) -> (r: Option<usize>)
        requires
            self.inv(),
        ensures
            r == self.spec_bottom_window(index, max),
            r matches Some(j) ==> j < max,
    ;

    /// Whether the layout takes messages of the kind of `msg`.
    fn accepts(&self, msg: &LayoutMessage) -> (r: bool)
        ensures
            r == self.spec_accepts(*msg),
    ;

    /// Change the layout's parameters as `msg` asks.
    fn apply_message(&mut self, msg: &LayoutMessage)
        requires
            old(self).inv(),
            old(self).spec_accepts(*msg),
        ensures
            *final(self) == old(self).spec_apply(*msg),
            final(self).inv(),
    ;
}

/// The layout after `msg` was sent to it: a kind it does not take changes nothing.
pub open spec fn after_message<L: Layout>(layout: L, msg: LayoutMessage) -> L {
    if layout.spec_accepts(msg) {
        layout.spec_apply(msg)
    } else {
        layout
    }
}

/// Send a message to a layout. A kind the layout does not take is ignored, not an
/// error; the result tells whether it was taken.
pub fn send_message<L: Layout>(layout: &mut L, msg: &LayoutMessage) -> (accepted: bool)
    requires
        old(layout).inv(),
    ensures
        accepted == old(layout).spec_accepts(*msg),
        *final(layout) == after_message(*old(layout), *msg),
        final(layout).inv(),
{
    if layout.accepts(msg) {
        layout.apply_message(msg);
        true
    } else {
        false
    }
}

/// A message of a kind that a layout does not take leaves the arrangement it computes
/// unchanged, for every number of windows and every screen.
pub proof fn unsupported_message_keeps_arrangement<L: Layout>(
    layout: L,
    msg: LayoutMessage,
    num_windows: nat,
    screen: ScreenSize,
)
    requires
        !layout.spec_accepts(msg),
    ensures
        after_message(layout, msg).spec_arrange(num_windows, screen) == layout.spec_arrange(
            num_windows,
            screen,
        ),
{
}

/// Append the geometries of `count` windows stacked in a column.
pub fn push_column(
    r: &mut Vec<Option<Geometry>>,
    x: u16,
    width: u16,
    height: u16,
    count: usize,
)
    requires
        count > 0,
    ensures
        final(r)@ == old(r)@ + Seq::new(
            count as nat,
            |k: int| Some(column_cell(x as int, width as int, height as int, count as int, k)),
        ),
{
    let share: usize = height as usize / count;
    let ghost start = r@;
    let mut k: usize = 0;
    while k < count
        invariant
            0 < count,
            k <= count,
            share as int == height as int / count as int,
            r@ == start + Seq::new(
                k as nat,
                |j: int| Some(column_cell(x as int, width as int, height as int, count as int, j)),
            ),
        decreases count - k,
    {
        assert(k * share <= height) by (nonlinear_arith)
            requires
                k < count,
                share == height as int / count as int,
                count > 0,
                height >= 0,
        {
        }
        let y: u16 = (k * share) as u16;
        r.push(Some(Geometry { x, y, width, height: share as u16 }));
        k = k + 1;
        assert(r@ =~= start + Seq::new(
            k as nat,
            |j: int| Some(column_cell(x as int, width as int, height as int, count as int, j)),
        ));
    }
}

/// Append the geometries of `count` windows placed side by side across the screen.
pub fn push_row(r: &mut Vec<Option<Geometry>>, width: u16, height: u16, count: usize)
    requires
        count > 0,
    ensures
        final(r)@ == old(r)@ + Seq::new(
            count as nat,
            |k: int| Some(row_cell(width as int, height as int, count as int, k)),
        ),
{
    let share: usize = width as usize / count;
    let ghost start = r@;
    let mut k: usize = 0;
    while k < count
        invariant
            0 < count,
            k <= count,
            share as int == width as int / count as int,
            r@ == start + Seq::new(
                k as nat,
                |j: int| Some(row_cell(width as int, height as int, count as int, j)),
            ),
        decreases count - k,
    {
        assert(k * share <= width) by (nonlinear_arith)
            requires
                k < count,
                share == width as int / count as int,
                count > 0,
                width >= 0,
        {
        }
        let x: u16 = (k * share) as u16;
        r.push(Some(Geometry { x, y: 0, width: share as u16, height }));
        k = k + 1;
        assert(r@ =~= start + Seq::new(
            k as nat,
            |j: int| Some(row_cell(width as int, height as int, count as int, j)),
        ));
    }
}

} // verus!
