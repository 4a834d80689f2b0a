use vstd::prelude::*;
use vstd::math::min;
use crate::layout::{column_cell, push_column, push_row, row_cell, Geometry, Layout, ScreenSize};
use crate::msg::LayoutMessage;

verus! {

/// One window at a time, covering the whole screen.
#[derive(Clone, Copy, Debug, PartialEq, Eq, Structural)]
pub struct Monocle {}

/// All windows stacked top to bottom, each with an equal share of the height.
#[derive(Clone, Copy, Debug, PartialEq, Eq, Structural)]
pub struct VStack {}

/// All windows placed left to right, each with an equal share of the width.
#[derive(Clone, Copy, Debug, PartialEq, Eq, Structural)]
pub struct HStack {}

/// The whole screen as one window's geometry.
pub open spec fn full_screen(screen: ScreenSize) -> Geometry {
    Geometry { x: 0, y: 0, width: screen.width, height: screen.height }
}

/// The window before `index` on one axis, if there is one.
pub open spec fn previous_index(index: usize, max: usize) -> Option<usize> {
    if 0 < index < max {
        Some((index - 1) as usize)
    } else {
        None
    }
}

/// The window after `index` on one axis, if there is one.
pub open spec fn next_index(index: usize, max: usize) -> Option<usize> {
    if index + 1 < max {
        Some((index + 1) as usize)
    } else {
        None
    }
}

fn previous(index: usize, max: usize) -> (r: Option<usize>)
    ensures
        r == previous_index(index, max),
{
    if 0 < index && index < max {
        Some(index - 1)
    } else {
        None
    }
}

fn next(index: usize, max: usize) -> (r: Option<usize>)
    ensures
        r == next_index(index, max),
{
    if index < max && index + 1 < max {
        Some(index + 1)
    } else {
        None
    }
}

impl Layout for Monocle {
    open spec fn inv(&self) -> bool {
        true
    }

    open spec fn spec_arrange(&self, num_windows: nat, screen: ScreenSize) -> Seq<Option<Geometry>> {
        Seq::new(
            num_windows,
            |i: int|
                if i == 0 {
                    Some(full_screen(screen))
                } else {
                    None
                },
        )
    }

    open spec fn spec_right_window(&self, index: usize, max: usize) -> Option<usize> {
        None
    }

    open spec fn spec_left_window(&self, index: usize, max: usize) -> Option<usize> {
        None
    }

    open spec fn spec_top_window(&self, index: usize, max: usize) -> Option<usize> {
        None
    }

    open spec fn spec_bottom_window(&self, index: usize, max: usize) -> Option<usize> {
        None
    }

    open spec fn spec_accepts(&self, msg: LayoutMessage) -> bool {
        false
    }

    open spec fn spec_apply(&self, msg: LayoutMessage) -> Self {
        *self
    }

    fn arrange(&self, num_windows: usize, screen: &ScreenSize) -> (r: Vec<Option<Geometry>>) {
        let mut r: Vec<Option<Geometry>> = Vec::new();
        let mut i: usize = 0;
        while i < num_windows
            invariant
                i <= num_windows,
                r@ == self.spec_arrange(i as nat, *screen),
            decreases num_windows - i,
        {
            if i == 0 {
                r.push(Some(Geometry { x: 0, y: 0, width: screen.width, height: screen.height }));
            } else {
                r.push(None);
            }
            i = i + 1;
            assert(r@ =~= self.spec_arrange(i as nat, *screen));
        }
        assert(r@ =~= self.spec_arrange(num_windows as nat, *screen));
        r
    }

    fn right_window(&self, index: usize, max: usize) -> (r: Option<usize>) {
        None
    }

    fn left_window(&self, index: usize, max: usize) -> (r: Option<usize>) {
        None
    }

    fn top_window(&self, index: usize, max: usize) -> (r: Option<usize>) {
        None
    }

    fn bottom_window(&self, index: usize, max: usize) -> (r: Option<usize>) {
        None
    }

    fn accepts(&self, msg: &LayoutMessage) -> (r: bool) {
        false
    }

    fn apply_message(&mut self, msg: &LayoutMessage) {
    }
}

impl Layout for VStack {
    open spec fn inv(&self) -> bool {
        true
    }

    open spec fn spec_arrange(&self, num_windows: nat, screen: ScreenSize) -> Seq<Option<Geometry>> {
        Seq::new(
            num_windows,
            |i: int|
                Some(
                    column_cell(0, screen.width as int, screen.height as int, num_windows as int, i),
                ),
        )
    }

    open spec fn spec_right_window(&self, index: usize, max: usize) -> Option<usize> {
        None
    }

    open spec fn spec_left_window(&self, index: usize, max: usize) -> Option<usize> {
        None
    }

    open spec fn spec_top_window(&self, index: usize, max: usize) -> Option<usize> {
        previous_index(index, max)
    }

    open spec fn spec_bottom_window(&self, index: usize, max: usize) -> Option<usize> {
        next_index(index, max)
    }

    open spec fn spec_accepts(&self, msg: LayoutMessage) -> bool {
        false
    }

    open spec fn spec_apply(&self, msg: LayoutMessage) -> Self {
        *self
    }

    fn arrange(&self, num_windows: usize, screen: &ScreenSize) -> (r: Vec<Option<Geometry>>) {
        let mut r: Vec<Option<Geometry>> = Vec::new();
        if num_windows > 0 {
            push_column(&mut r, 0, screen.width, screen.height, num_windows);
        }
        assert(r@ =~= self.spec_arrange(num_windows as nat, *screen));
        r
    }

    fn right_window(&self, index: usize, max: usize) -> (r: Option<usize>) {
        None
    }

    fn left_window(&self, index: usize, max: usize) -> (r: Option<usize>) {
        None
    }

    fn top_window(&self, index: usize, max: usize) -> (r: Option<usize>) {
        previous(index, max)
    }

    fn bottom_window(&self, index: usize, max: usize) -> (r: Option<usize>) {
        next(index, max)
    }

    fn accepts(&self, msg: &LayoutMessage) -> (r: bool) {
        false
    }

    fn apply_message(&mut self, msg: &LayoutMessage) {
    }
}

impl Layout for HStack {
    open spec fn inv(&self) -> bool {
        true
    }

    open spec fn spec_arrange(&self, num_windows: nat, screen: ScreenSize) -> Seq<Option<Geometry>> {
        Seq::new(
            num_windows,
            |i: int|
                Some(row_cell(screen.width as int, screen.height as int, num_windows as int, i)),
        )
    }

    open spec fn spec_right_window(&self, index: usize, max: usize) -> Option<usize> {
        next_index(index, max)
    }

    open spec fn spec_left_window(&self, index: usize, max: usize) -> Option<usize> {
        previous_index(index, max)
    }

    open spec fn spec_top_window(&self, index: usize, max: usize) -> Option<usize> {
        None
    }

    open spec fn spec_bottom_window(&self, index: usize, max: usize) -> Option<usize> {
        None
    }

    open spec fn spec_accepts(&self, msg: LayoutMessage) -> bool {
        false
    }

    open spec fn spec_apply(&self, msg: LayoutMessage) -> Self {
        *self
    }

    fn arrange(&self, num_windows: usize, screen: &ScreenSize) -> (r: Vec<Option<Geometry>>) {
        let mut r: Vec<Option<Geometry>> = Vec::new();
        if num_windows > 0 {
            push_row(&mut r, screen.width, screen.height, num_windows);
        }
        assert(r@ =~= self.spec_arrange(num_windows as nat, *screen));
        r
    }

    fn right_window(&self, index: usize, max: usize) -> (r: Option<usize>) {
        next(index, max)
    }

    fn left_window(&self, index: usize, max: usize) -> (r: Option<usize>) {
        previous(index, max)
    }

    fn top_window(&self, index: usize, max: usize) -> (r: Option<usize>) {
        None
    }

    fn bottom_window(&self, index: usize, max: usize) -> (r: Option<usize>) {
        None
    }

    fn accepts(&self, msg: &LayoutMessage) -> (r: bool) {
        false
    }

    fn apply_message(&mut self, msg: &LayoutMessage) {
    }
}

/// A master area on the left, holding up to `master_number` windows stacked top to
/// bottom and `master_factor` percent of the screen's width, and the other windows
/// stacked in the rest. With no window left for the stack, the masters fill the screen.
#[derive(Clone, Copy, Debug, PartialEq, Eq, Structural)]
pub struct DStack {
    /// The master area's share of the screen's width, in percent.
    pub master_factor: u8,
    /// How many windows the master area holds at most.
    pub master_number: usize,
}

impl DStack {
    /// A dynamic stack with the given master factor and master number.
    pub fn new(master_factor: u8, master_number: usize) -> (r: DStack)
        requires
            master_factor <= 100,
            master_number >= 1,
        ensures
            r.master_factor == master_factor,
            r.master_number == master_number,
            r.inv(),
    {
        DStack { master_factor, master_number }
    }

    /// How many of `max` windows are masters.
    pub open spec fn masters(self, max: int) -> int {
        min(self.master_number as int, max)
    }

    /// The width of the master area on a screen `width` wide.
    pub open spec fn master_width(self, width: int) -> int {
        width * self.master_factor / 100
    }

    fn masters_of(&self, max: usize) -> (r: usize)
        ensures
            r == self.masters(max as int),
    {
        if self.master_number < max {
            self.master_number
        } else {
            max
        }
    }
}

impl Layout for DStack {
    open spec fn inv(&self) -> bool {
        self.master_factor <= 100 && self.master_number >= 1
    }

    open spec fn spec_arrange(&self, num_windows: nat, screen: ScreenSize) -> Seq<Option<Geometry>> {
        let n = num_windows as int;
        let m = self.masters(n);
        let w = screen.width as int;
        let h = screen.height as int;
        let mw = self.master_width(w);
        Seq::new(
            num_windows,
            |i: int|
                if m >= n {
                    Some(column_cell(0, w, h, n, i))
                } else if i < m {
                    Some(column_cell(0, mw, h, m, i))
                } else {
                    Some(column_cell(mw, w - mw, h, n - m, i - m))
                },
        )
    }

    open spec fn spec_right_window(&self, index: usize, max: usize) -> Option<usize> {
        let m = self.masters(max as int);
        if index < m && m < max {
            Some((m + min(index as int, max - m - 1)) as usize)
        } else {
            None
        }
    }

    open spec fn spec_left_window(&self, index: usize, max: usize) -> Option<usize> {
        let m = self.masters(max as int);
        if m <= index < max {
            Some(min(index - m, m - 1) as usize)
        } else {
            None
        }
    }

    open spec fn spec_top_window(&self, index: usize, max: usize) -> Option<usize> {
        if 0 < index < max && index != self.masters(max as int) {
            Some((index - 1) as usize)
        } else {
            None
        }
    }

    open spec fn spec_bottom_window(&self, index: usize, max: usize) -> Option<usize> {
        if index + 1 < max && index + 1 != self.masters(max as int) {
            Some((index + 1) as usize)
        } else {
            None
        }
    }

    open spec fn spec_accepts(&self, msg: LayoutMessage) -> bool {
        match msg {
            LayoutMessage::MasterFactorMessage(_) => true,
            LayoutMessage::MasterNumberMessage(_) => true,
            LayoutMessage::GenericMessage(_) => false,
        }
    }

    open spec fn spec_apply(&self, msg: LayoutMessage) -> Self {
        match msg {
            LayoutMessage::MasterFactorMessage(f) => DStack {
                master_factor: f.result_for(self.master_factor as int) as u8,
                master_number: self.master_number,
            },
            LayoutMessage::MasterNumberMessage(n) => DStack {
                master_factor: self.master_factor,
                master_number: n.result_for(self.master_number as int) as usize,
            },
            LayoutMessage::GenericMessage(_) => *self,
        }
    }

    fn arrange(&self, num_windows: usize, screen: &ScreenSize) -> (r: Vec<Option<Geometry>>) {
        let mut r: Vec<Option<Geometry>> = Vec::new();
        if num_windows == 0 {
            assert(r@ =~= self.spec_arrange(0, *screen));
            return r;
        }
        let m = self.masters_of(num_windows);
        if m >= num_windows {
            push_column(&mut r, 0, screen.width, screen.height, num_windows);
        } else {
            let w = screen.width;
            let f = self.master_factor;
            assert(w as int * f as int / 100 <= w) by (nonlinear_arith)
                requires
                    f <= 100,
                    w >= 0,
            {
            }
            let mw: u16 = (w as u32 * f as u32 / 100) as u16;
            push_column(&mut r, 0, mw, screen.height, m);
            push_column(&mut r, mw, w - mw, screen.height, num_windows - m);
        }
        assert(r@ =~= self.spec_arrange(num_windows as nat, *screen));
        r
    }

    fn right_window(&self, index: usize, max: usize) -> (r: Option<usize>) {
        let m = self.masters_of(max);
        if index < m && m < max {
            let offset = if index < max - m - 1 {
                index
            } else {
                max - m - 1
            };
            Some(m + offset)
        } else {
            None
        }
    }

    fn left_window(&self, index: usize, max: usize) -> (r: Option<usize>) {
        let m = self.masters_of(max);
        if m <= index && index < max {
            let offset = if index - m < m - 1 {
                index - m
            } else {
                m - 1
            };
            Some(offset)
        } else {
            None
        }
    }

    fn top_window(&self, index: usize, max: usize) -> (r: Option<usize>) {
        if 0 < index && index < max && index != self.masters_of(max) {
            Some(index - 1)
        } else {
            None
        }
    }

    fn bottom_window(&self, index: usize, max: usize) -> (r: Option<usize>) {
        if index < max && index + 1 < max && index + 1 != self.masters_of(max) {
            Some(index + 1)
        } else {
            None
        }
    }

    fn accepts(&self, msg: &LayoutMessage) -> (r: bool) {
        match msg {
            LayoutMessage::MasterFactorMessage(_) => true,
            LayoutMessage::MasterNumberMessage(_) => true,
            LayoutMessage::GenericMessage(_) => false,
        }
    }

    fn apply_message(&mut self, msg: &LayoutMessage) {
        match msg {
            LayoutMessage::MasterFactorMessage(f) => {
                self.master_factor = f.apply(self.master_factor);
            },
            LayoutMessage::MasterNumberMessage(n) => {
                self.master_number = n.apply(self.master_number);
            },
            LayoutMessage::GenericMessage(_) => {},
        }
    }
}

/// In a vertical stack, moving down and then up leads back to the same window, and so
/// does moving up and then down.
pub proof fn vstack_navigation_is_consistent(layout: VStack, index: usize, max: usize)
    ensures
        layout.spec_bottom_window(index, max) matches Some(j) ==> layout.spec_top_window(j, max)
            == Some(index),
        layout.spec_top_window(index, max) matches Some(j) ==> layout.spec_bottom_window(j, max)
            == Some(index),
{
}

/// In a horizontal stack, moving right and then left leads back to the same window, and
/// so does moving left and then right.
pub proof fn hstack_navigation_is_consistent(layout: HStack, index: usize, max: usize)
    ensures
        layout.spec_right_window(index, max) matches Some(j) ==> layout.spec_left_window(j, max)
            == Some(index),
        layout.spec_left_window(index, max) matches Some(j) ==> layout.spec_right_window(j, max)
            == Some(index),
{
}

/// In a dynamic stack, up and down undo each other within a column; moving between the
/// columns and back leads to the same window wherever the other column has a window
/// in the same row.
pub proof fn dstack_navigation_is_consistent(layout: DStack, index: usize, max: usize)
    requires
        layout.inv(),
    ensures
        layout.spec_bottom_window(index, max) matches Some(j) ==> layout.spec_top_window(j, max)
            == Some(index),
        layout.spec_top_window(index, max) matches Some(j) ==> layout.spec_bottom_window(j, max)
            == Some(index),
        index < max - layout.masters(max as int) ==> (layout.spec_right_window(index, max) matches Some(
            j,
        ) ==> layout.spec_left_window(j, max) == Some(index)),
        index < 2 * layout.masters(max as int) ==> (layout.spec_left_window(index, max) matches Some(
            j,
        ) ==> layout.spec_right_window(j, max) == Some(index)),
{
}

} // verus!
