//! Where the popups go: the absolute position of the focused field, and the
//! position of the editor popup that keeps it on the field's monitor.

use vstd::arithmetic::div_mod::{lemma_fundamental_div_mod, lemma_mod_multiples_vanish};
use vstd::prelude::*;

verus! {

/// The gap, in pixels, left between the anchor and a popup shown above it.
pub const POPUP_GAP: i32 = 40;

/// The number of values a 16-bit coordinate can take.
pub const COORD_RANGE: i32 = 0x1_0000;

/// The 16-bit coordinate that stands for `v`: `v` itself when it fits, else
/// the one value of the coordinate range that differs from `v` by a multiple
/// of 2^16.
pub open spec fn wrap_coord(v: int) -> i16 {
    let m = v % (COORD_RANGE as int);
    if m > i16::MAX {
        (m - COORD_RANGE) as i16
    } else {
        m as i16
    }
}

/// A coordinate that fits is left as it is.
pub proof fn lemma_wrap_coord_fits(v: int)
    requires
        i16::MIN <= v <= i16::MAX,
    ensures
        wrap_coord(v) == v,
{
    lemma_wrap_coord_unique(v, v, 0);
}

/// A 16-bit value that differs from `v` by a multiple of 2^16 is `wrap_coord(v)`.
pub proof fn lemma_wrap_coord_unique(v: int, r: int, k: int)
    requires
        i16::MIN <= r <= i16::MAX,
        v == r + k * COORD_RANGE,
    ensures
        wrap_coord(v) == r,
{
    let range = COORD_RANGE as int;
    // `v` and `r` leave the same remainder, and `r` is one range at most
    // away from its own.
    lemma_mod_multiples_vanish(k, r, range);
    lemma_fundamental_div_mod(r, range);
}

/// Reduces `v` to a 16-bit coordinate.
pub fn to_coord(v: i32) -> (r: i16)
    ensures
        r == wrap_coord(v as int),
{
    let shifted: i64 = v as i64 + 0x1_0000_0000;
    let m: i64 = shifted % 0x1_0000;
    proof {
        lemma_mod_multiples_vanish(0x1_0000, v as int, 0x1_0000);
    }
    if m > 0x7fff {
        (m - 0x1_0000) as i16
    } else {
        m as i16
    }
}

/// A monitor's rectangle on the screen.
#[derive(Clone, Copy, Debug, PartialEq, Eq, Structural)]
pub struct Monitor {
    pub x: i16,
    pub y: i16,
    pub width: u16,
    pub height: u16,
}

impl Monitor {
    /// A monitor with its upper-left corner at `(x, y)`.
    pub fn new(x: i16, y: i16, width: u16, height: u16) -> (m: Self)
        ensures
            m == (Monitor { x, y, width, height }),
    {
        Monitor { x, y, width, height }
    }

    /// The vertical coordinate of the top edge.
    pub open spec fn top(self) -> int {
        self.y as int
    }

    /// The vertical coordinate of the bottom edge.
    pub open spec fn bottom(self) -> int {
        self.y + self.height
    }

    /// The horizontal coordinate of the left edge.
    pub open spec fn left(self) -> int {
        self.x as int
    }

    /// The horizontal coordinate of the right edge.
    pub open spec fn right(self) -> int {
        self.x + self.width
    }

    /// Whether the point lies on the monitor, its edges included.
    pub open spec fn spec_contains(&self, x: i16, y: i16) -> bool {
        &&& self.left() <= x <= self.right()
        &&& self.top() <= y <= self.bottom()
    }

    /// Whether the point lies on the monitor, its edges included.
    #[verifier::when_used_as_spec(spec_contains)]
    pub fn contains(&self, x: i16, y: i16) -> (b: bool)
        ensures
            b == self.spec_contains(x, y),
    {
        let px: i32 = x as i32;
        let py: i32 = y as i32;
        let x_in = self.x <= x && px <= self.x as i32 + self.width as i32;
        let y_in = self.y <= y && py <= self.y as i32 + self.height as i32;
        x_in && y_in
    }
}

/// The size of a popup window.
#[derive(Clone, Copy, Debug, PartialEq, Eq, Structural)]
pub struct Size {
    pub width: u16,
    pub height: u16,
}

impl Size {
    /// A size of `width` by `height` pixels.
    pub fn new(width: u16, height: u16) -> (s: Self)
        ensures
            s == (Size { width, height }),
    {
        Size { width, height }
    }
}

/// Whether `i` is the first monitor of the list that contains the point.
pub open spec fn is_first_containing(monitors: Seq<Monitor>, x: i16, y: i16, i: int) -> bool {
    &&& 0 <= i < monitors.len()
    &&& monitors[i].contains(x, y)
    &&& forall|j: int| 0 <= j < i ==> !(#[trigger] monitors[j]).contains(x, y)
}

/// The monitor that a popup anchored at the point is placed on: the first one
/// that contains the point; if none does, the first of the list; none if the
/// list is empty.
pub open spec fn chosen_monitor(monitors: Seq<Monitor>, x: i16, y: i16) -> Option<Monitor> {
    if exists|i: int| is_first_containing(monitors, x, y, i) {
        Some(monitors[choose|i: int| is_first_containing(monitors, x, y, i)])
    } else if monitors.len() > 0 {
        Some(monitors[0])
    } else {
        None
    }
}

/// Picks the monitor for a popup anchored at `(x, y)`.
pub fn select_monitor(monitors: &[Monitor], x: i16, y: i16) -> (chosen: Option<Monitor>)
    ensures
        chosen == chosen_monitor(monitors@, x, y),
{
    let mut i: usize = 0;
    while i < monitors.len()
        invariant
            i <= monitors.len(),
            forall|j: int| 0 <= j < i ==> !(#[trigger] monitors@[j]).contains(x, y),
        decreases monitors.len() - i,
    {
        if monitors[i].contains(x, y) {
            assert(is_first_containing(monitors@, x, y, i as int));
            return Some(monitors[i]);
        }
        i += 1;
    }
    if monitors.len() > 0 {
        Some(monitors[0])
    } else {
        None
    }
}

/// The upper-left corner of a popup of the given size that is anchored at
/// `(x, y)` and kept on `monitor`. Four rules apply, in this order and each on
/// what the earlier ones left:
///
/// 1. a top above the monitor's top moves to the monitor's top;
/// 2. a left edge left of the monitor's moves to the monitor's left edge;
/// 3. a bottom below the monitor's bottom puts the popup above the anchor,
///    `POPUP_GAP` pixels away from it;
/// 4. a right edge beyond the monitor's moves the popup left until its right
///    edge is the monitor's.
///
/// The third rule does not look at the top again.
pub open spec fn placed_on(monitor: Monitor, x: int, y: int, size: Size) -> (int, int) {
    let top = if y < monitor.top() {
        monitor.top()
    } else {
        y
    };
    let left = if x < monitor.left() {
        monitor.left()
    } else {
        x
    };
    let top = if monitor.bottom() < top + size.height {
        y - size.height - POPUP_GAP
    } else {
        top
    };
    let left = if monitor.right() < left + size.width {
        monitor.right() - size.width
    } else {
        left
    };
    (left, top)
}

/// A popup that is no wider than the monitor ends up between the monitor's
/// left and right edges.
pub proof fn lemma_placed_within_width(monitor: Monitor, x: int, y: int, size: Size)
    requires
        size.width <= monitor.width,
    ensures
        monitor.left() <= placed_on(monitor, x, y, size).0,
        placed_on(monitor, x, y, size).0 + size.width <= monitor.right(),
{
}

/// A popup either lies between the monitor's top and bottom edges, or it
/// sits above the anchor with its bottom edge `POPUP_GAP` pixels away.
pub proof fn lemma_placed_below_or_above(monitor: Monitor, x: int, y: int, size: Size)
    ensures
        ({
            let top = placed_on(monitor, x, y, size).1;
            ||| monitor.top() <= top && top + size.height <= monitor.bottom()
            ||| top + size.height + POPUP_GAP == y
        }),
{
}

/// The upper-left corner of the editor popup for the anchor `(x, y)`: the
/// anchor itself where no monitor is known, else the corner that
/// [`placed_on`] gives for the chosen monitor.
pub open spec fn adjusted_position(monitors: Seq<Monitor>, x: i16, y: i16, size: Size) -> (
    int,
    int,
) {
    match chosen_monitor(monitors, x, y) {
        Some(monitor) => placed_on(monitor, x as int, y as int, size),
        None => (x as int, y as int),
    }
}

/// Calculates a better position of the editor popup so that it does not leave
/// the monitor, and returns the adjusted position as 16-bit coordinates.
pub fn adjust_vime_window_position(x: i16, y: i16, monitors: &[Monitor], size: Size) -> (pos: (
    i16,
    i16,
))
    ensures
        pos.0 == wrap_coord(adjusted_position(monitors@, x, y, size).0),
        pos.1 == wrap_coord(adjusted_position(monitors@, x, y, size).1),
{
    let monitor = match select_monitor(monitors, x, y) {
        Some(monitor) => monitor,
        None => {
            proof {
                lemma_wrap_coord_fits(x as int);
                lemma_wrap_coord_fits(y as int);
            }
            return (x, y);
        },
    };
    let mon_t: i32 = monitor.y as i32;
    let mon_b: i32 = monitor.y as i32 + monitor.height as i32;
    let mon_l: i32 = monitor.x as i32;
    let mon_r: i32 = monitor.x as i32 + monitor.width as i32;
    let w: i32 = size.width as i32;
    let h: i32 = size.height as i32;
    let mut win_x: i32 = x as i32;
    let mut win_y: i32 = y as i32;

    if win_y < mon_t {
        win_y = mon_t;
    }
    if win_x < mon_l {
        win_x = mon_l;
    }
    if mon_b < win_y + h {
        win_y = y as i32 - h - POPUP_GAP;
    }
    if mon_r < win_x + w {
        win_x = mon_r - w;
    }
    (to_coord(win_x), to_coord(win_y))
}

/// The sum of the horizontal offsets of a chain of windows.
pub open spec fn sum_x(offsets: Seq<(i16, i16)>) -> int
    decreases offsets.len(),
{
    if offsets.len() == 0 {
        0
    } else {
        sum_x(offsets.drop_last()) + offsets.last().0
    }
}

/// The sum of the vertical offsets of a chain of windows.
pub open spec fn sum_y(offsets: Seq<(i16, i16)>) -> int
    decreases offsets.len(),
{
    if offsets.len() == 0 {
        0
    } else {
        sum_y(offsets.drop_last()) + offsets.last().1
    }
}

/// Adding an offset to a wrapped coordinate, wrapping again, gives the
/// wrapped sum.
pub proof fn lemma_wrap_coord_add(s: int, d: i16)
    ensures
        wrap_coord(s).wrapping_add(d) == wrap_coord(s + d),
{
    let range = COORD_RANGE as int;
    let a = wrap_coord(s);
    // `s` is `a` and `k` ranges.
    lemma_fundamental_div_mod(s, range);
    let k = if s % range > i16::MAX {
        s / range + 1
    } else {
        s / range
    };
    // The wrapping sum is `a + d` less `j` ranges.
    let r = a.wrapping_add(d) as int;
    let j: int = if a + d > i16::MAX {
        1
    } else if a + d < i16::MIN {
        -1
    } else {
        0
    };
    lemma_wrap_coord_unique(s + d, r, k + j);
}

/// Calculates the absolute position of the upper-left corner of a window from
/// the offsets of the window and of each of its ancestors, every offset taken
/// relative to the parent. The sums are kept as 16-bit coordinates.
pub fn absolute_position(offsets: &[(i16, i16)]) -> (pos: (i16, i16))
    ensures
        pos.0 == wrap_coord(sum_x(offsets@)),
        pos.1 == wrap_coord(sum_y(offsets@)),
{
    let mut abs_x: i16 = 0;
    let mut abs_y: i16 = 0;
    let mut i: usize = 0;
    while i < offsets.len()
        invariant
            i <= offsets.len(),
            abs_x == wrap_coord(sum_x(offsets@.take(i as int))),
            abs_y == wrap_coord(sum_y(offsets@.take(i as int))),
        decreases offsets.len() - i,
    {
        proof {
            assert(offsets@.take(i + 1).drop_last() == offsets@.take(i as int));
            lemma_wrap_coord_add(sum_x(offsets@.take(i as int)), offsets@[i as int].0);
            lemma_wrap_coord_add(sum_y(offsets@.take(i as int)), offsets@[i as int].1);
        }
        abs_x = abs_x.wrapping_add(offsets[i].0);
        abs_y = abs_y.wrapping_add(offsets[i].1);
        i += 1;
    }
    assert(offsets@.take(offsets@.len() as int) == offsets@);
    (abs_x, abs_y)
}

} // verus!
