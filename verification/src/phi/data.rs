use vstd::prelude::*;

verus! {

/// Lengths and positions are whole numbers of micro-pixels: this many make one pixel.
pub const MICRO: i64 = 1_000_000;

/// Every coordinate and size that the game keeps lies within this distance of the origin
/// (2^37 micro-pixels, a little more than twice the widest screen).
pub const WORLD: i64 = 137_438_953_472;

/// An axis-aligned rectangle, in micro-pixels, with `(x, y)` its top-left corner.
#[derive(Clone, Copy, Debug, PartialEq, Eq, Structural)]
pub struct Rectangle {
    pub x: i64,
    pub y: i64,
    pub w: i64,
    pub h: i64,
}

/// A value together with the flag that says whether it is still in play.
pub struct MaybeAlive<T> {
    pub alive: bool,
    pub value: T,
}

impl<T> MaybeAlive<T> {
    /// The value if it is alive, nothing otherwise.
    pub fn as_option(self) -> (r: Option<T>)
        ensures
            r == if self.alive { Some(self.value) } else { None::<T> },
    {
        if self.alive {
            Some(self.value)
        } else {
            None
        }
    }
}

/// Whether `v` lies within `WORLD` of the origin.
pub open spec fn in_world(v: int) -> bool {
    -WORLD <= v <= WORLD
}

/// The coordinate nearest to `v` that keeps a span of length `len` inside the span
/// of length `plen` that starts at `p`: a span that sticks out on the low side, or
/// touches the high end, is moved to that end.
pub open spec fn fit_axis(v: int, len: int, p: int, plen: int) -> int {
    if v < p {
        p
    } else if v + len >= p + plen {
        p + plen - len
    } else {
        v
    }
}

impl Rectangle {
    /// Coordinates within the world, sizes non-negative and within the world.
    pub open spec fn bounded(self) -> bool {
        &&& in_world(self.x as int)
        &&& in_world(self.y as int)
        &&& 0 <= self.w <= WORLD
        &&& 0 <= self.h <= WORLD
    }

    /// The two rectangles share a region of positive area.
    pub open spec fn overlaps_spec(self, other: Rectangle) -> bool {
        &&& self.x < other.x + other.w
        &&& self.x + self.w > other.x
        &&& self.y < other.y + other.h
        &&& self.y + self.h > other.y
    }

    /// Both corners of `rect` lie within `self`, borders included.
    pub open spec fn contains_spec(self, rect: Rectangle) -> bool {
        &&& self.x <= rect.x <= self.x + self.w
        &&& self.x <= rect.x + rect.w <= self.x + self.w
        &&& self.y <= rect.y <= self.y + self.h
        &&& self.y <= rect.y + rect.h <= self.y + self.h
    }

    /// The point at the middle of the rectangle (halves rounded down).
    pub open spec fn center_spec(self) -> (int, int) {
        (self.x + self.w / 2, self.y + self.h / 2)
    }

    /// The rectangle of the same size whose middle is at `center`.
    pub open spec fn center_at_spec(self, center: (i64, i64)) -> Rectangle {
        Rectangle {
            x: (center.0 - self.w / 2) as i64,
            y: (center.1 - self.h / 2) as i64,
            w: self.w,
            h: self.h,
        }
    }

    /// Whether a rectangle of this size can be placed inside `parent`.
    pub open spec fn fits_in(self, parent: Rectangle) -> bool {
        self.w <= parent.w && self.h <= parent.h
    }

    /// The rectangle moved, axis by axis, to lie inside `parent`.
    pub open spec fn moved_inside(self, parent: Rectangle) -> Rectangle {
        Rectangle {
            x: fit_axis(self.x as int, self.w as int, parent.x as int, parent.w as int) as i64,
            y: fit_axis(self.y as int, self.h as int, parent.y as int, parent.h as int) as i64,
            w: self.w,
            h: self.h,
        }
    }

    /// A rectangle of the given size at the origin.
    pub fn with_size(w: i64, h: i64) -> (r: Rectangle)
        ensures
            r == (Rectangle { x: 0, y: 0, w, h }),
    {
        Rectangle { x: 0, y: 0, w, h }
    }

    /// Whether the two rectangles overlap. Rectangles that only touch along a
    /// border do not.
    pub fn overlaps(&self, other: Rectangle) -> (r: bool)
        ensures
            r == self.overlaps_spec(other),
    {
        (self.x as i128) < other.x as i128 + other.w as i128
            && self.x as i128 + self.w as i128 > other.x as i128
            && (self.y as i128) < other.y as i128 + other.h as i128
            && self.y as i128 + self.h as i128 > other.y as i128
    }

    /// Whether `rect` lies entirely within this rectangle.
    pub fn contains(&self, rect: Rectangle) -> (r: bool)
        ensures
            r == self.contains_spec(rect),
    {
        let xmin: i128 = rect.x as i128;
        let xmax: i128 = xmin + rect.w as i128;
        let ymin: i128 = rect.y as i128;
        let ymax: i128 = ymin + rect.h as i128;
        let right: i128 = self.x as i128 + self.w as i128;
        let bottom: i128 = self.y as i128 + self.h as i128;
        xmin >= self.x as i128 && xmin <= right && xmax >= self.x as i128 && xmax <= right
            && ymin >= self.y as i128 && ymin <= bottom && ymax >= self.y as i128
            && ymax <= bottom
    }

    /// The middle of the rectangle.
    pub fn center(&self) -> (r: (i64, i64))
        requires
            self.bounded(),
        ensures
            (r.0 as int, r.1 as int) == self.center_spec(),
    {
        (self.x + self.w / 2, self.y + self.h / 2)
    }

    /// The same rectangle with its middle moved to `center`.
    pub fn center_at(self, center: (i64, i64)) -> (r: Rectangle)
        requires
            0 <= self.w,
            0 <= self.h,
            i64::MIN <= center.0 - self.w / 2,
            i64::MIN <= center.1 - self.h / 2,
        ensures
            r == self.center_at_spec(center),
            r.x == center.0 - self.w / 2,
            r.y == center.1 - self.h / 2,
    {
        Rectangle { x: center.0 - self.w / 2, y: center.1 - self.h / 2, w: self.w, h: self.h }
    }

    /// Moves the rectangle inside `parent`, or reports that it is too large to fit.
    pub fn move_inside(self, parent: Rectangle) -> (r: Option<Rectangle>)
        requires
            self.bounded(),
            parent.bounded(),
        ensures
            r == if self.fits_in(parent) {
                Some(self.moved_inside(parent))
            } else {
                None::<Rectangle>
            },
    {
        if self.w > parent.w || self.h > parent.h {
            return None;
        }
        let x: i64 = if self.x < parent.x {
            parent.x
        } else if self.x + self.w >= parent.x + parent.w {
            parent.x + parent.w - self.w
        } else {
            self.x
        };
        let y: i64 = if self.y < parent.y {
            parent.y
        } else if self.y + self.h >= parent.y + parent.h {
            parent.y + parent.h - self.h
        } else {
            self.y
        };
        Some(Rectangle { x, y, w: self.w, h: self.h })
    }
}

/// A rectangle that fits is moved to a place where its parent contains it, keeps
/// its size, and stays where it is if it lay inside its parent without touching
/// the parent's right or lower border.
pub proof fn lemma_moved_inside_is_contained(rect: Rectangle, parent: Rectangle)
    requires
        rect.bounded(),
        parent.bounded(),
        rect.fits_in(parent),
    ensures
        parent.contains_spec(rect.moved_inside(parent)),
        rect.moved_inside(parent).w == rect.w,
        rect.moved_inside(parent).h == rect.h,
        parent.x <= rect.x && rect.x + rect.w < parent.x + parent.w && parent.y <= rect.y
            && rect.y + rect.h < parent.y + parent.h ==> rect.moved_inside(parent) == rect,
{
}

/// The quotient of `a` by a positive `b`, rounded toward zero.
pub open spec fn div_toward_zero(a: int, b: int) -> int {
    if a >= 0 {
        a / b
    } else {
        -((-a) / b)
    }
}

/// Rounding toward zero never moves a quotient away from zero, nor by a whole unit.
pub proof fn lemma_div_toward_zero_bounds(a: int, b: int)
    by (nonlinear_arith)
    requires
        b > 0,
    ensures
        a >= 0 ==> 0 <= div_toward_zero(a, b) * b <= a < (div_toward_zero(a, b) + 1) * b,
        a <= 0 ==> (div_toward_zero(a, b) - 1) * b < a <= div_toward_zero(a, b) * b <= 0,
        div_toward_zero(-a, b) == -div_toward_zero(a, b),
{
    if a >= 0 {
        assert(a == b * (a / b) + a % b);
        assert(0 <= a % b < b);
    }
    if a <= 0 {
        assert(-a == b * ((-a) / b) + (-a) % b);
        assert(0 <= (-a) % b < b);
    }
}

/// The size of the drawing surface, in whole pixels.
#[derive(Clone, Copy, Debug, PartialEq, Eq, Structural)]
pub struct Screen {
    pub w: u16,
    pub h: u16,
}

impl Screen {
    /// The width in micro-pixels.
    pub open spec fn width(self) -> int {
        self.w * MICRO
    }

    /// The height in micro-pixels.
    pub open spec fn height(self) -> int {
        self.h * MICRO
    }

    pub fn new(w: u16, h: u16) -> (r: Screen)
        ensures
            r == (Screen { w, h }),
    {
        Screen { w, h }
    }

    /// The width and the height in micro-pixels.
    pub fn size(&self) -> (r: (i64, i64))
        ensures
            r.0 == self.width(),
            r.1 == self.height(),
            0 <= r.0 <= 65_535_000_000 < WORLD,
            0 <= r.1 <= 65_535_000_000 < WORLD,
    {
        (self.w as i64 * MICRO, self.h as i64 * MICRO)
    }
}

/// The values that are there, in their order.
pub open spec fn keep_some<T>(s: Seq<Option<T>>) -> Seq<T>
    decreases s.len(),
{
    if s.len() == 0 {
        Seq::empty()
    } else {
        match s.last() {
            Some(v) => keep_some(s.drop_last()).push(v),
            None => keep_some(s.drop_last()),
        }
    }
}

/// Taking one more entry in adds its value, if it has one, at the end.
pub proof fn lemma_keep_some_step<T>(s: Seq<Option<T>>, i: int)
    requires
        0 <= i < s.len(),
    ensures
        keep_some(s.take(i + 1)) == match s[i] {
            Some(v) => keep_some(s.take(i)).push(v),
            None => keep_some(s.take(i)),
        },
{
    assert(s.take(i + 1).drop_last() =~= s.take(i));
    assert(s.take(i + 1).last() == s[i]);
}

/// Of no entries nothing is kept.
pub proof fn lemma_keep_some_start<T>(s: Seq<Option<T>>)
    ensures
        keep_some(s.take(0)) == Seq::<T>::empty(),
        keep_some(s.take(s.len() as int)) == keep_some(s),
{
    assert(s.take(0).len() == 0);
    assert(s.take(s.len() as int) =~= s);
}

/// The place in `s` of the value that is kept at place `k`.
pub open spec fn kept_from<T>(s: Seq<Option<T>>, k: int) -> int
    decreases s.len(),
{
    if s.len() == 0 {
        0
    } else if s.last() is Some && k == keep_some(s.drop_last()).len() {
        s.len() - 1
    } else {
        kept_from(s.drop_last(), k)
    }
}

/// What is kept keeps its order. Each value kept stands in the sequence, at the
/// place that `kept_from` gives, and of two values kept the earlier one stands
/// earlier in the sequence. No more values are kept than there are entries.
pub proof fn lemma_keep_some_keeps_order<T>(s: Seq<Option<T>>)
    ensures
        keep_some(s).len() <= s.len(),
        forall|k: int|
            0 <= k < keep_some(s).len() ==> 0 <= #[trigger] kept_from(s, k) < s.len()
                && s[kept_from(s, k)] == Some(keep_some(s)[k]),
        forall|k1: int, k2: int|
            0 <= k1 < k2 < keep_some(s).len()
                ==> #[trigger] kept_from(s, k1) < #[trigger] kept_from(s, k2),
    decreases s.len(),
{
    if s.len() > 0 {
        let front = s.drop_last();
        lemma_keep_some_keeps_order(front);
        assert forall|k: int| 0 <= k < keep_some(s).len() implies 0 <= #[trigger] kept_from(s, k)
            < s.len() && s[kept_from(s, k)] == Some(keep_some(s)[k]) by {
            if k < keep_some(front).len() {
                assert(kept_from(s, k) == kept_from(front, k));
                assert(s[kept_from(front, k)] == front[kept_from(front, k)]);
            }
        }
        assert forall|k1: int, k2: int|
            0 <= k1 < k2 < keep_some(s).len() implies #[trigger] kept_from(s, k1)
            < #[trigger] kept_from(s, k2) by {
            assert(kept_from(s, k1) == kept_from(front, k1));
            if k2 < keep_some(front).len() {
                assert(kept_from(s, k2) == kept_from(front, k2));
            }
        }
    }
}

/// Where every entry has a value, all are kept; where none has, none is.
pub proof fn lemma_keep_some_all_or_none<T>(s: Seq<Option<T>>)
    ensures
        (forall|i: int| 0 <= i < s.len() ==> (#[trigger] s[i]) is Some) ==> keep_some(s).len()
            == s.len(),
        (forall|i: int| 0 <= i < s.len() ==> (#[trigger] s[i]) is None) ==> keep_some(s).len()
            == 0,
    decreases s.len(),
{
    if s.len() > 0 {
        let front = s.drop_last();
        lemma_keep_some_all_or_none(front);
        if forall|i: int| 0 <= i < s.len() ==> (#[trigger] s[i]) is Some {
            assert forall|i: int| 0 <= i < front.len() implies (#[trigger] front[i]) is Some by {
                assert(front[i] == s[i]);
            }
            assert(s[s.len() - 1] is Some);
        }
        if forall|i: int| 0 <= i < s.len() ==> (#[trigger] s[i]) is None {
            assert forall|i: int| 0 <= i < front.len() implies (#[trigger] front[i]) is None by {
                assert(front[i] == s[i]);
            }
            assert(s[s.len() - 1] is None);
        }
    }
}

} // verus!
