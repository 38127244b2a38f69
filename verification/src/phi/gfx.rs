use vstd::prelude::*;
use vstd::arithmetic::div_mod::{
    lemma_fundamental_div_mod,
    lemma_hoist_over_denominator,
    lemma_mod_multiples_vanish,
};
use crate::phi::data::{Rectangle, MICRO, WORLD};

verus! {

/// A colour, by its red, green and blue parts.
#[derive(Clone, Copy, Debug, PartialEq, Eq, Structural)]
pub struct Color {
    pub r: u8,
    pub g: u8,
    pub b: u8,
}

impl Color {
    pub fn rgb(r: u8, g: u8, b: u8) -> (c: Color)
        ensures
            c == (Color { r, g, b }),
    {
        Color { r, g, b }
    }
}

/// What the game knows of an image, or of a part of one: the region of the image
/// that it covers.
#[derive(Clone, Copy, Debug, PartialEq, Eq, Structural)]
pub struct Sprite {
    pub src: Rectangle,
}

impl Sprite {
    /// The region lies within the world, right of and below the origin.
    pub open spec fn wf(self) -> bool {
        &&& 0 <= self.src.x
        &&& 0 <= self.src.y
        &&& 0 <= self.src.w
        &&& 0 <= self.src.h
        &&& self.src.x + self.src.w <= WORLD
        &&& self.src.y + self.src.h <= WORLD
    }

    /// The part of this sprite that `rect` cuts out of it, `rect` being given
    /// relative to the sprite's own corner, if it lies within the sprite.
    pub open spec fn region_spec(self, rect: Rectangle) -> Option<Sprite> {
        let cut = Rectangle {
            x: (rect.x + self.src.x) as i64,
            y: (rect.y + self.src.y) as i64,
            w: rect.w,
            h: rect.h,
        };
        if self.src.contains_spec(cut) {
            Some(Sprite { src: cut })
        } else {
            None
        }
    }

    /// A whole image of the given size in pixels. Images are at most 65535
    /// pixels wide and high.
    pub fn of_pixels(w: u16, h: u16) -> (r: Sprite)
        ensures
            r == (Sprite {
                src: Rectangle { x: 0, y: 0, w: (w * MICRO) as i64, h: (h * MICRO) as i64 },
            }),
            r.src.w == w * 1_000_000,
            r.src.h == h * 1_000_000,
            r.wf(),
    {
        Sprite { src: Rectangle { x: 0, y: 0, w: w as i64 * MICRO, h: h as i64 * MICRO } }
    }

    /// A whole image of the given size.
    pub fn new(w: i64, h: i64) -> (r: Sprite)
        ensures
            r == (Sprite { src: Rectangle { x: 0, y: 0, w, h } }),
    {
        Sprite { src: Rectangle { x: 0, y: 0, w, h } }
    }

    /// The width and the height.
    pub fn size(&self) -> (r: (i64, i64))
        ensures
            r == (self.src.w, self.src.h),
    {
        (self.src.w, self.src.h)
    }

    /// Cuts a part out of the sprite, if `rect` lies within it.
    pub fn region(&self, rect: Rectangle) -> (r: Option<Sprite>)
        requires
            self.wf(),
            rect.bounded(),
        ensures
            r == self.region_spec(rect),
            r matches Some(part) ==> part.wf(),
    {
        let cut = Rectangle { x: rect.x + self.src.x, y: rect.y + self.src.y, w: rect.w, h: rect.h };
        if self.src.contains(cut) {
            Some(Sprite { src: cut })
        } else {
            None
        }
    }
}

/// How a sprite sheet is cut into the frames of an animation: a grid of
/// `frames_wide` by `frames_high` cells of `frame_w` by `frame_h` micro-pixels,
/// read row by row, of which the first `total_frames` are used.
#[derive(Clone, Copy, Debug)]
pub struct AnimatedSpriteDescr {
    pub image_path: &'static str,
    pub total_frames: u32,
    pub frames_high: u32,
    pub frames_wide: u32,
    pub frame_w: i64,
    pub frame_h: i64,
}

/// The frame that an animation of `total` frames shows after `t` microseconds at
/// `fps` frames per second: it plays from the start and loops for ever.
pub open spec fn frame_at(total: int, fps: int, t: int) -> int {
    (t * fps / 1_000_000) % total
}

/// The time after which an animation of `total` frames shows the same frame
/// again, whatever its rate: one second for each of its frames.
pub open spec fn loop_period(total: int) -> int {
    total * 1_000_000
}

impl AnimatedSpriteDescr {
    /// There is at least one frame, the grid has room for all of them, and the
    /// sheet lies within the world.
    pub open spec fn valid(self) -> bool {
        &&& 1 <= self.total_frames
        &&& self.total_frames <= self.frames_wide * self.frames_high
        &&& 0 <= self.frame_w
        &&& 0 <= self.frame_h
        &&& self.frames_wide * self.frame_w <= WORLD
        &&& self.frames_high * self.frame_h <= WORLD
    }

    /// The cell of the sheet that holds frame `index`.
    pub open spec fn region(self, index: int) -> Rectangle {
        Rectangle {
            x: (self.frame_w * (index % (self.frames_wide as int))) as i64,
            y: (self.frame_h * (index / (self.frames_wide as int))) as i64,
            w: self.frame_w,
            h: self.frame_h,
        }
    }

    /// The cell of the sheet that holds frame `index`.
    pub fn frame_region(&self, index: u32) -> (r: Rectangle)
        requires
            self.valid(),
            index < self.total_frames,
        ensures
            r == self.region(index as int),
            r.x == self.frame_w * (index % self.frames_wide),
            r.y == self.frame_h * (index / self.frames_wide),
            0 <= r.x && r.x + r.w <= self.frames_wide * self.frame_w,
            0 <= r.y && r.y + r.h <= self.frames_high * self.frame_h,
    {
        proof {
            lemma_cell_in_grid(
                index as int,
                self.frames_wide as int,
                self.frames_high as int,
                self.frame_w as int,
                self.frame_h as int,
            );
        }
        let col: i64 = (index % self.frames_wide) as i64;
        let row: i64 = (index / self.frames_wide) as i64;
        Rectangle { x: self.frame_w * col, y: self.frame_h * row, w: self.frame_w, h: self.frame_h }
    }

    /// The cells of all the frames, in playing order.
    pub fn load_frames(&self) -> (r: Vec<Rectangle>)
        requires
            self.valid(),
        ensures
            r.len() == self.total_frames,
            forall|i: int| 0 <= i < r.len() ==> #[trigger] r[i] == self.region(i),
    {
        let mut frames: Vec<Rectangle> = Vec::new();
        let mut i: u32 = 0;
        while i < self.total_frames
            invariant
                self.valid(),
                0 <= i <= self.total_frames,
                frames.len() == i,
                forall|j: int| 0 <= j < frames.len() ==> #[trigger] frames[j] == self.region(j),
            decreases self.total_frames - i,
        {
            let cell = self.frame_region(i);
            frames.push(cell);
            i += 1;
        }
        frames
    }
}

/// Cell `index` of a grid, counted row by row, lies inside the grid.
proof fn lemma_cell_in_grid(index: int, wide: int, high: int, w: int, h: int)
    by (nonlinear_arith)
    requires
        0 <= index < wide * high,
        0 <= wide,
        0 <= high,
        0 <= w,
        0 <= h,
    ensures
        0 < wide,
        0 <= index % wide < wide,
        0 <= index / wide < high,
        0 <= w * (index % wide),
        w * (index % wide) + w <= wide * w,
        0 <= h * (index / wide),
        h * (index / wide) + h <= high * h,
{
    assert(0 < wide);
    assert(index == wide * (index / wide) + index % wide);
    assert(0 <= index % wide < wide);
    assert(index / wide < high) by {
        if index / wide >= high {
            assert(wide * (index / wide) >= wide * high);
        }
    }
    assert(0 <= index / wide);
}

/// The playing state of an animation: how many frames it has, its rate in frames
/// per second, and the time it has played, kept modulo the loop period.
#[derive(Clone, Copy, Debug, PartialEq, Eq, Structural)]
pub struct AnimatedSprite {
    pub total_frames: u32,
    pub fps: u32,
    pub current_time: u64,
}

impl AnimatedSprite {
    /// There is a frame to show, and the time is within one loop period.
    pub open spec fn wf(self) -> bool {
        &&& self.total_frames >= 1
        &&& self.current_time < loop_period(self.total_frames as int)
    }

    /// The frame on display.
    pub open spec fn frame_index(self) -> int {
        frame_at(self.total_frames as int, self.fps as int, self.current_time as int)
    }

    /// An animation at its start, at one frame per second.
    pub fn new(total_frames: u32) -> (r: AnimatedSprite)
        requires
            total_frames >= 1,
        ensures
            r == (AnimatedSprite { total_frames, fps: 1, current_time: 0 }),
            r.wf(),
    {
        AnimatedSprite { total_frames, fps: 1, current_time: 0 }
    }

    /// An animation at its start, at the given rate.
    pub fn with_fps(total_frames: u32, fps: u32) -> (r: AnimatedSprite)
        requires
            total_frames >= 1,
        ensures
            r == (AnimatedSprite { total_frames, fps, current_time: 0 }),
            r.wf(),
            r.frame_index() == 0,
    {
        assert(0 * (fps as int) / 1_000_000 % (total_frames as int) == 0) by (nonlinear_arith)
            requires
                total_frames >= 1,
        ;
        AnimatedSprite { total_frames, fps, current_time: 0 }
    }

    /// Changes the rate. The time played so far now counts at the new rate.
    pub fn set_fps(&mut self, fps: u32)
        ensures
            *final(self) == (AnimatedSprite { fps, ..*old(self) }),
    {
        self.fps = fps;
    }

    /// Lets the animation play for `dt` more microseconds.
    pub fn add_time(&mut self, dt: u64)
        requires
            old(self).wf(),
        ensures
            final(self).wf(),
            final(self).total_frames == old(self).total_frames,
            final(self).fps == old(self).fps,
            final(self).current_time == (old(self).current_time + dt) % loop_period(
                old(self).total_frames as int,
            ),
            final(self).frame_index() == frame_at(
                old(self).total_frames as int,
                old(self).fps as int,
                old(self).current_time + dt,
            ),
    {
        let period: u128 = self.total_frames as u128 * 1_000_000;
        let sum: u128 = self.current_time as u128 + dt as u128;
        proof {
            lemma_frame_reduced(self.total_frames as int, self.fps as int, sum as int);
        }
        self.current_time = (sum % period) as u64;
    }

    /// The index of the frame on display.
    pub fn frame(&self) -> (r: u32)
        requires
            self.wf(),
        ensures
            r == self.frame_index(),
            r < self.total_frames,
    {
        assert(0 <= self.current_time as int * self.fps as int <= 0xffff_ffff_ffff_ffff
            * 0xffff_ffff) by (nonlinear_arith);
        let ticks: u128 = self.current_time as u128 * self.fps as u128;
        ((ticks / 1_000_000) % (self.total_frames as u128)) as u32
    }
}

/// Animation looping: whole loop periods do not show. After `k` more periods of
/// `total` seconds the animation is at the frame where it was.
pub proof fn lemma_frame_periodic(total: int, fps: int, t: int, k: int)
    requires
        total > 0,
    ensures
        frame_at(total, fps, t + k * loop_period(total)) == frame_at(total, fps, t),
{
    let m = 1_000_000int;
    let x = t * fps;
    let j = k * fps * total;
    assert((t + k * (total * m)) * fps == x + j * m) by (nonlinear_arith)
        requires
            x == t * fps,
            j == k * fps * total,
    ;
    lemma_hoist_over_denominator(x, j, m as nat);
    assert((x + j * m) / m == x / m + j);
    assert(j == total * (k * fps)) by (nonlinear_arith)
        requires
            j == k * fps * total,
    ;
    lemma_mod_multiples_vanish(k * fps, x / m, total);
    assert((total * (k * fps) + x / m) % total == (x / m) % total);
    assert(x / m + j == total * (k * fps) + x / m);
}

/// The frame depends on the time only through its remainder by the loop period.
pub proof fn lemma_frame_reduced(total: int, fps: int, t: int)
    requires
        total > 0,
    ensures
        frame_at(total, fps, t % loop_period(total)) == frame_at(total, fps, t),
        0 <= t % loop_period(total) < loop_period(total),
{
    let p = loop_period(total);
    lemma_fundamental_div_mod(t, p);
    assert(t == t % p + (t / p) * p) by (nonlinear_arith)
        requires
            t == p * (t / p) + t % p,
    ;
    lemma_frame_periodic(total, fps, t % p, t / p);
}

/// An animation that has played an exact number of rounds is back at frame 0:
/// at `fps` frames per second, `total` frames take `total / fps` seconds, so a
/// time `t` with `fps * t == rounds * total * 1_000_000` ends a round.
pub proof fn lemma_whole_rounds_return_to_start(total: int, fps: int, t: int, rounds: int)
    requires
        total > 0,
        t * fps == rounds * total * 1_000_000,
    ensures
        frame_at(total, fps, t) == 0,
{
    let m = 1_000_000int;
    assert(t * fps == m * (rounds * total)) by (nonlinear_arith)
        requires
            t * fps == rounds * total * 1_000_000,
            m == 1_000_000,
    ;
    vstd::arithmetic::div_mod::lemma_div_multiples_vanish(rounds * total, m);
    assert(t * fps / m == rounds * total);
    lemma_mod_multiples_vanish(rounds, 0, total);
    assert(rounds * total == total * rounds + 0) by (nonlinear_arith);
}

} // verus!
