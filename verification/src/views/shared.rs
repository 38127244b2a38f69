use vstd::prelude::*;
use crate::phi::data::{Rectangle, Screen, MICRO, WORLD};
use crate::phi::gfx::{Color, Sprite};
use crate::views::game::PlayerFrame;

verus! {

/// One layer of the backdrop. It scrolls to the left at `vel` pixels per second;
/// `pos` says how far, in micro-pixels of the image, it has scrolled into the
/// image.
#[derive(Clone, Copy, Debug, PartialEq, Eq, Structural)]
pub struct Background {
    pub pos: i64,
    pub vel: u32,
    pub sprite: Sprite,
}

/// The three layers of the backdrop.
#[derive(Clone, Copy, Debug, PartialEq, Eq, Structural)]
pub struct BgSet {
    pub back: Background,
    pub middle: Background,
    pub front: Background,
}

/// The layers of the backdrop, from the farthest to the nearest.
#[derive(Clone, Copy, Debug, PartialEq, Eq, Structural)]
pub enum Layer {
    Back,
    Middle,
    Front,
}

/// One step of drawing a frame. The steps of a frame are carried out in their order,
/// so that what comes later lies on top.
#[derive(Clone, Copy, Debug, PartialEq, Eq, Structural)]
pub enum Draw {
    /// Fill the whole screen with a colour.
    Clear(Color),
    /// Fill a rectangle with a colour.
    Fill(Color, Rectangle),
    /// Draw the image of a layer of the backdrop, scaled into the rectangle.
    Backdrop(Layer, Rectangle),
    /// Draw a frame of the ship.
    Ship(PlayerFrame, Rectangle),
    /// Draw the frame of the given index of the asteroid's animation.
    Asteroid(u32, Rectangle),
    /// Draw the frame of the given index of the explosion's animation.
    Explosion(u32, Rectangle),
    /// Draw the label of the menu entry of the given index, in its idle or in
    /// its hover form, at its own size, with its middle at the given point.
    Label { action: usize, hover: bool, center_x: i64, center_y: i64 },
}

impl Background {
    /// The image has a width and is a pixel high at least, and the position lies
    /// within its width.
    pub open spec fn wf(self) -> bool {
        &&& self.sprite.wf()
        &&& self.sprite.src.w > 0
        &&& self.sprite.src.h >= MICRO
        &&& 0 <= self.pos < self.sprite.src.w
    }

    /// Whether an image can be a layer of the backdrop: it has a width, is a pixel
    /// high at least, and lies within the world.
    pub open spec fn suits(sprite: Sprite) -> bool {
        sprite.wf() && sprite.src.w > 0 && sprite.src.h >= MICRO
    }

    /// Whether an image can be a layer of the backdrop.
    pub fn accepts(sprite: &Sprite) -> (r: bool)
        ensures
            r == Background::suits(*sprite),
    {
        let s = sprite.src;
        0 <= s.x && 0 <= s.y && 0 < s.w && MICRO <= s.h && s.x as i128 + s.w as i128
            <= WORLD as i128 && s.y as i128 + s.h as i128 <= WORLD as i128
    }

    /// The position after `elapsed` more microseconds: it advances by the velocity
    /// times the time and wraps at the width of the image.
    pub open spec fn scrolled(self, elapsed: int) -> int {
        (self.pos + self.vel * elapsed) % (self.sprite.src.w as int)
    }

    /// The width at which the image is drawn on `screen`: the image is scaled so
    /// that its height is that of the screen.
    pub open spec fn tile_width(self, screen: Screen) -> int {
        self.sprite.src.w * screen.height() / (self.sprite.src.h as int)
    }

    /// Where the first copy of the image begins on `screen`: left of the screen's
    /// left end by the scrolled distance, scaled as the image is.
    pub open spec fn first_left(self, screen: Screen) -> int {
        -(self.pos * screen.height() / (self.sprite.src.h as int))
    }

    /// Where copy `k` of the image is drawn on `screen`.
    pub open spec fn tile(self, screen: Screen, k: int) -> Rectangle {
        Rectangle {
            x: (self.first_left(screen) + k * self.tile_width(screen)) as i64,
            y: 0,
            w: self.tile_width(screen) as i64,
            h: screen.height() as i64,
        }
    }

    /// How many copies of the image it takes to fill `screen`: from the first
    /// copy's left edge to the screen's right end, in widths of a copy, rounded up.
    pub open spec fn tile_count(self, screen: Screen) -> int {
        if self.shows(screen) {
            (screen.width() - self.first_left(screen) + self.tile_width(screen) - 1)
                / self.tile_width(screen)
        } else {
            0
        }
    }

    /// Where the copies of the image are drawn so that they fill `screen` from
    /// left to right: each as high as the screen, the first beginning at or left
    /// of the screen's left end, each next one where the one before ends, up to
    /// the first that reaches the screen's right end.
    pub open spec fn tiles(self, screen: Screen) -> Seq<Rectangle> {
        Seq::new(self.tile_count(screen) as nat, |k: int| self.tile(screen, k))
    }

    /// Whether anything of the image shows on `screen`: its scaled copy has a width.
    pub open spec fn shows(self, screen: Screen) -> bool {
        self.tile_width(screen) > 0
    }

    /// Moves the layer on by `elapsed` microseconds.
    pub fn update(&mut self, elapsed: u64)
        requires
            old(self).wf(),
        ensures
            final(self).wf(),
            final(self).pos == old(self).scrolled(elapsed as int),
            0 <= final(self).pos < old(self).sprite.src.w,
            final(self).vel == old(self).vel,
            final(self).sprite == old(self).sprite,
    {
        assert(0 <= self.vel as int * elapsed as int <= 0xffff_ffff * 0xffff_ffff_ffff_ffff)
            by (nonlinear_arith);
        let moved: u128 = self.vel as u128 * elapsed as u128;
        let sum: u128 = self.pos as u128 + moved;
        self.pos = (sum % (self.sprite.src.w as u128)) as i64;
    }

    /// Where the copies of the image are drawn so that they fill `screen`: see
    /// `tiles`. Every copy begins left of the screen's right end, and the last
    /// one reaches it. Nothing is drawn where the scaled image has no width.
    pub fn render(&self, screen: &Screen) -> (r: Vec<Rectangle>)
        requires
            self.wf(),
        ensures
            r@ == self.tiles(*screen),
            forall|k: int| 0 <= k < r@.len() ==> (#[trigger] r@[k]).x < screen.width(),
            self.shows(*screen) ==> self.first_left(*screen) + r@.len() * self.tile_width(*screen)
                >= screen.width(),
    {
        let (win_w, win_h) = screen.size();
        let (w, h) = self.sprite.size();
        let mut tiles: Vec<Rectangle> = Vec::new();
        proof {
            lemma_scaled_bounds(w as int, win_h as int, h as int);
            lemma_scaled_bounds(self.pos as int, win_h as int, h as int);
        }
        let tile_w: i128 = w as i128 * win_h as i128 / h as i128;
        if tile_w <= 0 {
            assert(tiles@ =~= self.tiles(*screen));
            return tiles;
        }
        let first: i128 = -(self.pos as i128 * win_h as i128 / h as i128);
        let mut left: i128 = first;
        assert(first + 0 * tile_w == first) by (nonlinear_arith);
        while left < win_w as i128
            invariant
                self.wf(),
                h == self.sprite.src.h,
                h >= MICRO,
                win_w == screen.width(),
                win_h == screen.height(),
                0 <= win_w <= WORLD,
                0 <= win_h <= WORLD,
                tile_w == self.tile_width(*screen),
                0 < tile_w <= WORLD * 65_535,
                first == self.first_left(*screen),
                -WORLD * 65_535 <= first <= 0,
                left == first + tiles@.len() * tile_w,
                first <= left,
                tiles@.len() > 0 ==> left - tile_w < win_w,
                forall|k: int| 0 <= k < tiles@.len() ==> #[trigger] tiles@[k] == self.tile(*screen, k),
                forall|k: int| 0 <= k < tiles@.len() ==> (#[trigger] tiles@[k]).x < screen.width(),
            decreases win_w - left + tile_w,
        {
            let ghost n = tiles@.len() as int;
            proof {
                assert(first + (n + 1) * tile_w == left + tile_w) by (nonlinear_arith)
                    requires
                        left == first + n * tile_w,
                ;
            }
            tiles.push(Rectangle { x: left as i64, y: 0, w: tile_w as i64, h: win_h });
            left = left + tile_w;
        }
        proof {
            let n = tiles@.len() as int;
            assert(first + (n - 1) * tile_w == left - tile_w) by (nonlinear_arith)
                requires
                    left == first + n * tile_w,
            ;
            lemma_tile_count(win_w as int, first as int, tile_w as int, n);
            assert(tiles@ =~= self.tiles(*screen));
        }
        tiles
    }
}

/// The number of steps of `step` that it takes from `first` to reach `end`, where
/// the step before the last has not reached it, is the distance in steps, rounded up.
proof fn lemma_tile_count(end: int, first: int, step: int, n: int)
    by (nonlinear_arith)
    requires
        step > 0,
        n >= 0,
        first <= end,
        first + n * step >= end,
        n > 0 ==> first + (n - 1) * step < end,
    ensures
        n == (end - first + step - 1) / step,
{
    let d = end - first + step - 1;
    assert(d == step * (d / step) + d % step);
    assert(0 <= d % step < step);
    let q = d / step;
    if q > n {
        assert(step * q >= step * (n + 1));
    }
    if q < n {
        assert(step * q <= step * (n - 1));
    }
}

/// A length within the world, scaled by the ratio of a screen's height to an
/// image's, the image being a pixel high at least, stays well within 64 bits.
proof fn lemma_scaled_bounds(v: int, num: int, den: int)
    by (nonlinear_arith)
    requires
        0 <= v <= WORLD,
        0 <= num <= 65_535 * MICRO,
        den >= MICRO,
    ensures
        0 <= v * num <= WORLD * (65_535 * MICRO),
        0 <= v * num / den <= WORLD * 65_535,
{
    assert(0 <= v * num <= WORLD * (65_535 * MICRO));
    let p = v * num;
    let q = p / den;
    assert(p == den * q + p % den);
    assert(0 <= p % den < den);
    assert(q >= 0);
    assert(q <= WORLD * 65_535) by {
        if q > WORLD * 65_535 {
            assert(den * q >= MICRO * q);
            assert(MICRO * q > MICRO * (WORLD * 65_535));
        }
    }
}

impl BgSet {
    pub open spec fn wf(self) -> bool {
        &&& self.back.wf()
        &&& self.middle.wf()
        &&& self.front.wf()
    }

    /// The three layers after `elapsed` more microseconds.
    pub open spec fn scrolled(self, elapsed: int) -> BgSet {
        BgSet {
            back: Background { pos: self.back.scrolled(elapsed) as i64, ..self.back },
            middle: Background { pos: self.middle.scrolled(elapsed) as i64, ..self.middle },
            front: Background { pos: self.front.scrolled(elapsed) as i64, ..self.front },
        }
    }

    /// The backdrop at its start: the three images at rest at their left ends;
    /// the nearer a layer, the faster it scrolls.
    pub open spec fn new_spec(back: Sprite, middle: Sprite, front: Sprite) -> BgSet {
        BgSet {
            back: Background { pos: 0, vel: 20, sprite: back },
            middle: Background { pos: 0, vel: 40, sprite: middle },
            front: Background { pos: 0, vel: 80, sprite: front },
        }
    }

    /// The backdrop at its start.
    pub fn new(back: Sprite, middle: Sprite, front: Sprite) -> (r: BgSet)
        requires
            Background::suits(back),
            Background::suits(middle),
            Background::suits(front),
        ensures
            r.wf(),
            r == BgSet::new_spec(back, middle, front),
    {
        BgSet {
            back: Background { pos: 0, vel: 20, sprite: back },
            middle: Background { pos: 0, vel: 40, sprite: middle },
            front: Background { pos: 0, vel: 80, sprite: front },
        }
    }

    /// Moves the three layers on by `elapsed` microseconds.
    pub fn update(&mut self, elapsed: u64)
        requires
            old(self).wf(),
        ensures
            final(self).wf(),
            *final(self) == old(self).scrolled(elapsed as int),
    {
        self.back.update(elapsed);
        self.middle.update(elapsed);
        self.front.update(elapsed);
    }
}

/// The colour with which the screen is cleared.
pub open spec fn black() -> Color {
    Color { r: 0, g: 0, b: 0 }
}

/// The steps that draw the copies of a layer at `tiles`.
pub open spec fn backdrop(layer: Layer, tiles: Seq<Rectangle>) -> Seq<Draw> {
    Seq::new(tiles.len(), |k: int| Draw::Backdrop(layer, tiles[k]))
}

/// Adds to `list` the steps that draw a layer of the backdrop on `screen`.
pub fn draw_backdrop(list: &mut Vec<Draw>, layer: Layer, background: &Background, screen: &Screen)
    requires
        background.wf(),
    ensures
        final(list)@ == old(list)@ + backdrop(layer, background.tiles(*screen)),
{
    let tiles = background.render(screen);
    let ghost before = list@;
    let mut k: usize = 0;
    while k < tiles.len()
        invariant
            0 <= k <= tiles@.len(),
            tiles@ == background.tiles(*screen),
            list@ == before + backdrop(layer, tiles@.take(k as int)),
        decreases tiles@.len() - k,
    {
        list.push(Draw::Backdrop(layer, tiles[k]));
        assert(list@ =~= before + backdrop(layer, tiles@.take(k + 1)));
        k += 1;
    }
    assert(tiles@.take(k as int) =~= tiles@);
}

} // verus!
