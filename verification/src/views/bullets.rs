use vstd::prelude::*;
use crate::phi::Phi;
use crate::phi::data::{div_toward_zero, in_world, Rectangle, MICRO, WORLD};
use crate::phi::gfx::Color;
use crate::phi::wave::{lemma_scaled_within_amplitude, SineTable};
use crate::views::shared::Draw;

verus! {

/// The speed of every bullet, in pixels per second.
pub const BULLET_SPEED: i64 = 240;

pub const BULLET_W: i64 = 8 * MICRO;

pub const BULLET_H: i64 = 4 * MICRO;

/// The largest height parameter of a divergent bullet, either way.
pub const DIVERGENT_A_MAX: i64 = 0x8000_0000;

/// The kinds of cannon, each with the parameters of the paths of its bullets:
/// for a sine, the amplitude in micro-pixels and the angular velocity in
/// radians per second; for a divergent bullet, the height `a` of its bump in
/// micro-pixels and the duration `b` of the bump in microseconds.
#[derive(Clone, Copy, Debug, PartialEq, Eq, Structural)]
pub enum CannonType {
    RectBullet,
    SineBullet { amplitude: i32, angular_vel: u32 },
    DivergentBullet { a: i32, b: u32 },
}

impl CannonType {
    /// The bump of a divergent bullet lasts some time.
    pub open spec fn wf(self) -> bool {
        self matches CannonType::DivergentBullet { a, b } ==> b >= 1
    }
}

/// A bullet that flies straight to the right.
#[derive(Clone, Copy, Debug, PartialEq, Eq, Structural)]
pub struct RectBullet {
    pub rect: Rectangle,
}

/// A bullet that swings about the height `origin_y` as it flies to the right.
/// Its bounding box is not kept: it follows from the time that the bullet has flown.
#[derive(Clone, Copy, Debug, PartialEq, Eq, Structural)]
pub struct SineBullet {
    pub pos_x: i64,
    pub origin_y: i64,
    pub amplitude: i32,
    pub angular_vel: u32,
    pub total_time: u64,
}

/// A bullet that, after a small bump, leaves its height for good: its height is
/// off by `a * ((t / b)^3 - (t / b)^2)` after the time `t`.
#[derive(Clone, Copy, Debug, PartialEq, Eq, Structural)]
pub struct DivergentBullet {
    pub pos_x: i64,
    pub origin_y: i64,
    pub a: i64,
    pub b: u32,
    pub total_time: u64,
}

/// A bullet of any kind.
#[derive(Clone, Copy, Debug, PartialEq, Eq, Structural)]
pub enum Bullet {
    Rect(RectBullet),
    Sine(SineBullet),
    Divergent(DivergentBullet),
}

/// The colour in which bullets are drawn.
pub open spec fn bullet_color() -> Color {
    Color { r: 230, g: 230, b: 30 }
}

/// How far a divergent bullet is off its height after `t` microseconds:
/// `a * ((t / b)^3 - (t / b)^2)`, that is `a * t^2 * (t - b) / b^3`, rounded
/// toward zero.
pub open spec fn divergent_offset(a: int, b: int, t: int) -> int {
    div_toward_zero(a * t * t * (t - b), b * b * b)
}

/// A bullet that was launched within the world and has not passed its right end
/// has flown for less than this many microseconds.
pub open spec fn flight_limit() -> int {
    2 * WORLD / (BULLET_SPEED as int)
}

impl RectBullet {
    pub open spec fn wf(self) -> bool {
        self.rect.bounded()
    }

    /// The bullet after `dt` more microseconds, wherever that is.
    pub open spec fn advanced(self, dt: int) -> Rectangle {
        Rectangle { x: (self.rect.x + BULLET_SPEED * dt) as i64, ..self.rect }
    }

    /// Whether the bullet leaves after `dt` more microseconds: its right edge
    /// is then beyond the right end of the screen.
    pub open spec fn leaves(self, phi: Phi, dt: int) -> bool {
        self.rect.x + BULLET_SPEED * dt + self.rect.w > phi.screen.width()
    }

    /// Moves the bullet on by `dt` microseconds. It is gone once its right edge
    /// has crossed the right end of the screen.
    pub fn update(self, phi: &Phi, dt: u64) -> (r: Option<RectBullet>)
        requires
            self.wf(),
        ensures
            r == if self.leaves(*phi, dt as int) {
                None::<RectBullet>
            } else {
                Some(RectBullet { rect: self.advanced(dt as int) })
            },
            r matches Some(b) ==> b.wf() && b.rect.x == self.rect.x + BULLET_SPEED * dt,
    {
        let (w, _) = phi.output_size();
        let x: i128 = self.rect.x as i128 + BULLET_SPEED as i128 * dt as i128;
        if x + self.rect.w as i128 > w as i128 {
            None
        } else {
            Some(RectBullet { rect: Rectangle { x: x as i64, ..self.rect } })
        }
    }

    /// What to draw for the bullet: its bounding box, filled.
    pub fn render(&self) -> (r: Draw)
        ensures
            r == Draw::Fill(bullet_color(), self.rect),
    {
        Draw::Fill(Color::rgb(230, 230, 30), self.rect)
    }

    /// The bullet's bounding box.
    pub fn rect(&self) -> (r: Rectangle)
        ensures
            r == self.rect,
    {
        self.rect
    }
}

impl SineBullet {
    /// The bullet was launched within the world and has not passed its right end.
    pub open spec fn wf(self) -> bool {
        &&& -WORLD <= self.pos_x - BULLET_SPEED * self.total_time
        &&& self.pos_x <= WORLD
        &&& in_world(self.origin_y as int)
    }

    /// The bounding box: as far right as the bullet has flown, and off its height
    /// by the amplitude times the sine of the angle that it has turned through.
    pub open spec fn rect_spec(self, sine: SineTable) -> Rectangle {
        Rectangle {
            x: self.pos_x,
            y: (self.origin_y + sine.offset_at(
                self.amplitude as int,
                self.angular_vel as int,
                self.total_time as int,
            )) as i64,
            w: BULLET_W,
            h: BULLET_H,
        }
    }

    /// The bullet after `dt` more microseconds, wherever that is.
    pub open spec fn advanced(self, dt: int) -> SineBullet {
        SineBullet {
            pos_x: (self.pos_x + BULLET_SPEED * dt) as i64,
            total_time: (self.total_time + dt) as u64,
            ..self
        }
    }

    /// Whether the bullet leaves after `dt` more microseconds: it is then
    /// beyond the right end of the screen.
    pub open spec fn leaves(self, phi: Phi, dt: int) -> bool {
        self.pos_x + BULLET_SPEED * dt > phi.screen.width()
    }

    /// Moves the bullet on by `dt` microseconds. It is gone once it has left the
    /// screen on the right.
    pub fn update(self, phi: &Phi, dt: u64) -> (r: Option<SineBullet>)
        requires
            self.wf(),
        ensures
            r == if self.leaves(*phi, dt as int) {
                None::<SineBullet>
            } else {
                Some(self.advanced(dt as int))
            },
            r matches Some(b) ==> b.wf() && b.pos_x == self.pos_x + BULLET_SPEED * dt
                && b.total_time == self.total_time + dt,
    {
        let (w, _) = phi.output_size();
        let x: i128 = self.pos_x as i128 + BULLET_SPEED as i128 * dt as i128;
        if x > w as i128 {
            None
        } else {
            Some(
                SineBullet {
                    pos_x: x as i64,
                    total_time: self.total_time + dt,
                    ..self
                },
            )
        }
    }

    /// What to draw for the bullet: its bounding box, filled.
    pub fn render(&self, sine: &SineTable) -> (r: Draw)
        requires
            self.wf(),
            sine.wf(),
        ensures
            r == Draw::Fill(bullet_color(), self.rect_spec(*sine)),
    {
        Draw::Fill(Color::rgb(230, 230, 30), self.rect(sine))
    }

    /// The bullet's bounding box.
    pub fn rect(&self, sine: &SineTable) -> (r: Rectangle)
        requires
            self.wf(),
            sine.wf(),
        ensures
            r == self.rect_spec(*sine),
            r.y == self.origin_y + sine.offset_at(
                self.amplitude as int,
                self.angular_vel as int,
                self.total_time as int,
            ),
    {
        let dy: i64 = sine.offset(self.amplitude, self.angular_vel, self.total_time);
        Rectangle { x: self.pos_x, y: self.origin_y + dy, w: BULLET_W, h: BULLET_H }
    }
}

impl DivergentBullet {
    /// The bullet was launched within the world and has not passed its right end;
    /// its bump lasts some time and is not too high; it is at a height within
    /// the world.
    pub open spec fn wf(self) -> bool {
        &&& -WORLD <= self.pos_x - BULLET_SPEED * self.total_time
        &&& self.pos_x <= WORLD
        &&& in_world(self.origin_y as int)
        &&& -DIVERGENT_A_MAX <= self.a <= DIVERGENT_A_MAX
        &&& self.b >= 1
        &&& in_world(self.height())
    }

    /// The height at which the bullet is.
    pub open spec fn height(self) -> int {
        self.origin_y + divergent_offset(self.a as int, self.b as int, self.total_time as int)
    }

    /// The bounding box: as far right as the bullet has flown, at its height.
    pub open spec fn rect_spec(self) -> Rectangle {
        Rectangle { x: self.pos_x, y: self.height() as i64, w: BULLET_W, h: BULLET_H }
    }

    /// The bullet after `dt` more microseconds, wherever that is.
    pub open spec fn advanced(self, dt: int) -> DivergentBullet {
        DivergentBullet {
            pos_x: (self.pos_x + BULLET_SPEED * dt) as i64,
            total_time: (self.total_time + dt) as u64,
            ..self
        }
    }

    /// Whether the bullet leaves after `dt` more microseconds: it is then
    /// beyond the right end of the screen, below its bottom or above its top.
    pub open spec fn leaves(self, phi: Phi, dt: int) -> bool {
        let y = self.origin_y + divergent_offset(
            self.a as int,
            self.b as int,
            self.total_time + dt,
        );
        ||| self.pos_x + BULLET_SPEED * dt > phi.screen.width()
        ||| y > phi.screen.height()
        ||| y < 0
    }

    /// How far the bullet is off its height after it has flown for `t` microseconds.
    fn offset(a: i64, b: u32, t: u64) -> (r: i128)
        requires
            -DIVERGENT_A_MAX <= a <= DIVERGENT_A_MAX,
            b >= 1,
            t <= flight_limit(),
        ensures
            r == divergent_offset(a as int, b as int, t as int),
            -0x1000_0000_0000_0000_0000_0000_0000_0000 <= r
                <= 0x1000_0000_0000_0000_0000_0000_0000_0000,
    {
        proof {
            lemma_divergent_fits(a as int, b as int, t as int);
        }
        let t: i128 = t as i128;
        let b: i128 = b as i128;
        let a: i128 = a as i128;
        let square: i128 = t * t;
        let scaled: i128 = a * square;
        assert(scaled == a * t * t) by (nonlinear_arith)
            requires
                scaled == a * (t * t),
        ;
        let numerator: i128 = scaled * (t - b);
        let denominator: i128 = b * b * b;
        proof {
            lemma_quotient_no_larger(numerator as int, denominator as int);
        }
        numerator / denominator
    }

    /// Moves the bullet on by `dt` microseconds. It is gone once it has left the
    /// screen on the right, at the bottom or at the top.
    pub fn update(self, phi: &Phi, dt: u64) -> (r: Option<DivergentBullet>)
        requires
            self.wf(),
        ensures
            r == if self.leaves(*phi, dt as int) {
                None::<DivergentBullet>
            } else {
                Some(self.advanced(dt as int))
            },
            r matches Some(b) ==> b.wf() && b.pos_x == self.pos_x + BULLET_SPEED * dt
                && b.total_time == self.total_time + dt,
    {
        let (w, h) = phi.output_size();
        let x: i128 = self.pos_x as i128 + BULLET_SPEED as i128 * dt as i128;
        if x > w as i128 {
            return None;
        }
        let t: u64 = self.total_time + dt;
        let y: i128 = self.origin_y as i128 + Self::offset(self.a, self.b, t);
        if y > h as i128 || y < 0 {
            None
        } else {
            Some(DivergentBullet { pos_x: x as i64, total_time: t, ..self })
        }
    }

    /// What to draw for the bullet: its bounding box, filled.
    pub fn render(&self) -> (r: Draw)
        requires
            self.wf(),
        ensures
            r == Draw::Fill(bullet_color(), self.rect_spec()),
    {
        Draw::Fill(Color::rgb(230, 230, 30), self.rect())
    }

    /// The bullet's bounding box.
    pub fn rect(&self) -> (r: Rectangle)
        requires
            self.wf(),
        ensures
            r == self.rect_spec(),
            r.y == self.height(),
    {
        let dy: i128 = Self::offset(self.a, self.b, self.total_time);
        Rectangle {
            x: self.pos_x,
            y: (self.origin_y as i128 + dy) as i64,
            w: BULLET_W,
            h: BULLET_H,
        }
    }
}

/// Dividing by a positive number, toward zero, does not take a number further
/// from zero.
proof fn lemma_quotient_no_larger(n: int, d: int)
    by (nonlinear_arith)
    requires
        d >= 1,
    ensures
        n >= 0 ==> 0 <= div_toward_zero(n, d) <= n,
        n <= 0 ==> n <= div_toward_zero(n, d) <= 0,
{
    if n >= 0 {
        assert(n == d * (n / d) + n % d);
        assert(0 <= n % d < d);
        assert(n / d >= 0);
        assert(d * (n / d) >= n / d);
    } else {
        let m = -n;
        assert(m == d * (m / d) + m % d);
        assert(0 <= m % d < d);
        assert(m / d >= 0);
        assert(d * (m / d) >= m / d);
    }
}

/// Within the flight limit, the products that make up the offset of a divergent
/// bullet fit in 128 bits.
proof fn lemma_divergent_fits(a: int, b: int, t: int)
    by (nonlinear_arith)
    requires
        -0x8000_0000 <= a <= 0x8000_0000,
        1 <= b <= 0xffff_ffff,
        0 <= t <= 1_145_324_612,
    ensures
        0 <= t * t <= 1_145_324_612 * 1_145_324_612,
        -0x8000_0000 * (1_145_324_612 * 1_145_324_612) <= a * (t * t) <= 0x8000_0000 * (
        1_145_324_612 * 1_145_324_612),
        -0x8000_0000 * (1_145_324_612 * 1_145_324_612) * 0x1_0000_0000 <= (a * (t * t)) * (t
            - b) <= 0x8000_0000 * (1_145_324_612 * 1_145_324_612) * 0x1_0000_0000,
        1 <= b * b <= 0xffff_ffff * 0xffff_ffff,
        1 <= b * b * b <= 0xffff_ffff * 0xffff_ffff * 0xffff_ffff,
{
    let s = t * t;
    assert(0 <= s <= 1_145_324_612 * 1_145_324_612);
    let p = a * s;
    assert(-0x8000_0000 * (1_145_324_612 * 1_145_324_612) <= p <= 0x8000_0000 * (1_145_324_612
        * 1_145_324_612));
    let d = t - b;
    assert(-0x1_0000_0000 <= d <= 0x1_0000_0000);
    let bound = 0x8000_0000 * (1_145_324_612 * 1_145_324_612);
    assert(-bound * 0x1_0000_0000 <= p * d <= bound * 0x1_0000_0000) by {
        if p >= 0 {
            if d >= 0 {
                assert(0 <= p * d <= bound * 0x1_0000_0000);
            } else {
                assert(p * d >= p * (-0x1_0000_0000));
                assert(p * (-0x1_0000_0000) >= bound * (-0x1_0000_0000));
                assert(p * d <= 0);
            }
        } else {
            if d >= 0 {
                assert(p * d >= (-bound) * d);
                assert((-bound) * d >= (-bound) * 0x1_0000_0000);
                assert(p * d <= 0);
            } else {
                assert(p * d == (-p) * (-d));
                assert(0 <= (-p) * (-d) <= bound * 0x1_0000_0000);
            }
        }
    }
    let bb = b * b;
    assert(1 <= bb <= 0xffff_ffff * 0xffff_ffff);
    assert(1 <= bb * b <= 0xffff_ffff * 0xffff_ffff * 0xffff_ffff);
}

impl Bullet {
    pub open spec fn wf(self) -> bool {
        match self {
            Bullet::Rect(b) => b.wf(),
            Bullet::Sine(b) => b.wf(),
            Bullet::Divergent(b) => b.wf(),
        }
    }

    /// The bounding box.
    pub open spec fn rect_spec(self, sine: SineTable) -> Rectangle {
        match self {
            Bullet::Rect(b) => b.rect,
            Bullet::Sine(b) => b.rect_spec(sine),
            Bullet::Divergent(b) => b.rect_spec(),
        }
    }

    /// What becomes of the bullet after `dt` more microseconds: nothing if
    /// it leaves, else the bullet further along its path.
    pub open spec fn updated(self, phi: Phi, dt: int) -> Option<Bullet> {
        match self {
            Bullet::Rect(b) => if b.leaves(phi, dt) {
                None
            } else {
                Some(Bullet::Rect(RectBullet { rect: b.advanced(dt) }))
            },
            Bullet::Sine(b) => if b.leaves(phi, dt) {
                None
            } else {
                Some(Bullet::Sine(b.advanced(dt)))
            },
            Bullet::Divergent(b) => if b.leaves(phi, dt) {
                None
            } else {
                Some(Bullet::Divergent(b.advanced(dt)))
            },
        }
    }

    /// Moves the bullet on by `dt` microseconds, or reports that it is gone.
    pub fn update(self, phi: &Phi, dt: u64) -> (r: Option<Bullet>)
        requires
            self.wf(),
        ensures
            r == self.updated(*phi, dt as int),
            r matches Some(b) ==> b.wf(),
    {
        match self {
            Bullet::Rect(b) => match b.update(phi, dt) {
                Some(next) => Some(Bullet::Rect(next)),
                None => None,
            },
            Bullet::Sine(b) => match b.update(phi, dt) {
                Some(next) => Some(Bullet::Sine(next)),
                None => None,
            },
            Bullet::Divergent(b) => match b.update(phi, dt) {
                Some(next) => Some(Bullet::Divergent(next)),
                None => None,
            },
        }
    }

    /// What to draw for the bullet: its bounding box, filled.
    pub fn render(&self, sine: &SineTable) -> (r: Draw)
        requires
            self.wf(),
            sine.wf(),
        ensures
            r == Draw::Fill(bullet_color(), self.rect_spec(*sine)),
    {
        match self {
            Bullet::Rect(b) => b.render(),
            Bullet::Sine(b) => b.render(sine),
            Bullet::Divergent(b) => b.render(),
        }
    }

    /// The bullet's bounding box.
    pub fn rect(&self, sine: &SineTable) -> (r: Rectangle)
        requires
            self.wf(),
            sine.wf(),
        ensures
            r == self.rect_spec(*sine),
    {
        match self {
            Bullet::Rect(b) => b.rect(),
            Bullet::Sine(b) => b.rect(sine),
            Bullet::Divergent(b) => b.rect(),
        }
    }
}

/// The two bullets of one shot, given the cannon and the places of its two
/// mounts: both at `cannons_x`, the first at the height `cannon1_y`, the second
/// at `cannon2_y`. Divergent bullets part: the first has its `a` negated.
pub open spec fn shot(cannon: CannonType, cannons_x: i64, cannon1_y: i64, cannon2_y: i64) -> Seq<
    Bullet,
> {
    match cannon {
        CannonType::RectBullet => seq![
            Bullet::Rect(
                RectBullet {
                    rect: Rectangle { x: cannons_x, y: cannon1_y, w: BULLET_W, h: BULLET_H },
                },
            ),
            Bullet::Rect(
                RectBullet {
                    rect: Rectangle { x: cannons_x, y: cannon2_y, w: BULLET_W, h: BULLET_H },
                },
            ),
        ],
        CannonType::SineBullet { amplitude, angular_vel } => seq![
            Bullet::Sine(
                SineBullet {
                    pos_x: cannons_x,
                    origin_y: cannon1_y,
                    amplitude,
                    angular_vel,
                    total_time: 0,
                },
            ),
            Bullet::Sine(
                SineBullet {
                    pos_x: cannons_x,
                    origin_y: cannon2_y,
                    amplitude,
                    angular_vel,
                    total_time: 0,
                },
            ),
        ],
        CannonType::DivergentBullet { a, b } => seq![
            Bullet::Divergent(
                DivergentBullet {
                    pos_x: cannons_x,
                    origin_y: cannon1_y,
                    a: (-a) as i64,
                    b,
                    total_time: 0,
                },
            ),
            Bullet::Divergent(
                DivergentBullet {
                    pos_x: cannons_x,
                    origin_y: cannon2_y,
                    a: a as i64,
                    b,
                    total_time: 0,
                },
            ),
        ],
    }
}

/// Fires the cannon once: two bullets, one from each mount.
pub fn spawn_bullets(cannon: CannonType, cannons_x: i64, cannon1_y: i64, cannon2_y: i64) -> (r:
    Vec<Bullet>)
    requires
        cannon.wf(),
        in_world(cannons_x as int),
        in_world(cannon1_y as int),
        in_world(cannon2_y as int),
    ensures
        r@ == shot(cannon, cannons_x, cannon1_y, cannon2_y),
        r@.len() == 2,
        r@[0].wf(),
        r@[1].wf(),
{
    let mut bullets: Vec<Bullet> = Vec::new();
    match cannon {
        CannonType::RectBullet => {
            bullets.push(
                Bullet::Rect(
                    RectBullet {
                        rect: Rectangle { x: cannons_x, y: cannon1_y, w: BULLET_W, h: BULLET_H },
                    },
                ),
            );
            bullets.push(
                Bullet::Rect(
                    RectBullet {
                        rect: Rectangle { x: cannons_x, y: cannon2_y, w: BULLET_W, h: BULLET_H },
                    },
                ),
            );
        },
        CannonType::SineBullet { amplitude, angular_vel } => {
            bullets.push(
                Bullet::Sine(
                    SineBullet {
                        pos_x: cannons_x,
                        origin_y: cannon1_y,
                        amplitude,
                        angular_vel,
                        total_time: 0,
                    },
                ),
            );
            bullets.push(
                Bullet::Sine(
                    SineBullet {
                        pos_x: cannons_x,
                        origin_y: cannon2_y,
                        amplitude,
                        angular_vel,
                        total_time: 0,
                    },
                ),
            );
        },
        CannonType::DivergentBullet { a, b } => {
            proof {
                lemma_divergent_starts_level(-(a as int), b as int);
                lemma_divergent_starts_level(a as int, b as int);
            }
            bullets.push(
                Bullet::Divergent(
                    DivergentBullet {
                        pos_x: cannons_x,
                        origin_y: cannon1_y,
                        a: -(a as i64),
                        b,
                        total_time: 0,
                    },
                ),
            );
            bullets.push(
                Bullet::Divergent(
                    DivergentBullet {
                        pos_x: cannons_x,
                        origin_y: cannon2_y,
                        a: a as i64,
                        b,
                        total_time: 0,
                    },
                ),
            );
        },
    }
    assert(bullets@ =~= shot(cannon, cannons_x, cannon1_y, cannon2_y));
    bullets
}

/// A divergent bullet starts at its height: the offset is 0 at time 0.
pub proof fn lemma_divergent_starts_level(a: int, b: int)
    requires
        b >= 1,
    ensures
        divergent_offset(a, b, 0) == 0,
{
    assert(a * 0 * 0 * (0 - b) == 0) by (nonlinear_arith);
    assert(b * b * b >= 1) by (nonlinear_arith)
        requires
            b >= 1,
    ;
}

/// Bullet pairing. A shot is two bullets of the cannon's kind, both at the
/// mounts' x, the first at the upper and the second at the lower mount, both at
/// time 0; of two divergent bullets the first has `a` negated and the second
/// has it as it is, so that they part.
pub proof fn lemma_shot_is_a_pair(cannon: CannonType, cannons_x: i64, cannon1_y: i64, cannon2_y: i64)
    ensures
        shot(cannon, cannons_x, cannon1_y, cannon2_y).len() == 2,
        cannon is RectBullet ==> shot(cannon, cannons_x, cannon1_y, cannon2_y)[0] is Rect && shot(
            cannon,
            cannons_x,
            cannon1_y,
            cannon2_y,
        )[1] is Rect,
        cannon is SineBullet ==> shot(cannon, cannons_x, cannon1_y, cannon2_y)[0] is Sine && shot(
            cannon,
            cannons_x,
            cannon1_y,
            cannon2_y,
        )[1] is Sine,
        cannon matches CannonType::DivergentBullet { a, b } ==> {
            &&& shot(cannon, cannons_x, cannon1_y, cannon2_y)[0] matches Bullet::Divergent(first)
            &&& shot(cannon, cannons_x, cannon1_y, cannon2_y)[1] matches Bullet::Divergent(second)
            &&& first.a == -a
            &&& second.a == a
            &&& first.a == -second.a
            &&& first.b == b
            &&& second.b == b
            &&& first.pos_x == cannons_x
            &&& second.pos_x == cannons_x
            &&& first.origin_y == cannon1_y
            &&& second.origin_y == cannon2_y
            &&& first.total_time == 0
            &&& second.total_time == 0
        },
{
}

/// Mirrored paths. Two divergent bullets whose `a` are opposite are, at every
/// time, as far above their heights as the other is below.
pub proof fn lemma_divergent_mirrored(a: int, b: int, t: int)
    requires
        b >= 1,
    ensures
        divergent_offset(-a, b, t) == -divergent_offset(a, b, t),
{
    let n = a * t * t * (t - b);
    assert((-a) * t * t * (t - b) == -n) by (nonlinear_arith)
        requires
            n == a * t * t * (t - b),
    ;
    assert(b * b * b >= 1) by (nonlinear_arith)
        requires
            b >= 1,
    ;
    crate::phi::data::lemma_div_toward_zero_bounds(n, b * b * b);
}

/// The path of a sine bullet depends on the time alone. A bullet that has
/// flown for two stretches of time is where, and is the bullet that, one
/// stretch of the same length would have made it; so its bounding box follows from
/// what it was launched with and from the time since.
pub proof fn lemma_sine_path_adds_up(bullet: SineBullet, dt1: u64, dt2: u64)
    requires
        bullet.pos_x + BULLET_SPEED * (dt1 + dt2) <= i64::MAX,
        bullet.total_time + dt1 + dt2 <= u64::MAX,
    ensures
        bullet.advanced(dt1 as int).advanced(dt2 as int) == bullet.advanced(dt1 + dt2),
{
    assert(bullet.pos_x + BULLET_SPEED * dt1 + BULLET_SPEED * dt2 == bullet.pos_x + BULLET_SPEED
        * (dt1 + dt2)) by (nonlinear_arith);
}

/// The path of a divergent bullet depends on the time alone: see
/// `lemma_sine_path_adds_up`.
pub proof fn lemma_divergent_path_adds_up(bullet: DivergentBullet, dt1: u64, dt2: u64)
    requires
        bullet.pos_x + BULLET_SPEED * (dt1 + dt2) <= i64::MAX,
        bullet.total_time + dt1 + dt2 <= u64::MAX,
    ensures
        bullet.advanced(dt1 as int).advanced(dt2 as int) == bullet.advanced(dt1 + dt2),
{
    assert(bullet.pos_x + BULLET_SPEED * dt1 + BULLET_SPEED * dt2 == bullet.pos_x + BULLET_SPEED
        * (dt1 + dt2)) by (nonlinear_arith);
}

/// A sine bullet never strays from its height by more than its amplitude.
pub proof fn lemma_sine_within_amplitude(bullet: SineBullet, sine: SineTable)
    requires
        sine.wf(),
    ensures
        -crate::phi::wave::abs_int(bullet.amplitude as int) <= sine.offset_at(
            bullet.amplitude as int,
            bullet.angular_vel as int,
            bullet.total_time as int,
        ) <= crate::phi::wave::abs_int(bullet.amplitude as int),
{
    let phase = bullet.angular_vel as int * bullet.total_time as int;
    let len = sine.samples@.len() as int;
    crate::phi::wave::lemma_sample_index_in_range(len, phase);
    lemma_scaled_within_amplitude(bullet.amplitude as int, sine.value_at(phase));
}

} // verus!
