use vstd::prelude::*;
use crate::phi::{Notice, Phi, Sound, ViewAction};
use crate::phi::data::{
    lemma_keep_some_all_or_none,
    div_toward_zero,
    fit_axis,
    keep_some,
    lemma_keep_some_start,
    lemma_keep_some_step,
    MaybeAlive,
    Rectangle,
    Screen,
    MICRO,
};
use crate::phi::wave::SineTable;
use crate::phi::events::{is_pressed, pressed, Events};
use crate::phi::gfx::{loop_period, AnimatedSprite, AnimatedSpriteDescr};
use crate::views::bullets::{bullet_color, shot, spawn_bullets, Bullet, CannonType};
use crate::views::main_menu::MainMenuView;
use crate::views::shared::{backdrop, black, draw_backdrop, BgSet, Draw, Layer};
use crate::phi::gfx::Color;

verus! {

/// The speed of the player's ship, in pixels per second.
pub const PLAYER_SPEED: i64 = 180;

pub const PLAYER_PATH: &'static str = "assets/spaceship.png";

pub const PLAYER_W: i64 = 43 * MICRO;

pub const PLAYER_H: i64 = 39 * MICRO;

/// Where the ship appears, from the left end of the screen.
pub const PLAYER_START_X: i64 = 64 * MICRO;

/// The ship's coordinates stay within this distance of the origin.
pub const PLAYER_RANGE: i64 = 68_719_476_736;

/// A step along both axes at once is shortened by this factor, in billionths:
/// the square root of one half, rounded down.
pub const DIAGONAL_BILLIONTHS: i64 = 707_106_781;

pub const ASTEROID_PATH: &'static str = "assets/asteroid.png";

pub const ASTEROIDS_WIDE: u32 = 21;

pub const ASTEROIDS_HIGH: u32 = 7;

pub const ASTEROIDS_TOTAL: u32 = ASTEROIDS_WIDE * ASTEROIDS_HIGH - 4;

pub const ASTEROID_SIDE: i64 = 96 * MICRO;

pub const EXPLOSION_PATH: &'static str = "assets/explosion.png";

pub const EXPLOSIONS_WIDE: u32 = 5;

pub const EXPLOSIONS_HIGH: u32 = 4;

pub const EXPLOSIONS_TOTAL: u32 = 17;

pub const EXPLOSION_SIDE: i64 = 96 * MICRO;

pub const EXPLOSION_FPS: u32 = 16;

/// How long an explosion lasts, in microseconds: the time that its 17 frames
/// take at 16 frames per second.
pub const EXPLOSION_DURATION: u64 = 1_062_500;

/// The states in which the ship is drawn. On its sheet they stand in this order,
/// from left to right, then from top to bottom.
#[derive(Clone, Copy, Debug, PartialEq, Eq, Structural)]
pub enum PlayerFrame {
    UpNorm,
    UpFast,
    UpSlow,
    MidNorm,
    MidFast,
    MidSlow,
    DownNorm,
    DownFast,
    DownSlow,
}

impl PlayerFrame {
    /// The place of the frame on the sheet.
    pub open spec fn index_spec(self) -> int {
        match self {
            PlayerFrame::UpNorm => 0,
            PlayerFrame::UpFast => 1,
            PlayerFrame::UpSlow => 2,
            PlayerFrame::MidNorm => 3,
            PlayerFrame::MidFast => 4,
            PlayerFrame::MidSlow => 5,
            PlayerFrame::DownNorm => 6,
            PlayerFrame::DownFast => 7,
            PlayerFrame::DownSlow => 8,
        }
    }

    /// The frame for a step of `dx` to the right and `dy` down: the row goes by
    /// the vertical direction, the column by the horizontal one.
    pub open spec fn for_step(dx: int, dy: int) -> PlayerFrame {
        if dy < 0 {
            if dx == 0 {
                PlayerFrame::UpNorm
            } else if dx > 0 {
                PlayerFrame::UpFast
            } else {
                PlayerFrame::UpSlow
            }
        } else if dy == 0 {
            if dx == 0 {
                PlayerFrame::MidNorm
            } else if dx > 0 {
                PlayerFrame::MidFast
            } else {
                PlayerFrame::MidSlow
            }
        } else {
            if dx == 0 {
                PlayerFrame::DownNorm
            } else if dx > 0 {
                PlayerFrame::DownFast
            } else {
                PlayerFrame::DownSlow
            }
        }
    }

    /// The place of the frame on the sheet.
    pub fn index(self) -> (r: usize)
        ensures
            r == self.index_spec(),
            r < 9,
    {
        match self {
            PlayerFrame::UpNorm => 0,
            PlayerFrame::UpFast => 1,
            PlayerFrame::UpSlow => 2,
            PlayerFrame::MidNorm => 3,
            PlayerFrame::MidFast => 4,
            PlayerFrame::MidSlow => 5,
            PlayerFrame::DownNorm => 6,
            PlayerFrame::DownFast => 7,
            PlayerFrame::DownSlow => 8,
        }
    }

    /// The part of the ship's sheet that holds the frame: the sheet is a grid
    /// of three by three cells, each of the size of the ship.
    pub fn region(self) -> (r: Rectangle)
        ensures
            r == (Rectangle {
                x: (PLAYER_W * (self.index_spec() % 3)) as i64,
                y: (PLAYER_H * (self.index_spec() / 3)) as i64,
                w: PLAYER_W,
                h: PLAYER_H,
            }),
    {
        let i: i64 = self.index() as i64;
        Rectangle { x: PLAYER_W * (i % 3), y: PLAYER_H * (i / 3), w: PLAYER_W, h: PLAYER_H }
    }
}

/// The player's ship.
#[derive(Clone, Copy, Debug, PartialEq, Eq, Structural)]
pub struct Player {
    pub rect: Rectangle,
    pub current: PlayerFrame,
    pub cannon: CannonType,
}

/// The direction along one axis, given whether the key toward the low end and
/// the key toward the high end are held: both or neither is no direction.
pub open spec fn axis(low: bool, high: bool) -> int {
    if low == high {
        0
    } else if low {
        -1
    } else {
        1
    }
}

/// How far the ship moves along each axis on which it moves, during `elapsed`
/// microseconds. Along one axis that is its speed times the time; along both at
/// once each part is shortened by the square root of one half, so that the
/// ship is no faster across than along.
pub open spec fn step_length(diagonal: bool, elapsed: int) -> int {
    if diagonal {
        PLAYER_SPEED * elapsed * DIAGONAL_BILLIONTHS / 1_000_000_000
    } else {
        PLAYER_SPEED * elapsed
    }
}

/// The part of the screen in which the ship moves: all of its height and the
/// left 70% of its width, so that the ship cannot reach the right end, where
/// the asteroids appear.
pub open spec fn movable_region(screen: Screen) -> Rectangle {
    Rectangle { x: 0, y: 0, w: (screen.w * 700_000) as i64, h: screen.height() as i64 }
}

/// The cannon after this frame's weapon keys: the highest key that was just
/// pressed selects, and no key leaves the cannon as it is.
pub open spec fn selected_cannon(events: Events, cannon: CannonType) -> CannonType {
    if is_pressed(events.now.key_3) {
        CannonType::DivergentBullet { a: 100_000_000, b: 1_200_000 }
    } else if is_pressed(events.now.key_2) {
        CannonType::SineBullet { amplitude: 10_000_000, angular_vel: 15 }
    } else if is_pressed(events.now.key_1) {
        CannonType::RectBullet
    } else {
        cannon
    }
}

impl Player {
    /// The ship has its size and lies within its range.
    pub open spec fn wf(self) -> bool {
        &&& self.rect.w == PLAYER_W
        &&& self.rect.h == PLAYER_H
        &&& -PLAYER_RANGE <= self.rect.x <= PLAYER_RANGE
        &&& -PLAYER_RANGE <= self.rect.y <= PLAYER_RANGE
        &&& self.cannon.wf()
    }

    /// Whether the ship fits into the part of `screen` in which it moves.
    pub open spec fn fits(screen: Screen) -> bool {
        PLAYER_W <= screen.w * 700_000 && PLAYER_H <= screen.height()
    }

    /// Whether the ship fits into the part of `screen` in which it moves.
    pub fn has_room(screen: &Screen) -> (r: bool)
        ensures
            r == Player::fits(*screen),
    {
        let (_, h) = screen.size();
        PLAYER_W <= screen.w as i64 * 700_000 && PLAYER_H <= h
    }

    /// The ship as it appears: near the left end, half way down, flying
    /// level, with the plain cannon.
    pub open spec fn initial(screen: Screen) -> Player {
        Player {
            rect: Rectangle {
                x: PLAYER_START_X,
                y: div_toward_zero(screen.height() - PLAYER_H, 2) as i64,
                w: PLAYER_W,
                h: PLAYER_H,
            },
            current: PlayerFrame::MidNorm,
            cannon: CannonType::RectBullet,
        }
    }

    /// The step along x during `elapsed` microseconds with the given keys held.
    pub open spec fn step_x(events: Events, elapsed: int) -> int {
        axis(events.key_left, events.key_right) * step_length(
            (events.key_up != events.key_down) && (events.key_left != events.key_right),
            elapsed,
        )
    }

    /// The step along y during `elapsed` microseconds with the given keys held.
    pub open spec fn step_y(events: Events, elapsed: int) -> int {
        axis(events.key_up, events.key_down) * step_length(
            (events.key_up != events.key_down) && (events.key_left != events.key_right),
            elapsed,
        )
    }

    /// The ship after a frame of `elapsed` microseconds: the weapon keys select
    /// the cannon, the direction keys move the ship, the ship is put back into
    /// the part of the screen in which it moves, and its frame shows where it
    /// is heading.
    pub open spec fn updated(self, phi: Phi, elapsed: int) -> Player {
        let dx = Self::step_x(phi.events, elapsed);
        let dy = Self::step_y(phi.events, elapsed);
        let region = movable_region(phi.screen);
        Player {
            rect: Rectangle {
                x: fit_axis(self.rect.x + dx, self.rect.w as int, 0, region.w as int) as i64,
                y: fit_axis(self.rect.y + dy, self.rect.h as int, 0, region.h as int) as i64,
                w: self.rect.w,
                h: self.rect.h,
            },
            current: PlayerFrame::for_step(dx, dy),
            cannon: selected_cannon(phi.events, self.cannon),
        }
    }

    /// The two bullets of a shot: the mounts are 30 pixels right of the ship's
    /// left edge, 6 pixels below its top and 10 above its bottom.
    pub open spec fn shot(self) -> Seq<Bullet> {
        shot(
            self.cannon,
            (self.rect.x + 30 * MICRO) as i64,
            (self.rect.y + 6 * MICRO) as i64,
            (self.rect.y + PLAYER_H - 10 * MICRO) as i64,
        )
    }

    pub fn new(phi: &Phi) -> (r: Player)
        ensures
            r == Player::initial(phi.screen),
            r.wf(),
    {
        let (_, h) = phi.output_size();
        Player {
            rect: Rectangle { x: PLAYER_START_X, y: (h - PLAYER_H) / 2, w: PLAYER_W, h: PLAYER_H },
            current: PlayerFrame::MidNorm,
            cannon: CannonType::RectBullet,
        }
    }

    /// One frame of the ship: see `updated`. The ship must fit into the part of
    /// the screen in which it moves.
    pub fn update(&mut self, phi: &Phi, elapsed: u64)
        requires
            old(self).wf(),
            Player::fits(phi.screen),
        ensures
            *final(self) == old(self).updated(*phi, elapsed as int),
            final(self).wf(),
            movable_region(phi.screen).contains_spec(final(self).rect),
    {
        if pressed(phi.events.now.key_1) {
            self.cannon = CannonType::RectBullet;
        }
        if pressed(phi.events.now.key_2) {
            self.cannon = CannonType::SineBullet { amplitude: 10_000_000, angular_vel: 15 };
        }
        if pressed(phi.events.now.key_3) {
            self.cannon = CannonType::DivergentBullet { a: 100_000_000, b: 1_200_000 };
        }
        let diagonal: bool = (phi.events.key_up != phi.events.key_down) && (phi.events.key_left
            != phi.events.key_right);
        assert(0 <= PLAYER_SPEED as int * elapsed as int <= 180 * 0xffff_ffff_ffff_ffff)
            by (nonlinear_arith);
        let straight: i128 = PLAYER_SPEED as i128 * elapsed as i128;
        let moved: i128 = if diagonal {
            straight * DIAGONAL_BILLIONTHS as i128 / 1_000_000_000
        } else {
            straight
        };
        assert(0 <= moved <= 180 * 0xffff_ffff_ffff_ffff * DIAGONAL_BILLIONTHS);
        let dx: i128 = if phi.events.key_left == phi.events.key_right {
            0
        } else if phi.events.key_left {
            -moved
        } else {
            moved
        };
        let dy: i128 = if phi.events.key_up == phi.events.key_down {
            0
        } else if phi.events.key_up {
            -moved
        } else {
            moved
        };
        proof {
            let len = step_length(diagonal, elapsed as int);
            assert(moved == len);
            assert(-1 * len == -len && 0 * len == 0 && 1 * len == len) by (nonlinear_arith);
            assert(dx == Player::step_x(phi.events, elapsed as int));
            assert(dy == Player::step_y(phi.events, elapsed as int));
        }
        let (win_w, win_h) = phi.output_size();
        let region_w: i128 = phi.screen.w as i128 * 700_000;
        let region_h: i128 = win_h as i128;
        let x: i128 = self.rect.x as i128 + dx;
        let y: i128 = self.rect.y as i128 + dy;
        let w: i128 = self.rect.w as i128;
        let h: i128 = self.rect.h as i128;
        let new_x: i128 = if x < 0 {
            0
        } else if x + w >= region_w {
            region_w - w
        } else {
            x
        };
        let new_y: i128 = if y < 0 {
            0
        } else if y + h >= region_h {
            region_h - h
        } else {
            y
        };
        self.rect = Rectangle { x: new_x as i64, y: new_y as i64, w: self.rect.w, h: self.rect.h };
        self.current = if dy < 0 {
            if dx == 0 {
                PlayerFrame::UpNorm
            } else if dx > 0 {
                PlayerFrame::UpFast
            } else {
                PlayerFrame::UpSlow
            }
        } else if dy == 0 {
            if dx == 0 {
                PlayerFrame::MidNorm
            } else if dx > 0 {
                PlayerFrame::MidFast
            } else {
                PlayerFrame::MidSlow
            }
        } else {
            if dx == 0 {
                PlayerFrame::DownNorm
            } else if dx > 0 {
                PlayerFrame::DownFast
            } else {
                PlayerFrame::DownSlow
            }
        };
    }

    /// What to draw for the ship: its current frame, where the ship is.
    pub fn render(&self) -> (r: Draw)
        ensures
            r == Draw::Ship(self.current, self.rect),
    {
        Draw::Ship(self.current, self.rect)
    }

    /// Fires the ship's cannon once.
    pub fn spawn_bullets(&self) -> (r: Vec<Bullet>)
        requires
            self.wf(),
        ensures
            r@ == self.shot(),
            r@.len() == 2,
            r@[0].wf(),
            r@[1].wf(),
    {
        let cannons_x: i64 = self.rect.x + 30 * MICRO;
        let cannon1_y: i64 = self.rect.y + 6 * MICRO;
        let cannon2_y: i64 = self.rect.y + PLAYER_H - 10 * MICRO;
        spawn_bullets(self.cannon, cannons_x, cannon1_y, cannon2_y)
    }
}

/// A rock that drifts to the left at `vel` pixels per second, tumbling as it goes.
#[derive(Clone, Copy, Debug, PartialEq, Eq, Structural)]
pub struct Asteroid {
    pub sprite: AnimatedSprite,
    pub rect: Rectangle,
    pub vel: u32,
}

/// Makes asteroids: it holds the animation that each of them starts with.
#[derive(Clone, Copy, Debug, PartialEq, Eq, Structural)]
pub struct AsteroidFactory {
    pub sprite: AnimatedSprite,
}

/// A place between 0 and `span`, picked by `draw`: 0 where there is no room,
/// else `draw` taken modulo the room, on the side of 0 on which `span` lies.
pub open spec fn spread(draw: int, span: int) -> int {
    if span > 0 {
        draw % span
    } else if span < 0 {
        -(draw % (-span))
    } else {
        0
    }
}

/// Whether a roll of the dice lets an asteroid appear: one roll in a hundred does.
pub open spec fn roll_spawns(roll: int) -> bool {
    roll % 100 == 0
}

impl Asteroid {
    pub open spec fn wf(self) -> bool {
        &&& self.sprite.wf()
        &&& self.rect.bounded()
    }

    /// The asteroid after `dt` more microseconds, wherever that is.
    pub open spec fn advanced(self, dt: int) -> Asteroid {
        Asteroid {
            sprite: AnimatedSprite {
                current_time: ((self.sprite.current_time + dt) % loop_period(
                    self.sprite.total_frames as int,
                )) as u64,
                ..self.sprite
            },
            rect: Rectangle { x: (self.rect.x - dt * self.vel) as i64, ..self.rect },
            vel: self.vel,
        }
    }

    /// Whether the asteroid leaves after `dt` more microseconds: it is then a
    /// whole asteroid's width left of the screen's left end.
    pub open spec fn leaves(self, dt: int) -> bool {
        self.rect.x - dt * self.vel <= -ASTEROID_SIDE
    }

    /// What becomes of the asteroid after `dt` more microseconds.
    pub open spec fn updated(self, dt: int) -> Option<Asteroid> {
        if self.leaves(dt) {
            None
        } else {
            Some(self.advanced(dt))
        }
    }

    /// How the sheet of the asteroid's animation is cut.
    pub fn descr() -> (r: AnimatedSpriteDescr)
        ensures
            r.valid(),
            r.total_frames == ASTEROIDS_TOTAL,
            r.frames_wide == ASTEROIDS_WIDE,
            r.frames_high == ASTEROIDS_HIGH,
            r.frame_w == ASTEROID_SIDE,
            r.frame_h == ASTEROID_SIDE,
    {
        AnimatedSpriteDescr {
            image_path: ASTEROID_PATH,
            total_frames: ASTEROIDS_TOTAL,
            frames_high: ASTEROIDS_HIGH,
            frames_wide: ASTEROIDS_WIDE,
            frame_w: ASTEROID_SIDE,
            frame_h: ASTEROID_SIDE,
        }
    }

    pub fn factory() -> (r: AsteroidFactory)
        ensures
            r.sprite == (AnimatedSprite { total_frames: ASTEROIDS_TOTAL, fps: 1, current_time: 0 }),
            r.wf(),
    {
        AsteroidFactory { sprite: AnimatedSprite::with_fps(ASTEROIDS_TOTAL, 1) }
    }

    /// Moves the asteroid on by `dt` microseconds, or reports that it is gone.
    pub fn update(self, dt: u64) -> (r: Option<Asteroid>)
        requires
            self.wf(),
        ensures
            r == self.updated(dt as int),
            r matches Some(a) ==> a.wf() && a.rect.x == self.rect.x - dt * self.vel,
    {
        assert(0 <= dt as int * self.vel as int <= 0xffff_ffff_ffff_ffff * 0xffff_ffff)
            by (nonlinear_arith);
        let x: i128 = self.rect.x as i128 - dt as i128 * self.vel as i128;
        let mut sprite = self.sprite;
        sprite.add_time(dt);
        if x <= -(ASTEROID_SIDE as i128) {
            None
        } else {
            Some(Asteroid { sprite, rect: Rectangle { x: x as i64, ..self.rect }, vel: self.vel })
        }
    }

    /// What to draw for the asteroid: the frame that its animation is at, where
    /// the asteroid is.
    pub fn render(&self) -> (r: Draw)
        requires
            self.wf(),
        ensures
            r == Draw::Asteroid(self.sprite.frame_index() as u32, self.rect),
    {
        Draw::Asteroid(self.sprite.frame(), self.rect)
    }

    /// The asteroid's bounding box.
    pub fn rect(&self) -> (r: Rectangle)
        ensures
            r == self.rect,
    {
        self.rect
    }
}

/// `rand::random::<usize>()`: a number that the thread's generator gives. The
/// contract claims nothing of it.
#[verifier::external_body]
fn random_usize() -> (r: usize) {
    rand::random::<usize>()
}

impl AsteroidFactory {
    pub open spec fn wf(self) -> bool {
        self.sprite.wf()
    }

    /// The asteroid that three draws make on `screen`: it starts at the right
    /// end, at a height between the top and one asteroid above the bottom, drifts
    /// at 50 up to 149 pixels per second, and tumbles at 10 up to 29 frames
    /// per second.
    pub open spec fn made(self, screen: Screen, fps_draw: int, y_draw: int, vel_draw: int)
        -> Asteroid {
        Asteroid {
            sprite: AnimatedSprite { fps: (10 + fps_draw % 20) as u32, ..self.sprite },
            rect: Rectangle {
                x: screen.width() as i64,
                y: spread(y_draw, screen.height() - ASTEROID_SIDE) as i64,
                w: ASTEROID_SIDE,
                h: ASTEROID_SIDE,
            },
            vel: (50 + vel_draw % 100) as u32,
        }
    }

    /// Whether `asteroid` is one that this factory makes on `screen`.
    pub open spec fn makes(self, screen: Screen, asteroid: Asteroid) -> bool {
        exists|fps_draw: usize, y_draw: usize, vel_draw: usize|
            asteroid == #[trigger] self.made(
                screen,
                fps_draw as int,
                y_draw as int,
                vel_draw as int,
            )
    }

    /// The asteroid that three draws make: see `made`.
    pub fn from_draws(&self, phi: &Phi, fps_draw: usize, y_draw: usize, vel_draw: usize) -> (r:
        Asteroid)
        requires
            self.wf(),
        ensures
            r == self.made(phi.screen, fps_draw as int, y_draw as int, vel_draw as int),
            r.wf(),
            10 <= r.sprite.fps < 30,
            50 <= r.vel < 150,
            r.rect.x == phi.screen.width(),
            phi.screen.height() > ASTEROID_SIDE ==> 0 <= r.rect.y < phi.screen.height()
                - ASTEROID_SIDE,
            phi.screen.height() <= ASTEROID_SIDE ==> phi.screen.height() - ASTEROID_SIDE
                <= r.rect.y <= 0,
    {
        let (w, h) = phi.output_size();
        let mut sprite = self.sprite;
        sprite.set_fps(10 + (fps_draw % 20) as u32);
        let span: i64 = h - ASTEROID_SIDE;
        let y: i64 = if span > 0 {
            (y_draw as u64 % span as u64) as i64
        } else if span < 0 {
            -((y_draw as u64 % (-span) as u64) as i64)
        } else {
            0
        };
        Asteroid {
            sprite,
            rect: Rectangle { x: w, y, w: ASTEROID_SIDE, h: ASTEROID_SIDE },
            vel: 50 + (vel_draw % 100) as u32,
        }
    }

    /// A new asteroid at the right end of the screen, at a height, with a speed
    /// and with a tumbling rate that chance picks.
    pub fn random(&self, phi: &Phi) -> (r: Asteroid)
        requires
            self.wf(),
        ensures
            self.makes(phi.screen, r),
            r.wf(),
    {
        let fps_draw: usize = random_usize();
        let y_draw: usize = random_usize();
        let vel_draw: usize = random_usize();
        self.from_draws(phi, fps_draw, y_draw, vel_draw)
    }

    /// What appears for a roll of the dice: one roll in a hundred, a roll that
    /// is a multiple of 100, lets an asteroid appear, which chance then makes;
    /// any other roll lets nothing appear.
    pub fn spawn_on(&self, phi: &Phi, roll: usize) -> (r: Option<Asteroid>)
        requires
            self.wf(),
        ensures
            r is Some <==> roll_spawns(roll as int),
            r matches Some(asteroid) ==> self.makes(phi.screen, asteroid) && asteroid.wf(),
    {
        if roll % 100 == 0 {
            Some(self.random(phi))
        } else {
            None
        }
    }
}

/// The burst that an asteroid leaves behind: an animation that plays once.
#[derive(Clone, Copy, Debug, PartialEq, Eq, Structural)]
pub struct Explosion {
    pub sprite: AnimatedSprite,
    pub rect: Rectangle,
    /// For how long the explosion has been there, in microseconds.
    pub alive_since: u64,
}

/// Makes explosions: it holds the animation that each of them starts with.
#[derive(Clone, Copy, Debug, PartialEq, Eq, Structural)]
pub struct ExplosionFactory {
    pub sprite: AnimatedSprite,
}

impl Explosion {
    pub open spec fn wf(self) -> bool {
        &&& self.sprite.wf()
        &&& self.alive_since < EXPLOSION_DURATION
    }

    /// The explosion after `dt` more microseconds, whether or not it is over.
    pub open spec fn advanced(self, dt: int) -> Explosion {
        Explosion {
            sprite: AnimatedSprite {
                current_time: ((self.sprite.current_time + dt) % loop_period(
                    self.sprite.total_frames as int,
                )) as u64,
                ..self.sprite
            },
            rect: self.rect,
            alive_since: (self.alive_since + dt) as u64,
        }
    }

    /// Whether the explosion is over after `dt` more microseconds: it has then
    /// played for as long as its animation lasts.
    pub open spec fn ends(self, dt: int) -> bool {
        self.alive_since + dt >= EXPLOSION_DURATION
    }

    /// What becomes of the explosion after `dt` more microseconds.
    pub open spec fn updated(self, dt: int) -> Option<Explosion> {
        if self.ends(dt) {
            None
        } else {
            Some(self.advanced(dt))
        }
    }

    /// How the sheet of the explosion's animation is cut.
    pub fn descr() -> (r: AnimatedSpriteDescr)
        ensures
            r.valid(),
            r.total_frames == EXPLOSIONS_TOTAL,
            r.frames_wide == EXPLOSIONS_WIDE,
            r.frames_high == EXPLOSIONS_HIGH,
            r.frame_w == EXPLOSION_SIDE,
            r.frame_h == EXPLOSION_SIDE,
    {
        assert(EXPLOSIONS_WIDE * EXPLOSIONS_HIGH == 20 && EXPLOSIONS_WIDE * EXPLOSION_SIDE
            == 480_000_000 && EXPLOSIONS_HIGH * EXPLOSION_SIDE == 384_000_000)
            by (nonlinear_arith);
        AnimatedSpriteDescr {
            image_path: EXPLOSION_PATH,
            total_frames: EXPLOSIONS_TOTAL,
            frames_high: EXPLOSIONS_HIGH,
            frames_wide: EXPLOSIONS_WIDE,
            frame_w: EXPLOSION_SIDE,
            frame_h: EXPLOSION_SIDE,
        }
    }

    pub fn factory() -> (r: ExplosionFactory)
        ensures
            r.sprite == (AnimatedSprite {
                total_frames: EXPLOSIONS_TOTAL,
                fps: EXPLOSION_FPS,
                current_time: 0,
            }),
            r.wf(),
    {
        ExplosionFactory { sprite: AnimatedSprite::with_fps(EXPLOSIONS_TOTAL, EXPLOSION_FPS) }
    }

    /// Lets the explosion play for `dt` more microseconds, or reports that it is over.
    pub fn update(self, dt: u64) -> (r: Option<Explosion>)
        requires
            self.wf(),
        ensures
            r == self.updated(dt as int),
            r matches Some(e) ==> e.wf(),
    {
        if dt >= EXPLOSION_DURATION - self.alive_since {
            return None;
        }
        let mut sprite = self.sprite;
        sprite.add_time(dt);
        Some(Explosion { sprite, rect: self.rect, alive_since: self.alive_since + dt })
    }

    /// What to draw for the explosion: the frame that its animation is at, where
    /// the explosion is.
    pub fn render(&self) -> (r: Draw)
        requires
            self.wf(),
        ensures
            r == Draw::Explosion(self.sprite.frame_index() as u32, self.rect),
    {
        Draw::Explosion(self.sprite.frame(), self.rect)
    }
}

impl ExplosionFactory {
    pub open spec fn wf(self) -> bool {
        self.sprite.wf()
    }

    /// The explosion that begins with its middle at `center`.
    pub open spec fn made(self, center: (int, int)) -> Explosion {
        Explosion {
            sprite: self.sprite,
            rect: Rectangle {
                x: (center.0 - EXPLOSION_SIDE / 2) as i64,
                y: (center.1 - EXPLOSION_SIDE / 2) as i64,
                w: EXPLOSION_SIDE,
                h: EXPLOSION_SIDE,
            },
            alive_since: 0,
        }
    }

    /// A new explosion with its middle at `center`.
    pub fn at_center(&self, center: (i64, i64)) -> (r: Explosion)
        requires
            self.wf(),
            i64::MIN + EXPLOSION_SIDE <= center.0,
            i64::MIN + EXPLOSION_SIDE <= center.1,
        ensures
            r == self.made((center.0 as int, center.1 as int)),
            r.wf(),
    {
        Explosion {
            sprite: self.sprite,
            rect: Rectangle::with_size(EXPLOSION_SIDE, EXPLOSION_SIDE).center_at(center),
            alive_since: 0,
        }
    }
}

/// What becomes of each bullet after `dt` more microseconds.
pub open spec fn bullets_updated(bullets: Seq<Bullet>, phi: Phi, dt: int) -> Seq<Option<Bullet>> {
    Seq::new(bullets.len(), |i: int| bullets[i].updated(phi, dt))
}

/// What becomes of each asteroid after `dt` more microseconds.
pub open spec fn asteroids_updated(asteroids: Seq<Asteroid>, dt: int) -> Seq<Option<Asteroid>> {
    Seq::new(asteroids.len(), |i: int| asteroids[i].updated(dt))
}

/// What becomes of each explosion after `dt` more microseconds.
pub open spec fn explosions_updated(explosions: Seq<Explosion>, dt: int) -> Seq<
    Option<Explosion>,
> {
    Seq::new(explosions.len(), |i: int| explosions[i].updated(dt))
}

/// Whether every bullet is well formed.
pub open spec fn bullets_wf(bullets: Seq<Bullet>) -> bool {
    forall|i: int| 0 <= i < bullets.len() ==> (#[trigger] bullets[i]).wf()
}

/// Whether every asteroid is well formed.
pub open spec fn asteroids_wf(asteroids: Seq<Asteroid>) -> bool {
    forall|i: int| 0 <= i < asteroids.len() ==> (#[trigger] asteroids[i]).wf()
}

/// Whether every explosion is well formed.
pub open spec fn explosions_wf(explosions: Seq<Explosion>) -> bool {
    forall|i: int| 0 <= i < explosions.len() ==> (#[trigger] explosions[i]).wf()
}

/// Moves every bullet on by `dt` microseconds and keeps, in their order, those
/// that are still there.
pub fn update_bullets(bullets: Vec<Bullet>, phi: &Phi, dt: u64) -> (r: Vec<Bullet>)
    requires
        bullets_wf(bullets@),
    ensures
        r@ == keep_some(bullets_updated(bullets@, *phi, dt as int)),
        bullets_wf(r@),
{
    let ghost all = bullets_updated(bullets@, *phi, dt as int);
    let mut kept: Vec<Bullet> = Vec::new();
    let mut i: usize = 0;
    proof {
        lemma_keep_some_start(all);
    }
    while i < bullets.len()
        invariant
            0 <= i <= bullets.len(),
            bullets_wf(bullets@),
            all == bullets_updated(bullets@, *phi, dt as int),
            kept@ == keep_some(all.take(i as int)),
            bullets_wf(kept@),
        decreases bullets.len() - i,
    {
        proof {
            lemma_keep_some_step(all, i as int);
        }
        match bullets[i].update(phi, dt) {
            Some(b) => {
                kept.push(b);
            },
            None => {},
        }
        i += 1;
    }
    proof {
        assert(all.take(i as int) =~= all);
    }
    kept
}

/// Moves every asteroid on by `dt` microseconds and keeps, in their order,
/// those that are still there.
pub fn update_asteroids(asteroids: Vec<Asteroid>, dt: u64) -> (r: Vec<Asteroid>)
    requires
        asteroids_wf(asteroids@),
    ensures
        r@ == keep_some(asteroids_updated(asteroids@, dt as int)),
        asteroids_wf(r@),
{
    let ghost all = asteroids_updated(asteroids@, dt as int);
    let mut kept: Vec<Asteroid> = Vec::new();
    let mut i: usize = 0;
    proof {
        lemma_keep_some_start(all);
    }
    while i < asteroids.len()
        invariant
            0 <= i <= asteroids.len(),
            asteroids_wf(asteroids@),
            all == asteroids_updated(asteroids@, dt as int),
            kept@ == keep_some(all.take(i as int)),
            asteroids_wf(kept@),
        decreases asteroids.len() - i,
    {
        proof {
            lemma_keep_some_step(all, i as int);
        }
        match asteroids[i].update(dt) {
            Some(a) => {
                kept.push(a);
            },
            None => {},
        }
        i += 1;
    }
    proof {
        assert(all.take(i as int) =~= all);
    }
    kept
}

/// Lets every explosion play for `dt` more microseconds and keeps, in their
/// order, those that are not over.
pub fn update_explosions(explosions: Vec<Explosion>, dt: u64) -> (r: Vec<Explosion>)
    requires
        explosions_wf(explosions@),
    ensures
        r@ == keep_some(explosions_updated(explosions@, dt as int)),
        explosions_wf(r@),
{
    let ghost all = explosions_updated(explosions@, dt as int);
    let mut kept: Vec<Explosion> = Vec::new();
    let mut i: usize = 0;
    proof {
        lemma_keep_some_start(all);
    }
    while i < explosions.len()
        invariant
            0 <= i <= explosions.len(),
            explosions_wf(explosions@),
            all == explosions_updated(explosions@, dt as int),
            kept@ == keep_some(all.take(i as int)),
            explosions_wf(kept@),
        decreases explosions.len() - i,
    {
        proof {
            lemma_keep_some_step(all, i as int);
        }
        match explosions[i].update(dt) {
            Some(e) => {
                kept.push(e);
            },
            None => {},
        }
        i += 1;
    }
    proof {
        assert(all.take(i as int) =~= all);
    }
    kept
}

/// Whether the asteroid at `rect` overlaps one of the first `n` bullets.
pub open spec fn meets_bullet(rect: Rectangle, bullets: Seq<Bullet>, sine: SineTable, n: int)
    -> bool {
    exists|i: int| 0 <= i < n && rect.overlaps_spec(#[trigger] bullets[i].rect_spec(sine))
}

/// Whether one of the first `n` asteroids overlaps `rect`.
pub open spec fn met_by_asteroid(rect: Rectangle, asteroids: Seq<Asteroid>, n: int) -> bool {
    exists|j: int| 0 <= j < n && (#[trigger] asteroids[j]).rect.overlaps_spec(rect)
}

/// Whether the asteroid is destroyed: it overlaps a bullet or the ship.
pub open spec fn destroyed(
    asteroid: Asteroid,
    bullets: Seq<Bullet>,
    sine: SineTable,
    player: Rectangle,
) -> bool {
    meets_bullet(asteroid.rect, bullets, sine, bullets.len() as int)
        || asteroid.rect.overlaps_spec(player)
}

/// Each asteroid, where it is not destroyed.
pub open spec fn asteroids_left(
    asteroids: Seq<Asteroid>,
    bullets: Seq<Bullet>,
    sine: SineTable,
    player: Rectangle,
) -> Seq<Option<Asteroid>> {
    Seq::new(
        asteroids.len(),
        |j: int|
            if destroyed(asteroids[j], bullets, sine, player) {
                None
            } else {
                Some(asteroids[j])
            },
    )
}

/// For each asteroid that is destroyed, the explosion that takes its place: its
/// middle is where the middle of the asteroid was.
pub open spec fn blasts(
    asteroids: Seq<Asteroid>,
    bullets: Seq<Bullet>,
    sine: SineTable,
    player: Rectangle,
    factory: ExplosionFactory,
) -> Seq<Option<Explosion>> {
    Seq::new(
        asteroids.len(),
        |j: int|
            if destroyed(asteroids[j], bullets, sine, player) {
                Some(factory.made(asteroids[j].rect.center_spec()))
            } else {
                None
            },
    )
}

/// Each bullet, where no asteroid overlaps it.
pub open spec fn bullets_left(bullets: Seq<Bullet>, asteroids: Seq<Asteroid>, sine: SineTable)
    -> Seq<Option<Bullet>> {
    Seq::new(
        bullets.len(),
        |i: int|
            if met_by_asteroid(bullets[i].rect_spec(sine), asteroids, asteroids.len() as int) {
                None
            } else {
                Some(bullets[i])
            },
    )
}

/// The steps that draw the bullets: each a filled rectangle.
pub open spec fn bullet_draws(bullets: Seq<Bullet>, sine: SineTable) -> Seq<Draw> {
    Seq::new(bullets.len(), |i: int| Draw::Fill(bullet_color(), bullets[i].rect_spec(sine)))
}

/// The steps that draw the asteroids, each at the frame that its animation is at.
pub open spec fn asteroid_draws(asteroids: Seq<Asteroid>) -> Seq<Draw> {
    Seq::new(
        asteroids.len(),
        |i: int| Draw::Asteroid(asteroids[i].sprite.frame_index() as u32, asteroids[i].rect),
    )
}

/// The steps that draw the explosions, each at the frame that its animation is at.
pub open spec fn explosion_draws(explosions: Seq<Explosion>) -> Seq<Draw> {
    Seq::new(
        explosions.len(),
        |i: int| Draw::Explosion(explosions[i].sprite.frame_index() as u32, explosions[i].rect),
    )
}

/// What one pass of collisions leaves: the bullets and the asteroids that go
/// on, the explosions that it began, and whether the ship came through.
pub struct Collisions {
    pub bullets: Vec<Bullet>,
    pub asteroids: Vec<Asteroid>,
    pub explosions: Vec<Explosion>,
    pub player_alive: bool,
}

/// One pass of collisions. Every asteroid is held against every bullet and
/// against the ship. An asteroid that overlaps any of them is destroyed, and an
/// explosion begins where it was; every bullet that an asteroid overlaps is
/// gone, so that one asteroid may take several bullets with it; the ship is hit
/// if an asteroid overlaps it. What is left keeps its order.
pub fn collide(
    bullets: Vec<Bullet>,
    asteroids: Vec<Asteroid>,
    player: Rectangle,
    factory: &ExplosionFactory,
    sine: &SineTable,
) -> (r: Collisions)
    requires
        bullets_wf(bullets@),
        asteroids_wf(asteroids@),
        factory.wf(),
        sine.wf(),
    ensures
        r.bullets@ == keep_some(bullets_left(bullets@, asteroids@, *sine)),
        r.asteroids@ == keep_some(asteroids_left(asteroids@, bullets@, *sine, player)),
        r.explosions@ == keep_some(blasts(asteroids@, bullets@, *sine, player, *factory)),
        r.player_alive == !met_by_asteroid(player, asteroids@, asteroids@.len() as int),
        r.asteroids@.len() + r.explosions@.len() == asteroids@.len(),
        bullets_wf(r.bullets@),
        asteroids_wf(r.asteroids@),
        explosions_wf(r.explosions@),
{
    let ghost left = asteroids_left(asteroids@, bullets@, *sine, player);
    let ghost gone = blasts(asteroids@, bullets@, *sine, player, *factory);
    let mut player_alive: bool = true;
    let mut transition: Vec<MaybeAlive<Bullet>> = Vec::new();
    let mut i: usize = 0;
    while i < bullets.len()
        invariant
            0 <= i <= bullets.len(),
            transition@.len() == i,
            forall|k: int|
                0 <= k < i ==> (#[trigger] transition@[k]).alive && transition@[k].value
                    == bullets@[k],
        decreases bullets.len() - i,
    {
        transition.push(MaybeAlive { alive: true, value: bullets[i] });
        i += 1;
    }
    let mut survivors: Vec<Asteroid> = Vec::new();
    let mut explosions: Vec<Explosion> = Vec::new();
    let mut j: usize = 0;
    proof {
        lemma_keep_some_start(left);
        lemma_keep_some_start(gone);
    }
    while j < asteroids.len()
        invariant
            0 <= j <= asteroids.len(),
            bullets_wf(bullets@),
            asteroids_wf(asteroids@),
            factory.wf(),
            sine.wf(),
            left == asteroids_left(asteroids@, bullets@, *sine, player),
            gone == blasts(asteroids@, bullets@, *sine, player, *factory),
            transition@.len() == bullets@.len(),
            forall|k: int|
                0 <= k < bullets@.len() ==> (#[trigger] transition@[k]).value == bullets@[k],
            forall|k: int|
                0 <= k < bullets@.len() ==> ((#[trigger] transition@[k]).alive
                    <==> !met_by_asteroid(bullets@[k].rect_spec(*sine), asteroids@, j as int)),
            player_alive == !met_by_asteroid(player, asteroids@, j as int),
            survivors@ == keep_some(left.take(j as int)),
            explosions@ == keep_some(gone.take(j as int)),
            survivors@.len() + explosions@.len() == j,
            asteroids_wf(survivors@),
            explosions_wf(explosions@),
        decreases asteroids.len() - j,
    {
        let asteroid: Asteroid = asteroids[j];
        let rect: Rectangle = asteroid.rect();
        let mut asteroid_alive: bool = true;
        let mut i: usize = 0;
        while i < transition.len()
            invariant
                0 <= i <= transition@.len(),
                0 <= j < asteroids@.len(),
                asteroid == asteroids@[j as int],
                rect == asteroid.rect,
                bullets_wf(bullets@),
                sine.wf(),
                transition@.len() == bullets@.len(),
                forall|k: int|
                    0 <= k < bullets@.len() ==> (#[trigger] transition@[k]).value == bullets@[k],
                forall|k: int|
                    0 <= k < bullets@.len() ==> ((#[trigger] transition@[k]).alive <==> !(
                    met_by_asteroid(bullets@[k].rect_spec(*sine), asteroids@, j as int) || (k < i
                        && rect.overlaps_spec(bullets@[k].rect_spec(*sine))))),
                asteroid_alive == !meets_bullet(rect, bullets@, *sine, i as int),
            decreases transition@.len() - i,
        {
            let bullet: Bullet = transition[i].value;
            let hit: bool = rect.overlaps(bullet.rect(sine));
            if hit {
                asteroid_alive = false;
                transition.set(i, MaybeAlive { alive: false, value: bullet });
            }
            i += 1;
        }
        proof {
            assert forall|k: int| 0 <= k < bullets@.len() implies ((
            #[trigger] transition@[k]).alive <==> !met_by_asteroid(
                bullets@[k].rect_spec(*sine),
                asteroids@,
                j + 1,
            )) by {
                let b = bullets@[k].rect_spec(*sine);
                if met_by_asteroid(b, asteroids@, j + 1) {
                    let w = choose|w: int|
                        0 <= w < j + 1 && (#[trigger] asteroids@[w]).rect.overlaps_spec(b);
                    if w < j {
                        assert(met_by_asteroid(b, asteroids@, j as int));
                    }
                }
                if met_by_asteroid(b, asteroids@, j as int) || rect.overlaps_spec(b) {
                    if met_by_asteroid(b, asteroids@, j as int) {
                        let w = choose|w: int|
                            0 <= w < j && (#[trigger] asteroids@[w]).rect.overlaps_spec(b);
                        assert(asteroids@[w].rect.overlaps_spec(b));
                    } else {
                        assert(asteroids@[j as int].rect.overlaps_spec(b));
                    }
                    assert(met_by_asteroid(b, asteroids@, j + 1));
                }
            }
        }
        if rect.overlaps(player) {
            asteroid_alive = false;
            player_alive = false;
        }
        proof {
            if met_by_asteroid(player, asteroids@, j + 1) {
                let w = choose|w: int|
                    0 <= w < j + 1 && (#[trigger] asteroids@[w]).rect.overlaps_spec(player);
                if w < j {
                    assert(met_by_asteroid(player, asteroids@, j as int));
                }
            }
            if met_by_asteroid(player, asteroids@, j as int) {
                let w = choose|w: int|
                    0 <= w < j && (#[trigger] asteroids@[w]).rect.overlaps_spec(player);
                assert(asteroids@[w].rect.overlaps_spec(player));
            }
            if rect.overlaps_spec(player) {
                assert(asteroids@[j as int].rect.overlaps_spec(player));
            }
            assert(asteroid_alive == !destroyed(asteroid, bullets@, *sine, player));
            lemma_keep_some_step(left, j as int);
            lemma_keep_some_step(gone, j as int);
        }
        if asteroid_alive {
            survivors.push(asteroid);
        } else {
            let center = rect.center();
            explosions.push(factory.at_center(center));
        }
        j += 1;
    }
    let ghost after = bullets_left(bullets@, asteroids@, *sine);
    let mut kept: Vec<Bullet> = Vec::new();
    let mut i: usize = 0;
    proof {
        lemma_keep_some_start(after);
        assert(left.take(j as int) =~= left);
        assert(gone.take(j as int) =~= gone);
    }
    while i < transition.len()
        invariant
            0 <= i <= transition@.len(),
            bullets_wf(bullets@),
            transition@.len() == bullets@.len(),
            after == bullets_left(bullets@, asteroids@, *sine),
            forall|k: int|
                0 <= k < bullets@.len() ==> (#[trigger] transition@[k]).value == bullets@[k],
            forall|k: int|
                0 <= k < bullets@.len() ==> ((#[trigger] transition@[k]).alive
                    <==> !met_by_asteroid(
                    bullets@[k].rect_spec(*sine),
                    asteroids@,
                    asteroids@.len() as int,
                )),
            kept@ == keep_some(after.take(i as int)),
            bullets_wf(kept@),
        decreases transition@.len() - i,
    {
        proof {
            lemma_keep_some_step(after, i as int);
        }
        let entry: MaybeAlive<Bullet> = MaybeAlive {
            alive: transition[i].alive,
            value: transition[i].value,
        };
        match entry.as_option() {
            Some(b) => {
                kept.push(b);
            },
            None => {},
        }
        i += 1;
    }
    proof {
        assert(after.take(i as int) =~= after);
    }
    Collisions { bullets: kept, asteroids: survivors, explosions, player_alive }
}

/// The game itself: the ship, what flies about it, and the backdrop.
pub struct GameView {
    pub player: Player,
    pub bullets: Vec<Bullet>,
    pub asteroids: Vec<Asteroid>,
    pub asteroid_factory: AsteroidFactory,
    pub explosions: Vec<Explosion>,
    pub explosion_factory: ExplosionFactory,
    pub bg: BgSet,
}

/// The state of the game as the contracts speak of it.
pub struct GameModel {
    pub player: Player,
    pub bullets: Seq<Bullet>,
    pub asteroids: Seq<Asteroid>,
    pub asteroid_factory: AsteroidFactory,
    pub explosions: Seq<Explosion>,
    pub explosion_factory: ExplosionFactory,
    pub bg: BgSet,
}

/// As many cues of the sound `sound` as `count` says.
pub open spec fn cues_of(sound: Sound, count: nat) -> Seq<Sound> {
    Seq::new(count, |i: int| sound)
}

impl GameModel {
    pub open spec fn wf(self) -> bool {
        &&& self.player.wf()
        &&& bullets_wf(self.bullets)
        &&& asteroids_wf(self.asteroids)
        &&& explosions_wf(self.explosions)
        &&& self.asteroid_factory.wf()
        &&& self.explosion_factory.wf()
        &&& self.bg.wf()
    }

    /// The game as it begins on `screen` over the backdrop `bg`: the ship in its
    /// first place, and nothing else about.
    pub open spec fn begun(screen: Screen, bg: BgSet) -> GameModel {
        GameModel {
            player: Player::initial(screen),
            bullets: Seq::empty(),
            asteroids: Seq::empty(),
            asteroid_factory: AsteroidFactory {
                sprite: AnimatedSprite { total_frames: ASTEROIDS_TOTAL, fps: 1, current_time: 0 },
            },
            explosions: Seq::empty(),
            explosion_factory: ExplosionFactory {
                sprite: AnimatedSprite {
                    total_frames: EXPLOSIONS_TOTAL,
                    fps: EXPLOSION_FPS,
                    current_time: 0,
                },
            },
            bg,
        }
    }

    /// First the ship moves, then every bullet, asteroid and explosion, each by
    /// itself; what has left or is over is dropped.
    pub open spec fn moved(self, phi: Phi, elapsed: int) -> GameModel {
        GameModel {
            player: self.player.updated(phi, elapsed),
            bullets: keep_some(bullets_updated(self.bullets, phi, elapsed)),
            asteroids: keep_some(asteroids_updated(self.asteroids, elapsed)),
            explosions: keep_some(explosions_updated(self.explosions, elapsed)),
            ..self
        }
    }

    /// The explosions that a pass of collisions begins: one for each asteroid
    /// that is destroyed, in the order of the asteroids.
    pub open spec fn new_blasts(self, sine: SineTable) -> Seq<Explosion> {
        keep_some(
            blasts(self.asteroids, self.bullets, sine, self.player.rect, self.explosion_factory),
        )
    }

    /// Then the pass of collisions: the asteroids that are destroyed give way to
    /// explosions, which join the explosions at the end, and the bullets that an
    /// asteroid overlaps are gone.
    pub open spec fn collided(self, sine: SineTable) -> GameModel {
        GameModel {
            bullets: keep_some(bullets_left(self.bullets, self.asteroids, sine)),
            asteroids: keep_some(
                asteroids_left(self.asteroids, self.bullets, sine, self.player.rect),
            ),
            explosions: self.explosions + self.new_blasts(sine),
            ..self
        }
    }

    /// Whether the frame fires: the fire key was just pressed.
    pub open spec fn fires(events: Events) -> bool {
        is_pressed(events.now.key_space)
    }

    /// Then the shot, if the frame fires: its two bullets join the bullets at the
    /// end, where they are, untouched by this frame's collisions.
    pub open spec fn fired(self, events: Events) -> GameModel {
        if Self::fires(events) {
            GameModel { bullets: self.bullets + self.player.shot(), ..self }
        } else {
            self
        }
    }

    /// Then the asteroid that appears, if one does: it joins the asteroids at
    /// the end.
    pub open spec fn joined(self, spawned: Option<Asteroid>) -> GameModel {
        match spawned {
            Some(asteroid) => GameModel { asteroids: self.asteroids.push(asteroid), ..self },
            None => self,
        }
    }

    /// Last the backdrop scrolls on.
    pub open spec fn scrolled(self, elapsed: int) -> GameModel {
        GameModel { bg: self.bg.scrolled(elapsed), ..self }
    }

    /// The game after a frame of `elapsed` microseconds in which `spawned`
    /// appears: the six steps, in their order.
    pub open spec fn stepped(self, phi: Phi, elapsed: int, spawned: Option<Asteroid>)
        -> GameModel {
        self.moved(phi, elapsed)
            .collided(phi.sine)
            .fired(phi.events)
            .joined(spawned)
            .scrolled(elapsed)
    }

    /// The sounds that the frame asks for: an explosion for each asteroid that
    /// is destroyed, then the shot if the frame fires.
    pub open spec fn cues(self, phi: Phi, elapsed: int) -> Seq<Sound> {
        let blasts = self.moved(phi, elapsed).new_blasts(phi.sine);
        let shot = if Self::fires(phi.events) {
            seq![Sound::Bullet]
        } else {
            Seq::<Sound>::empty()
        };
        cues_of(Sound::Explosion, blasts.len()) + shot
    }

    /// The steps that draw the game on the screen of `phi`: the screen is
    /// cleared; then come the far and the middle layer of the backdrop, the
    /// ship, the bullets, the asteroids, the explosions, and on top of all the
    /// near layer of the backdrop.
    pub open spec fn drawn(self, phi: Phi) -> Seq<Draw> {
        seq![Draw::Clear(black())]
            + backdrop(Layer::Back, self.bg.back.tiles(phi.screen))
            + backdrop(Layer::Middle, self.bg.middle.tiles(phi.screen))
            + seq![Draw::Ship(self.player.current, self.player.rect)]
            + bullet_draws(self.bullets, phi.sine)
            + asteroid_draws(self.asteroids)
            + explosion_draws(self.explosions)
            + backdrop(Layer::Front, self.bg.front.tiles(phi.screen))
    }

    /// Whether the ship comes through the frame: no asteroid overlaps it in
    /// the pass of collisions.
    pub open spec fn player_survives(self, phi: Phi, elapsed: int) -> bool {
        let m = self.moved(phi, elapsed);
        !met_by_asteroid(m.player.rect, m.asteroids, m.asteroids.len() as int)
    }

    /// The notices that the frame gives: that the ship was destroyed, where an
    /// asteroid hit it. Nothing else follows from that.
    pub open spec fn notices(self, phi: Phi, elapsed: int) -> Seq<Notice> {
        if self.player_survives(phi, elapsed) {
            Seq::<Notice>::empty()
        } else {
            seq![Notice::ShipDestroyed]
        }
    }
}

impl vstd::view::View for GameView {
    type V = GameModel;

    open spec fn view(&self) -> GameModel {
        GameModel {
            player: self.player,
            bullets: self.bullets@,
            asteroids: self.asteroids@,
            asteroid_factory: self.asteroid_factory,
            explosions: self.explosions@,
            explosion_factory: self.explosion_factory,
            bg: self.bg,
        }
    }
}

impl GameView {
    pub open spec fn wf(self) -> bool {
        self@.wf()
    }

    /// Whether the game goes on in a frame with these events: the window was not
    /// closed and the cancel key was not pressed. Only then does anything move.
    pub open spec fn goes_on(events: Events) -> bool {
        !events.now.quit && !is_pressed(events.now.key_escape)
    }

    /// Whether `spawned` may appear on the screen of `phi`: it is nothing, or an
    /// asteroid that this game's factory makes there.
    pub open spec fn may_spawn(self, phi: Phi, spawned: Option<Asteroid>) -> bool {
        spawned matches Some(asteroid) ==> self.asteroid_factory.makes(phi.screen, asteroid)
            && asteroid.wf()
    }

    /// What a frame of `elapsed` microseconds leads to. If the window was closed,
    /// the program ends. Else if the cancel key was pressed, the main menu opens
    /// over this game's backdrop. Else the game goes on, one frame further, with
    /// whatever chance lets appear, and has asked for the frame's sounds.
    pub open spec fn update_spec(self, pre: Phi, elapsed: int, action: ViewAction, post: Phi)
        -> bool {
        if pre.events.now.quit {
            action is Quit && post == pre
        } else if is_pressed(pre.events.now.key_escape) {
            &&& action matches ViewAction::Render(crate::phi::View::MainMenu(menu))
            &&& menu.opens_with(self.bg)
            &&& menu.wf()
            &&& post == pre
        } else {
            exists|spawned: Option<Asteroid>|
                {
                    &&& self.may_spawn(pre, spawned)
                    &&& action matches ViewAction::Render(crate::phi::View::Game(game))
                    &&& game@ == #[trigger] self@.stepped(pre, elapsed, spawned)
                    &&& game.wf()
                    &&& post.sounds@ == pre.sounds@ + self@.cues(pre, elapsed)
                    &&& post.notices@ == pre.notices@ + self@.notices(pre, elapsed)
                    &&& post.same_but_output(pre)
                }
        }
    }

    /// The game as it begins, over the backdrop `bg`.
    pub fn with_backgrounds(phi: &Phi, bg: BgSet) -> (r: GameView)
        requires
            bg.wf(),
        ensures
            r@ == GameModel::begun(phi.screen, bg),
            r.wf(),
    {
        let game = GameView {
            player: Player::new(phi),
            bullets: Vec::new(),
            asteroids: Vec::new(),
            asteroid_factory: Asteroid::factory(),
            explosions: Vec::new(),
            explosion_factory: Explosion::factory(),
            bg,
        };
        assert(game@.bullets =~= Seq::empty());
        assert(game@.asteroids =~= Seq::empty());
        assert(game@.explosions =~= Seq::empty());
        game
    }

    /// One frame of the game in which `spawned` appears, if it is an asteroid:
    /// the ship moves; bullets, asteroids and explosions move; collisions are
    /// resolved, each asteroid that is destroyed leaving an explosion and a
    /// sound; the cannon fires if the fire key was just pressed; `spawned`
    /// appears; the backdrop scrolls. A ship that an asteroid hits is reported by
    /// a notice, and flies on.
    pub fn step(self, phi: &mut Phi, elapsed: u64, spawned: Option<Asteroid>) -> (r: GameView)
        requires
            self.wf(),
            old(phi).wf(),
            Player::fits(old(phi).screen),
            spawned matches Some(asteroid) ==> asteroid.wf(),
        ensures
            r@ == self@.stepped(*old(phi), elapsed as int, spawned),
            r.wf(),
            final(phi).sounds@ == old(phi).sounds@ + self@.cues(*old(phi), elapsed as int),
            final(phi).notices@ == old(phi).notices@ + self@.notices(*old(phi), elapsed as int),
            final(phi).same_but_output(*old(phi)),
            final(phi).wf(),
    {
        let ghost pre = *phi;
        let ghost after_move = self@.moved(pre, elapsed as int);
        let mut player = self.player;
        player.update(phi, elapsed);
        let bullets = update_bullets(self.bullets, phi, elapsed);
        let asteroids = update_asteroids(self.asteroids, elapsed);
        let mut explosions = update_explosions(self.explosions, elapsed);
        let hits = collide(bullets, asteroids, player.rect, &self.explosion_factory, &phi.sine);
        let mut bullets = hits.bullets;
        let mut asteroids = hits.asteroids;
        let mut blasts = hits.explosions;
        let ghost new_blasts = blasts@;
        assert(new_blasts == after_move.new_blasts(pre.sine));
        let mut k: usize = 0;
        while k < blasts.len()
            invariant
                0 <= k <= blasts@.len(),
                phi.sounds@ == pre.sounds@ + cues_of(Sound::Explosion, k as nat),
                phi.notices == pre.notices,
                phi.same_but_output(pre),
            decreases blasts@.len() - k,
        {
            phi.play_sound(Sound::Explosion);
            assert(cues_of(Sound::Explosion, k as nat).push(Sound::Explosion) =~= cues_of(
                Sound::Explosion,
                (k + 1) as nat,
            ));
            assert(phi.sounds@ =~= pre.sounds@ + cues_of(Sound::Explosion, (k + 1) as nat));
            k += 1;
        }
        explosions.append(&mut blasts);
        if !hits.player_alive {
            phi.notify(Notice::ShipDestroyed);
            assert(phi.notices@ =~= pre.notices@ + seq![Notice::ShipDestroyed]);
        } else {
            assert(phi.notices@ =~= pre.notices@ + Seq::<Notice>::empty());
        }
        let ghost struck = phi.sounds@;
        if pressed(phi.events.now.key_space) {
            let mut shot = player.spawn_bullets();
            bullets.append(&mut shot);
            phi.play_sound(Sound::Bullet);
            assert(phi.sounds@ =~= struck + seq![Sound::Bullet]);
        } else {
            assert(phi.sounds@ =~= struck + Seq::<Sound>::empty());
        }
        match spawned {
            Some(asteroid) => {
                asteroids.push(asteroid);
            },
            None => {},
        }
        let mut bg = self.bg;
        bg.update(elapsed);
        let game = GameView {
            player,
            bullets,
            asteroids,
            asteroid_factory: self.asteroid_factory,
            explosions,
            explosion_factory: self.explosion_factory,
            bg,
        };
        proof {
            let want = self@.stepped(pre, elapsed as int, spawned);
            assert(game@.bullets =~= want.bullets);
            assert(game@.asteroids =~= want.asteroids);
            assert(game@.explosions =~= want.explosions);
            assert(phi.sounds@ =~= pre.sounds@ + self@.cues(pre, elapsed as int));
        }
        game
    }

    /// The steps that draw the game: see `drawn`.
    pub fn render(&self, phi: &Phi) -> (r: Vec<Draw>)
        requires
            self.wf(),
            phi.wf(),
        ensures
            r@ == self@.drawn(*phi),
    {
        let mut list: Vec<Draw> = Vec::new();
        list.push(Draw::Clear(Color::rgb(0, 0, 0)));
        draw_backdrop(&mut list, Layer::Back, &self.bg.back, &phi.screen);
        draw_backdrop(&mut list, Layer::Middle, &self.bg.middle, &phi.screen);
        list.push(self.player.render());
        let ghost base = list@;
        let mut i: usize = 0;
        while i < self.bullets.len()
            invariant
                0 <= i <= self.bullets@.len(),
                self.wf(),
                phi.wf(),
                list@ == base + bullet_draws(self.bullets@.take(i as int), phi.sine),
            decreases self.bullets@.len() - i,
        {
            list.push(self.bullets[i].render(&phi.sine));
            assert(list@ =~= base + bullet_draws(self.bullets@.take(i + 1), phi.sine));
            i += 1;
        }
        assert(self.bullets@.take(i as int) =~= self.bullets@);
        let ghost base = list@;
        let mut i: usize = 0;
        while i < self.asteroids.len()
            invariant
                0 <= i <= self.asteroids@.len(),
                self.wf(),
                list@ == base + asteroid_draws(self.asteroids@.take(i as int)),
            decreases self.asteroids@.len() - i,
        {
            list.push(self.asteroids[i].render());
            assert(list@ =~= base + asteroid_draws(self.asteroids@.take(i + 1)));
            i += 1;
        }
        assert(self.asteroids@.take(i as int) =~= self.asteroids@);
        let ghost base = list@;
        let mut i: usize = 0;
        while i < self.explosions.len()
            invariant
                0 <= i <= self.explosions@.len(),
                self.wf(),
                list@ == base + explosion_draws(self.explosions@.take(i as int)),
            decreases self.explosions@.len() - i,
        {
            list.push(self.explosions[i].render());
            assert(list@ =~= base + explosion_draws(self.explosions@.take(i + 1)));
            i += 1;
        }
        assert(self.explosions@.take(i as int) =~= self.explosions@);
        draw_backdrop(&mut list, Layer::Front, &self.bg.front, &phi.screen);
        assert(list@ =~= self@.drawn(*phi));
        list
    }

    /// One frame of the game: see `update_spec`. Where the game goes on, the ship
    /// must fit into the part of the screen in which it moves; a frame that ends
    /// the program or opens the menu asks nothing of the screen. Once in a hundred
    /// frames, as chance has it, an asteroid appears.
    pub fn update(self, phi: &mut Phi, elapsed: u64) -> (r: ViewAction)
        requires
            self.wf(),
            old(phi).wf(),
            GameView::goes_on(old(phi).events) ==> Player::fits(old(phi).screen),
        ensures
            self.update_spec(*old(phi), elapsed as int, r, *final(phi)),
            final(phi).wf(),
            r matches ViewAction::Render(next) ==> next.wf(),
    {
        if phi.events.now.quit {
            return ViewAction::Quit;
        }
        if pressed(phi.events.now.key_escape) {
            let bg = self.bg;
            return ViewAction::Render(crate::phi::View::MainMenu(MainMenuView::with_backgrounds(bg)));
        }
        let roll: usize = random_usize();
        let spawned: Option<Asteroid> = self.asteroid_factory.spawn_on(phi, roll);
        let ghost before = self@;
        let ghost pre = *phi;
        let game = self.step(phi, elapsed, spawned);
        assert(game@ == before.stepped(pre, elapsed as int, spawned));
        ViewAction::Render(crate::phi::View::Game(game))
    }
}

/// The ship is no faster across than along. A step along both axes at once is
/// the straight step times the square root of one half, rounded down: the two
/// parts together are no longer than the straight step, and one micro-pixel
/// more along each part would be longer than the factor allows.
pub proof fn lemma_diagonal_is_no_faster(elapsed: u64)
    ensures
        ({
            let straight = step_length(false, elapsed as int);
            let across = step_length(true, elapsed as int);
            &&& 0 <= across <= straight
            &&& 2 * across * across <= straight * straight
            &&& straight * DIAGONAL_BILLIONTHS < (across + 1) * 1_000_000_000
        }),
{
    let m = PLAYER_SPEED * elapsed as int;
    let c = DIAGONAL_BILLIONTHS as int;
    let g = 1_000_000_000int;
    assert(m >= 0) by (nonlinear_arith)
        requires
            m == 180 * elapsed as int,
    ;
    let p = m * c;
    assert(PLAYER_SPEED * elapsed as int * DIAGONAL_BILLIONTHS == p);
    let d = p / g;
    assert(0 <= d && d * g <= p < (d + 1) * g && d <= m) by (nonlinear_arith)
        requires
            p == m * c,
            m >= 0,
            c == 707_106_781,
            g == 1_000_000_000,
            d == p / g,
    {
        assert(p >= 0);
        assert(p == g * (p / g) + p % g);
        assert(0 <= p % g < g);
        if d > m {
            assert(d * g >= (m + 1) * g);
        }
    }
    assert(2 * d * d <= m * m) by (nonlinear_arith)
        requires
            0 <= d,
            m >= 0,
            d * 1_000_000_000 <= m * 707_106_781,
    {
        assert((d * 1_000_000_000) * (d * 1_000_000_000) <= (m * 707_106_781) * (m * 707_106_781));
        assert(2 * 707_106_781 * 707_106_781 <= 1_000_000_000 * 1_000_000_000);
        assert(2 * ((m * 707_106_781) * (m * 707_106_781)) <= (m * m) * (1_000_000_000
            * 1_000_000_000));
        assert((d * 1_000_000_000) * (d * 1_000_000_000) == (d * d) * (1_000_000_000
            * 1_000_000_000));
    }
}

/// Confinement. The ship fits into the part of the screen in which it moves
/// exactly where the left 70% of the screen are as wide as the ship, and the
/// screen as high: there putting it back never fails, and wherever the ship
/// was moved to, it ends fully inside that part, where moving the rectangle
/// inside that part puts it.
pub proof fn lemma_confinement(player: Player, phi: Phi, elapsed: u64)
    requires
        player.wf(),
    ensures
        Player::fits(phi.screen) <==> player.rect.fits_in(movable_region(phi.screen)),
        Player::fits(phi.screen) ==> movable_region(phi.screen).contains_spec(
            player.updated(phi, elapsed as int).rect,
        ),
        Player::fits(phi.screen) ==> player.updated(phi, elapsed as int).rect.w == PLAYER_W
            && player.updated(phi, elapsed as int).rect.h == PLAYER_H,
        ({
            let x = player.rect.x + Player::step_x(phi.events, elapsed as int);
            let y = player.rect.y + Player::step_y(phi.events, elapsed as int);
            i64::MIN <= x <= i64::MAX && i64::MIN <= y <= i64::MAX ==> player.updated(
                phi,
                elapsed as int,
            ).rect == (Rectangle { x: x as i64, y: y as i64, w: PLAYER_W, h: PLAYER_H }).moved_inside(
                movable_region(phi.screen),
            )
        }),
{
}

/// Collision multiplicity. Where one asteroid overlaps every one of the bullets,
/// however many, one pass leaves no bullet and no asteroid, and begins exactly
/// one explosion, with its middle where the middle of the asteroid was.
pub proof fn lemma_one_asteroid_takes_all(
    asteroid: Asteroid,
    bullets: Seq<Bullet>,
    sine: SineTable,
    player: Rectangle,
    factory: ExplosionFactory,
)
    requires
        bullets.len() >= 1,
        forall|i: int|
            0 <= i < bullets.len() ==> asteroid.rect.overlaps_spec(
                #[trigger] bullets[i].rect_spec(sine),
            ),
    ensures
        keep_some(bullets_left(bullets, seq![asteroid], sine)).len() == 0,
        keep_some(asteroids_left(seq![asteroid], bullets, sine, player)).len() == 0,
        keep_some(blasts(seq![asteroid], bullets, sine, player, factory)) == seq![
            factory.made(asteroid.rect.center_spec()),
        ],
{
    let asteroids = seq![asteroid];
    let left = bullets_left(bullets, asteroids, sine);
    assert forall|i: int| 0 <= i < left.len() implies (#[trigger] left[i]) is None by {
        assert(asteroids[0].rect.overlaps_spec(bullets[i].rect_spec(sine)));
        assert(met_by_asteroid(bullets[i].rect_spec(sine), asteroids, 1));
    }
    lemma_keep_some_all_or_none(left);
    assert(asteroid.rect.overlaps_spec(bullets[0].rect_spec(sine)));
    assert(meets_bullet(asteroid.rect, bullets, sine, bullets.len() as int));
    assert(destroyed(asteroids[0], bullets, sine, player));
    let rocks = asteroids_left(asteroids, bullets, sine, player);
    assert(rocks[0] is None);
    lemma_keep_some_all_or_none(rocks);
    let gone = blasts(asteroids, bullets, sine, player, factory);
    assert(gone.len() == 1);
    assert(gone[0] == Some(factory.made(asteroid.rect.center_spec())));
    assert(gone.drop_last() =~= Seq::<Option<Explosion>>::empty());
    assert(keep_some(gone.drop_last()) =~= Seq::<Explosion>::empty());
    assert(keep_some(gone) =~= seq![factory.made(asteroid.rect.center_spec())]);
}

/// One explosion for each asteroid destroyed. After a pass of collisions every
/// asteroid is either still there or has given way to an explosion, never both
/// and never neither: the asteroids left and the explosions begun are together
/// as many as the asteroids were.
pub proof fn lemma_each_asteroid_accounted_for(
    asteroids: Seq<Asteroid>,
    bullets: Seq<Bullet>,
    sine: SineTable,
    player: Rectangle,
    factory: ExplosionFactory,
)
    ensures
        keep_some(asteroids_left(asteroids, bullets, sine, player)).len() + keep_some(
            blasts(asteroids, bullets, sine, player, factory),
        ).len() == asteroids.len(),
    decreases asteroids.len(),
{
    let left = asteroids_left(asteroids, bullets, sine, player);
    let gone = blasts(asteroids, bullets, sine, player, factory);
    if asteroids.len() > 0 {
        let front = asteroids.drop_last();
        lemma_each_asteroid_accounted_for(front, bullets, sine, player, factory);
        assert(left.drop_last() =~= asteroids_left(front, bullets, sine, player));
        assert(gone.drop_last() =~= blasts(front, bullets, sine, player, factory));
    }
}

/// A shot does not collide in the frame in which it is fired, and is there at
/// the end of it: whenever the frame fires, the last two bullets of the frame's
/// result are the two bullets of the shot, where the cannon's mounts are.
pub proof fn lemma_shot_is_last(game: GameModel, phi: Phi, elapsed: int, spawned: Option<Asteroid>)
    requires
        GameModel::fires(phi.events),
    ensures
        ({
            let after = game.stepped(phi, elapsed, spawned);
            let ship = game.player.updated(phi, elapsed);
            &&& after.bullets.len() >= 2
            &&& after.bullets.subrange(after.bullets.len() - 2, after.bullets.len() as int)
                == ship.shot()
        }),
{
    let after = game.stepped(phi, elapsed, spawned);
    let ship = game.player.updated(phi, elapsed);
    crate::views::bullets::lemma_shot_is_a_pair(
        ship.cannon,
        (ship.rect.x + 30 * MICRO) as i64,
        (ship.rect.y + 6 * MICRO) as i64,
        (ship.rect.y + PLAYER_H - 10 * MICRO) as i64,
    );
    assert(after.bullets.subrange(after.bullets.len() - 2, after.bullets.len() as int)
        =~= ship.shot());
}

} // verus!
