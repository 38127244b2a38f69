use vstd::prelude::*;
use vstd::view::View as _;
use crate::phi::data::Screen;
use crate::phi::events::{pressed, Events, InputEvent};
use crate::phi::fonts::FontCache;
use crate::phi::wave::SineTable;
use crate::views::game::{GameView, Player};
use crate::views::main_menu::MainMenuView;
use crate::views::shared::Draw;

pub mod data;
pub mod events;
pub mod fonts;
pub mod gfx;
pub mod wave;

verus! {

/// The sounds that the game plays.
#[derive(Clone, Copy, Debug, PartialEq, Eq, Structural)]
pub enum Sound {
    Bullet,
    Explosion,
}

/// What the game has to say besides what it draws and plays.
#[derive(Clone, Copy, Debug, PartialEq, Eq, Structural)]
pub enum Notice {
    /// An asteroid has hit the ship.
    ShipDestroyed,
}

/// What a view has at hand while it updates: the input of this frame, the size of
/// the drawing surface, the sine table, the fonts that are loaded, and what the
/// frame has asked for so far, each in the order in which it was asked for: the
/// sounds to play and the notices to give.
#[derive(Debug)]
pub struct Phi {
    pub events: Events,
    pub screen: Screen,
    pub sine: SineTable,
    pub sounds: Vec<Sound>,
    pub notices: Vec<Notice>,
    pub allocated_channels: i32,
    pub fonts: FontCache,
}

/// The number of mixer channels that the game starts with.
pub const INITIAL_CHANNELS: i32 = 32;

impl Phi {
    pub open spec fn wf(self) -> bool {
        self.sine.wf() && self.fonts.wf()
    }

    /// Whether `self` differs from `pre` at most in the sounds and the notices
    /// that were asked for.
    pub open spec fn same_but_output(self, pre: Phi) -> bool {
        self == (Phi { sounds: self.sounds, notices: self.notices, ..pre })
    }

    pub fn new(events: Events, screen: Screen, sine: SineTable) -> (r: Phi)
        requires
            sine.wf(),
        ensures
            r.wf(),
            r.events == events,
            r.screen == screen,
            r.sine == sine,
            r.sounds@.len() == 0,
            r.notices@.len() == 0,
            r.allocated_channels == INITIAL_CHANNELS,
            r.fonts.keys@.len() == 0,
    {
        Phi {
            events,
            screen,
            sine,
            sounds: Vec::new(),
            notices: Vec::new(),
            allocated_channels: INITIAL_CHANNELS,
            fonts: FontCache::new(),
        }
    }

    /// Finds the font with which a text is to be drawn: the slot under which the
    /// font is kept, or nothing for a font that has yet to be loaded.
    pub fn ttf_str_sprite(&self, font_path: &str, size: u16) -> (r: Option<usize>)
        ensures
            r is Some <==> self.fonts.holds(font_path@, size),
            r matches Some(i) ==> i < self.fonts.keys@.len() && crate::phi::fonts::names(
                self.fonts.keys@,
                i as int,
                font_path@,
                size,
            ),
    {
        self.fonts.slot(font_path, size)
    }

    /// Takes in a font that was loaded, and says under which slot to keep it: the
    /// next free one, or the slot that the font has already. Every font that was
    /// there stays in its slot. A font is loaded once: whoever looks for it from
    /// then on finds it.
    pub fn cache_font(&mut self, font_path: &str, size: u16) -> (r: usize)
        requires
            old(self).wf(),
        ensures
            final(self).wf(),
            *final(self) == (Phi { fonts: final(self).fonts, ..*old(self) }),
            final(self).fonts.holds(font_path@, size),
            r < final(self).fonts.keys@.len(),
            crate::phi::fonts::names(final(self).fonts.keys@, r as int, font_path@, size),
            old(self).fonts.holds(font_path@, size) ==> final(self).fonts.keys@
                == old(self).fonts.keys@,
            !old(self).fonts.holds(font_path@, size) ==> r == old(self).fonts.keys@.len()
                && final(self).fonts.keys@.len() == old(self).fonts.keys@.len() + 1
                && final(self).fonts.keys@.subrange(0, old(self).fonts.keys@.len() as int)
                == old(self).fonts.keys@,
            forall|i: int|
                0 <= i < old(self).fonts.keys@.len() ==> #[trigger] final(self).fonts.keys@[i]
                    == old(self).fonts.keys@[i],
    {
        let ghost before = self.fonts.keys@;
        let slot = self.fonts.insert(font_path, size);
        proof {
            if !old(self).fonts.holds(font_path@, size) {
                assert forall|i: int| 0 <= i < before.len() implies #[trigger] self.fonts.keys@[i]
                    == before[i] by {
                    assert(self.fonts.keys@.subrange(0, before.len() as int)[i]
                        == self.fonts.keys@[i]);
                }
            }
        }
        slot
    }

    /// Sets the size of the drawing surface.
    pub fn resize(&mut self, screen: Screen)
        ensures
            *final(self) == (Phi { screen, ..*old(self) }),
    {
        self.screen = screen;
    }

    /// The width and the height of the drawing surface, in micro-pixels.
    pub fn output_size(&self) -> (r: (i64, i64))
        ensures
            r.0 == self.screen.width(),
            r.1 == self.screen.height(),
            0 <= r.0 <= 65_535_000_000,
            0 <= r.1 <= 65_535_000_000,
    {
        self.screen.size()
    }

    /// Hands over the sounds that were asked for, in their order, and forgets them.
    pub fn take_sounds(&mut self) -> (r: Vec<Sound>)
        ensures
            r@ == old(self).sounds@,
            final(self).sounds@ == Seq::<Sound>::empty(),
            final(self).notices == old(self).notices,
            final(self).same_but_output(*old(self)),
    {
        let mut taken: Vec<Sound> = Vec::new();
        taken.append(&mut self.sounds);
        taken
    }

    /// Hands over the notices that were given, in their order, and forgets them.
    pub fn take_notices(&mut self) -> (r: Vec<Notice>)
        ensures
            r@ == old(self).notices@,
            final(self).notices@ == Seq::<Notice>::empty(),
            final(self).sounds == old(self).sounds,
            final(self).same_but_output(*old(self)),
    {
        let mut taken: Vec<Notice> = Vec::new();
        taken.append(&mut self.notices);
        taken
    }

    /// Gives a notice: it joins the notices of this frame.
    pub fn notify(&mut self, notice: Notice)
        ensures
            final(self).notices@ == old(self).notices@.push(notice),
            final(self).sounds == old(self).sounds,
            final(self).same_but_output(*old(self)),
    {
        self.notices.push(notice);
    }

    /// The mixer had no free channel for a sound: doubles the number of channels
    /// and hands back the new number, with which to try again. Where the double
    /// is more than the mixer can count, nothing changes and nothing is handed back.
    pub fn grow_channels(&mut self) -> (r: Option<i32>)
        ensures
            r == if 0 <= 2 * old(self).allocated_channels <= i32::MAX {
                Some((2 * old(self).allocated_channels) as i32)
            } else {
                None::<i32>
            },
            final(self).allocated_channels == match r {
                Some(n) => n,
                None => old(self).allocated_channels,
            },
            *final(self) == (Phi {
                allocated_channels: final(self).allocated_channels,
                ..*old(self)
            }),
    {
        if self.allocated_channels < 0 || self.allocated_channels > i32::MAX / 2 {
            return None;
        }
        self.allocated_channels = self.allocated_channels * 2;
        Some(self.allocated_channels)
    }

    /// Asks for a sound to be played once: it joins the sounds of this frame.
    pub fn play_sound(&mut self, sound: Sound)
        ensures
            final(self).sounds@ == old(self).sounds@.push(sound),
            final(self).notices == old(self).notices,
            final(self).same_but_output(*old(self)),
    {
        self.sounds.push(sound);
    }
}

/// A screen of the game. One view is current at any time; it owns all that it
/// needs to update and to draw itself.
pub enum View {
    MainMenu(MainMenuView),
    Game(GameView),
}

/// What a view tells the frame loop after its update: to draw the view that it
/// hands over, which is the current one from then on, or to end the program.
pub enum ViewAction {
    Render(View),
    Quit,
}

impl View {
    pub open spec fn wf(self) -> bool {
        match self {
            View::MainMenu(menu) => menu.wf(),
            View::Game(game) => game.wf(),
        }
    }

    /// What the view needs of the screen: a frame in which the game goes on needs
    /// room for the ship. A frame that ends the program or opens the menu needs
    /// none, and the menu never does.
    pub open spec fn can_update(self, phi: Phi) -> bool {
        self is Game && GameView::goes_on(phi.events) ==> Player::fits(phi.screen)
    }

    /// Whether the view has of the screen what its next frame needs: see
    /// `can_update`.
    pub fn has_room(&self, phi: &Phi) -> (r: bool)
        ensures
            r == self.can_update(*phi),
    {
        match self {
            View::MainMenu(_) => true,
            View::Game(_) => phi.events.now.quit || pressed(phi.events.now.key_escape)
                || Player::has_room(&phi.screen),
        }
    }

    /// What a frame of the view leads to, and the sounds that it asks for: those
    /// of the kind of view that this is.
    pub open spec fn update_spec(self, pre: Phi, elapsed: int, action: ViewAction, post: Phi)
        -> bool {
        match self {
            View::MainMenu(menu) => menu.update_spec(pre, elapsed, action) && post == pre,
            View::Game(game) => game.update_spec(pre, elapsed, action, post),
        }
    }

    /// The steps that draw the view: those of the kind of view that this is.
    pub open spec fn drawn(self, phi: Phi) -> Seq<Draw> {
        match self {
            View::MainMenu(menu) => menu.drawn(phi.screen),
            View::Game(game) => game@.drawn(phi),
        }
    }

    /// The steps that draw the view. Drawing changes nothing.
    pub fn render(&self, phi: &Phi) -> (r: Vec<Draw>)
        requires
            self.wf(),
            phi.wf(),
        ensures
            r@ == self.drawn(*phi),
    {
        match self {
            View::MainMenu(menu) => menu.render(phi),
            View::Game(game) => game.render(phi),
        }
    }

    /// One frame of the current view.
    pub fn update(self, phi: &mut Phi, elapsed: u64) -> (r: ViewAction)
        requires
            self.wf(),
            old(phi).wf(),
            self.can_update(*old(phi)),
        ensures
            self.update_spec(*old(phi), elapsed as int, r, *final(phi)),
            final(phi).wf(),
            r matches ViewAction::Render(next) ==> next.wf(),
    {
        match self {
            View::MainMenu(menu) => menu.update(phi, elapsed),
            View::Game(game) => game.update(phi, elapsed),
        }
    }
}

/// What one frame of the loop leads to.
pub enum FrameOutcome {
    /// The view that is current from now on, and the steps that draw it.
    Present(View, Vec<Draw>),
    /// The program ends.
    Quit,
}

/// The context as the view finds it in a frame: the pending events polled, and the
/// drawing surface at its current size.
pub open spec fn polled(phi: Phi, pending: Seq<InputEvent>, drawable: (u32, u32), screen: Screen)
    -> Phi {
    Phi { events: phi.events.pumped(pending, drawable), screen, ..phi }
}

/// Whether a frame can run: whether the view has, once the pending events are
/// polled and the drawing surface has the size `screen`, what `run_frame` asks
/// for. Nothing is polled yet.
pub fn frame_has_room(
    view: &View,
    phi: &Phi,
    pending: &Vec<InputEvent>,
    drawable: (u32, u32),
    screen: Screen,
) -> (r: bool)
    ensures
        r == view.can_update(polled(*phi, pending@, drawable, screen)),
{
    let mut events: Events = phi.events;
    events.pump(pending, drawable);
    match view {
        View::MainMenu(_) => true,
        View::Game(_) => events.now.quit || pressed(events.now.key_escape)
            || Player::has_room(&screen),
    }
}

/// One frame of the loop. The input is polled once; the current view updates
/// with it; and the view that it hands over, which is the current one from then
/// on, is drawn at once, as its update left it. No view is drawn that has not
/// been handed over by an update, and nothing is drawn once a view ends the
/// program.
pub fn run_frame(
    view: View,
    phi: &mut Phi,
    pending: &Vec<InputEvent>,
    drawable: (u32, u32),
    screen: Screen,
    elapsed: u64,
) -> (r: FrameOutcome)
    requires
        view.wf(),
        old(phi).wf(),
        view.can_update(polled(*old(phi), pending@, drawable, screen)),
    ensures
        final(phi).wf(),
        exists|action: ViewAction|
            {
                &&& #[trigger] view.update_spec(
                    polled(*old(phi), pending@, drawable, screen),
                    elapsed as int,
                    action,
                    *final(phi),
                )
                &&& match action {
                    ViewAction::Render(next) => r matches FrameOutcome::Present(shown, list)
                        && shown == next && shown.wf() && list@ == next.drawn(*final(phi)),
                    ViewAction::Quit => r is Quit,
                }
            },
{
    phi.events.pump(pending, drawable);
    phi.resize(screen);
    let ghost before = *phi;
    let action = view.update(phi, elapsed);
    assert(view.update_spec(before, elapsed as int, action, *phi));
    match action {
        ViewAction::Render(next) => {
            let list = next.render(phi);
            FrameOutcome::Present(next, list)
        },
        ViewAction::Quit => FrameOutcome::Quit,
    }
}

/// The least time between two frames, in microseconds: a sixtieth of a second,
/// rounded up.
pub const FRAME_MICROS: u64 = 16_667;

/// The first whole number of milliseconds at which a sixtieth of a second has
/// passed: the timer counts milliseconds, and 16 of them are too few.
pub const FRAME_INTERVAL: u32 = 17;

/// The time of the frame loop, in the milliseconds that the platform's timer
/// counts: when the last frame began, when the frame rate was last reported, and
/// the frames since then.
#[derive(Clone, Copy, Debug, PartialEq, Eq, Structural)]
pub struct FrameClock {
    pub before: u32,
    pub last_second: u32,
    pub fps: u16,
}

/// What the frame loop does next.
#[derive(Clone, Copy, Debug, PartialEq, Eq)]
pub enum Tick {
    /// It is too early for a frame: sleep for so many milliseconds, the rest of
    /// the sixtieth of a second, and ask again.
    Wait(u32),
    /// Run a frame. `elapsed` is the time since the frame before, in
    /// microseconds; `report` is the number of frames of the last second, where
    /// a second has gone by since the last report.
    Frame { elapsed: u64, report: Option<u16> },
}

impl FrameClock {
    /// The frames counted are as many as fit, at one frame interval each, between
    /// the last report and the last frame, which lie within a second and a frame.
    pub open spec fn wf(self) -> bool {
        &&& self.last_second <= self.before
        &&& self.fps * FRAME_INTERVAL <= self.before - self.last_second
        &&& self.before - self.last_second <= 1_000
    }

    /// Whether a frame is due at the time `now`: a sixtieth of a second has passed
    /// since the last frame began.
    pub open spec fn due(self, now: u32) -> bool {
        (now - self.before) * 60 >= 1_000
    }

    /// What the loop does at the time `now`.
    pub open spec fn tick_spec(self, now: u32) -> Tick {
        if !self.due(now) {
            Tick::Wait((FRAME_INTERVAL - (now - self.before)) as u32)
        } else {
            Tick::Frame {
                elapsed: ((now - self.before) * 1_000) as u64,
                report: if now - self.last_second > 1_000 {
                    Some((self.fps + 1) as u16)
                } else {
                    None
                },
            }
        }
    }

    /// The clock after the time `now` was looked at: it stays as it is until a
    /// frame is due; then the frame begins now and is counted, and the count
    /// starts again where it is reported.
    pub open spec fn ticked(self, now: u32) -> FrameClock {
        if !self.due(now) {
            self
        } else if now - self.last_second > 1_000 {
            FrameClock { before: now, last_second: now, fps: 0 }
        } else {
            FrameClock { before: now, last_second: self.last_second, fps: (self.fps + 1) as u16 }
        }
    }

    /// A clock that starts at the time `now`.
    pub fn new(now: u32) -> (r: FrameClock)
        ensures
            r == (FrameClock { before: now, last_second: now, fps: 0 }),
            r.wf(),
    {
        FrameClock { before: now, last_second: now, fps: 0 }
    }

    /// Looks at the time. Frames are a sixtieth of a second apart at least:
    /// before that time is over the loop waits for the rest of it, and the state
    /// does not advance, so that no frame is ever handed less than a sixtieth of a
    /// second. The timer does not run backwards.
    pub fn tick(&mut self, now: u32) -> (r: Tick)
        requires
            old(self).wf(),
            old(self).before <= now,
        ensures
            r == old(self).tick_spec(now),
            *final(self) == old(self).ticked(now),
            final(self).wf(),
            r matches Tick::Frame { elapsed, report } ==> elapsed >= FRAME_MICROS
                && elapsed == (now - old(self).before) * 1_000,
            r matches Tick::Wait(rest) ==> 1 <= rest <= FRAME_INTERVAL
                && (now - old(self).before) * 60 < 1_000
                && (now - old(self).before + rest) * 60 >= 1_000,
    {
        let dt: u32 = now - self.before;
        if dt < FRAME_INTERVAL {
            return Tick::Wait(FRAME_INTERVAL - dt);
        }
        let elapsed: u64 = dt as u64 * 1_000;
        self.before = now;
        self.fps = self.fps + 1;
        let report: Option<u16> = if now - self.last_second > 1_000 {
            let frames: u16 = self.fps;
            self.last_second = now;
            self.fps = 0;
            Some(frames)
        } else {
            None
        };
        Tick::Frame { elapsed, report }
    }
}

} // verus!
