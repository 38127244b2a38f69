use vstd::prelude::*;
use crate::phi::{Phi, ViewAction};
use crate::phi::events::{is_pressed, pressed, Events};
use crate::phi::gfx::{Color, Sprite};
use crate::phi::data::{Rectangle, Screen, MICRO};
use crate::views::game::{GameModel, GameView};
use crate::views::shared::{backdrop, black, draw_backdrop, Background, BgSet, Draw, Layer};

verus! {

/// The font of the menu's labels.
pub const ACTION_FONT: &'static str = "assets/belligerent.ttf";

/// The height that each label takes in the menu's box.
pub const LABEL_H: i64 = 50 * MICRO;

/// The width of the border round the menu's box.
pub const BORDER_WIDTH: i64 = 3 * MICRO;

/// The width of the menu's box.
pub const BOX_W: i64 = 360 * MICRO;

/// The room above the first and below the last label in the menu's box.
pub const MARGIN_H: i64 = 10 * MICRO;

/// What an entry of the menu does when it is confirmed.
#[derive(Clone, Copy, Debug, PartialEq, Eq, Structural)]
pub enum ActionKind {
    NewGame,
    Quit,
}

/// An entry of the menu.
#[derive(Clone, Copy, Debug, PartialEq, Eq)]
pub struct Action {
    pub kind: ActionKind,
    pub label: &'static str,
}

impl Action {
    pub fn new(label: &'static str, kind: ActionKind) -> (r: Action)
        ensures
            r == (Action { kind, label }),
    {
        Action { kind, label }
    }
}

/// The main menu: its entries, the one that is selected, and the backdrop.
pub struct MainMenuView {
    pub actions: Vec<Action>,
    pub selected: i8,
    pub bg: BgSet,
}

/// The entries of the main menu.
pub open spec fn menu_actions() -> Seq<Action> {
    seq![
        Action { kind: ActionKind::NewGame, label: "New Game" },
        Action { kind: ActionKind::Quit, label: "Quit" },
    ]
}

/// The entry above `selected` in a menu of `len` entries; above the first comes
/// the last.
pub open spec fn entry_above(selected: int, len: int) -> int {
    if selected - 1 < 0 {
        len - 1
    } else {
        selected - 1
    }
}

/// The entry below `selected` in a menu of `len` entries; below the last comes
/// the first.
pub open spec fn entry_below(selected: int, len: int) -> int {
    if selected + 1 >= len {
        0
    } else {
        selected + 1
    }
}

/// The entry that is selected after this frame's keys: "up" goes one up, then
/// "down" goes one down.
pub open spec fn navigated(events: Events, selected: int, len: int) -> int {
    let after_up = if is_pressed(events.now.key_up) {
        entry_above(selected, len)
    } else {
        selected
    };
    if is_pressed(events.now.key_down) {
        entry_below(after_up, len)
    } else {
        after_up
    }
}

/// The rectangle of the given size whose middle is the middle of `screen`.
pub open spec fn centered(screen: Screen, w: int, h: int) -> Rectangle {
    Rectangle {
        x: (screen.width() / 2 - w / 2) as i64,
        y: (screen.height() / 2 - h / 2) as i64,
        w: w as i64,
        h: h as i64,
    }
}

/// The height of the box that holds `len` labels, without its margins.
pub open spec fn box_height(len: int) -> int {
    len * LABEL_H
}

/// Where the middle of label `i` of `len` lies, from the top of `screen`: the
/// labels stand one below the other, and the middle of them all is the middle of
/// the screen.
pub open spec fn label_center_y(screen: Screen, len: int, i: int) -> int {
    (screen.height() - box_height(len) + LABEL_H) / 2 + LABEL_H * i
}

/// The steps that draw the labels of a menu of `len` entries of which `selected`
/// is selected: the selected one in its hover form, the others idle.
pub open spec fn label_draws(screen: Screen, len: int, selected: int, count: int) -> Seq<Draw> {
    Seq::new(
        count as nat,
        |i: int|
            Draw::Label {
                action: i as usize,
                hover: i == selected,
                center_x: (screen.width() / 2) as i64,
                center_y: label_center_y(screen, len, i) as i64,
            },
    )
}

impl MainMenuView {
    /// The steps that draw the menu on `screen`: the screen is cleared; then
    /// come the three layers of the backdrop, the border of the box, the box,
    /// and the labels.
    pub open spec fn drawn(self, screen: Screen) -> Seq<Draw> {
        let len = self.actions@.len() as int;
        let border = centered(
            screen,
            BOX_W + BORDER_WIDTH * 2,
            box_height(len) + BORDER_WIDTH * 2 + MARGIN_H * 2,
        );
        let inside = centered(screen, BOX_W as int, box_height(len) + MARGIN_H * 2);
        seq![Draw::Clear(black())]
            + backdrop(Layer::Back, self.bg.back.tiles(screen))
            + backdrop(Layer::Middle, self.bg.middle.tiles(screen))
            + backdrop(Layer::Front, self.bg.front.tiles(screen))
            + seq![
                Draw::Fill(Color { r: 70, g: 15, b: 70 }, border),
                Draw::Fill(Color { r: 140, g: 30, b: 140 }, inside),
            ]
            + label_draws(screen, len, self.selected as int, len)
    }

    /// The steps that draw the menu: see `drawn`.
    pub fn render(&self, phi: &Phi) -> (r: Vec<Draw>)
        requires
            self.wf(),
        ensures
            r@ == self.drawn(phi.screen),
    {
        let mut list: Vec<Draw> = Vec::new();
        list.push(Draw::Clear(Color::rgb(0, 0, 0)));
        draw_backdrop(&mut list, Layer::Back, &self.bg.back, &phi.screen);
        draw_backdrop(&mut list, Layer::Middle, &self.bg.middle, &phi.screen);
        draw_backdrop(&mut list, Layer::Front, &self.bg.front, &phi.screen);
        let (win_w, win_h) = phi.output_size();
        let len: i64 = self.actions.len() as i64;
        let box_h: i64 = len * LABEL_H;
        let middle: (i64, i64) = (win_w / 2, win_h / 2);
        list.push(
            Draw::Fill(
                Color::rgb(70, 15, 70),
                Rectangle::with_size(
                    BOX_W + BORDER_WIDTH * 2,
                    box_h + BORDER_WIDTH * 2 + MARGIN_H * 2,
                ).center_at(middle),
            ),
        );
        list.push(
            Draw::Fill(
                Color::rgb(140, 30, 140),
                Rectangle::with_size(BOX_W, box_h + MARGIN_H * 2).center_at(middle),
            ),
        );
        let top: i64 = win_h - box_h + LABEL_H;
        proof {
            assert(top % 2 == 0) by (nonlinear_arith)
                requires
                    top == phi.screen.h * 1_000_000 - len * 50_000_000 + 50_000_000,
            ;
        }
        let first: i64 = top / 2;
        let ghost base = list@;
        let ghost screen = phi.screen;
        let mut i: usize = 0;
        while i < self.actions.len()
            invariant
                0 <= i <= self.actions@.len(),
                self.wf(),
                len == self.actions@.len(),
                len <= 127,
                LABEL_H == 50_000_000,
                win_w == screen.width(),
                first == (screen.height() - box_height(len as int) + LABEL_H) / 2,
                -7_000_000_000 <= first <= 33_000_000_000,
                list@ == base + label_draws(screen, len as int, self.selected as int, i as int),
            decreases self.actions@.len() - i,
        {
            list.push(
                Draw::Label {
                    action: i,
                    hover: self.selected as usize == i,
                    center_x: win_w / 2,
                    center_y: first + LABEL_H * i as i64,
                },
            );
            assert(list@ =~= base + label_draws(
                screen,
                len as int,
                self.selected as int,
                i + 1,
            ));
            i += 1;
        }
        assert(list@ =~= self.drawn(phi.screen));
        list
    }

    /// There are entries, no more than the selection can count, and one of them
    /// is selected.
    pub open spec fn wf(self) -> bool {
        &&& 1 <= self.actions@.len() <= i8::MAX
        &&& 0 <= self.selected < self.actions@.len()
        &&& self.bg.wf()
    }

    /// Whether this is the menu as it opens over the backdrop `bg`: the entries of
    /// the main menu, the first of them selected.
    pub open spec fn opens_with(self, bg: BgSet) -> bool {
        &&& self.actions@ == menu_actions()
        &&& self.selected == 0
        &&& self.bg == bg
    }

    /// Whether the frame ends the program: the window was closed or the cancel
    /// key was pressed.
    pub open spec fn leaves(events: Events) -> bool {
        events.now.quit || is_pressed(events.now.key_escape)
    }

    /// Whether the frame confirms the selected entry.
    pub open spec fn confirms(events: Events) -> bool {
        is_pressed(events.now.key_space) || is_pressed(events.now.key_return)
    }

    /// What a frame of `elapsed` microseconds leads to. Leaving ends the program.
    /// Else confirming runs the selected entry: a new game begins over this
    /// menu's backdrop, or the program ends. Else the menu goes on, with the
    /// selection moved by the keys and the backdrop scrolled on.
    pub open spec fn update_spec(self, phi: Phi, elapsed: int, action: ViewAction) -> bool {
        if Self::leaves(phi.events) {
            action is Quit
        } else if Self::confirms(phi.events) {
            match self.actions@[self.selected as int].kind {
                ActionKind::NewGame => action matches ViewAction::Render(crate::phi::View::Game(game))
                    && game@ == GameModel::begun(phi.screen, self.bg) && game.wf(),
                ActionKind::Quit => action is Quit,
            }
        } else {
            &&& action matches ViewAction::Render(crate::phi::View::MainMenu(menu))
            &&& menu.actions@ == self.actions@
            &&& menu.selected == navigated(
                phi.events,
                self.selected as int,
                self.actions@.len() as int,
            )
            &&& menu.bg == self.bg.scrolled(elapsed)
            &&& menu.wf()
        }
    }

    /// The main menu over a new backdrop made of the three images.
    pub fn new(back: Sprite, middle: Sprite, front: Sprite) -> (r: MainMenuView)
        requires
            Background::suits(back),
            Background::suits(middle),
            Background::suits(front),
        ensures
            r.opens_with(
                BgSet::new_spec(back, middle, front),
            ),
            r.wf(),
    {
        let bg = BgSet::new(back, middle, front);
        MainMenuView::with_backgrounds(bg)
    }

    /// The main menu over the backdrop `bg`.
    pub fn with_backgrounds(bg: BgSet) -> (r: MainMenuView)
        requires
            bg.wf(),
        ensures
            r.opens_with(bg),
            r.wf(),
    {
        let mut actions: Vec<Action> = Vec::new();
        actions.push(Action::new("New Game", ActionKind::NewGame));
        actions.push(Action::new("Quit", ActionKind::Quit));
        assert(actions@ =~= menu_actions());
        MainMenuView { actions, selected: 0, bg }
    }

    /// One frame of the menu: see `update_spec`.
    pub fn update(self, phi: &mut Phi, elapsed: u64) -> (r: ViewAction)
        requires
            self.wf(),
            old(phi).wf(),
        ensures
            self.update_spec(*old(phi), elapsed as int, r),
            *final(phi) == *old(phi),
    {
        if phi.events.now.quit || pressed(phi.events.now.key_escape) {
            return ViewAction::Quit;
        }
        if pressed(phi.events.now.key_space) || pressed(phi.events.now.key_return) {
            let bg = self.bg;
            return match self.actions[self.selected as usize].kind {
                ActionKind::NewGame => ViewAction::Render(
                    crate::phi::View::Game(GameView::with_backgrounds(phi, bg)),
                ),
                ActionKind::Quit => ViewAction::Quit,
            };
        }
        let mut menu = self;
        if pressed(phi.events.now.key_up) {
            menu.selected = menu.selected - 1;
            if menu.selected < 0 {
                menu.selected = menu.actions.len() as i8 - 1;
            }
        }
        if pressed(phi.events.now.key_down) {
            menu.selected = menu.selected + 1;
            if menu.selected as usize >= menu.actions.len() {
                menu.selected = 0;
            }
        }
        menu.bg.update(elapsed);
        ViewAction::Render(crate::phi::View::MainMenu(menu))
    }
}

/// Wraparound. In a menu of `len` entries, going up from the first entry selects
/// the last and going down from the last selects the first; anywhere else the
/// selection moves by one; and it always stays on an entry.
pub proof fn lemma_selection_wraps(selected: int, len: int)
    requires
        0 <= selected < len,
    ensures
        entry_above(0, len) == len - 1,
        entry_below(len - 1, len) == 0,
        0 <= entry_above(selected, len) < len,
        0 <= entry_below(selected, len) < len,
        entry_below(entry_above(selected, len), len) == selected,
        entry_above(entry_below(selected, len), len) == selected,
{
}

} // verus!
