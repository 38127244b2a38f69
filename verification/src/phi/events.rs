use vstd::prelude::*;

verus! {

/// The keys that the game listens to.
#[derive(Clone, Copy, Debug, PartialEq, Eq, Structural)]
pub enum Key {
    Escape,
    Up,
    Down,
    Left,
    Right,
    Space,
    Return,
    Num1,
    Num2,
    Num3,
}

/// One input event, as the platform delivers it. Keys travel as platform key codes.
#[derive(Clone, Copy, Debug, PartialEq, Eq, Structural)]
pub enum InputEvent {
    KeyDown(i32),
    KeyUp(i32),
    Quit,
    Resized,
    Other,
}

/// The platform's key code of each recognized key.
pub open spec fn keycode(key: Key) -> int {
    match key {
        Key::Escape => 27,
        Key::Up => 1073741906,
        Key::Down => 1073741905,
        Key::Left => 1073741904,
        Key::Right => 1073741903,
        Key::Space => 32,
        Key::Return => 13,
        Key::Num1 => 49,
        Key::Num2 => 50,
        Key::Num3 => 51,
    }
}

/// The recognized key with the given key code, if there is one.
pub open spec fn key_of(code: int) -> Option<Key> {
    if code == 27 {
        Some(Key::Escape)
    } else if code == 1073741906 {
        Some(Key::Up)
    } else if code == 1073741905 {
        Some(Key::Down)
    } else if code == 1073741904 {
        Some(Key::Left)
    } else if code == 1073741903 {
        Some(Key::Right)
    } else if code == 32 {
        Some(Key::Space)
    } else if code == 13 {
        Some(Key::Return)
    } else if code == 49 {
        Some(Key::Num1)
    } else if code == 50 {
        Some(Key::Num2)
    } else if code == 51 {
        Some(Key::Num3)
    } else {
        None
    }
}

impl Key {
    /// Looks a platform key code up in the table of recognized keys.
    pub fn from_keycode(code: i32) -> (r: Option<Key>)
        ensures
            r == key_of(code as int),
            r matches Some(k) ==> keycode(k) == code,
            r is None ==> forall|k: Key| keycode(k) != code,
    {
        if code == 27 {
            Some(Key::Escape)
        } else if code == 1073741906 {
            Some(Key::Up)
        } else if code == 1073741905 {
            Some(Key::Down)
        } else if code == 1073741904 {
            Some(Key::Left)
        } else if code == 1073741903 {
            Some(Key::Right)
        } else if code == 32 {
            Some(Key::Space)
        } else if code == 13 {
            Some(Key::Return)
        } else if code == 49 {
            Some(Key::Num1)
        } else if code == 50 {
            Some(Key::Num2)
        } else if code == 51 {
            Some(Key::Num3)
        } else {
            None
        }
    }

    /// The platform key code of this key.
    pub fn code(self) -> (r: i32)
        ensures
            r == keycode(self),
            key_of(r as int) == Some(self),
    {
        match self {
            Key::Escape => 27,
            Key::Up => 1073741906,
            Key::Down => 1073741905,
            Key::Left => 1073741904,
            Key::Right => 1073741903,
            Key::Space => 32,
            Key::Return => 13,
            Key::Num1 => 49,
            Key::Num2 => 50,
            Key::Num3 => 51,
        }
    }
}

/// What happened during the latest poll. For a key, `Some(true)` says that it was
/// just pressed, `Some(false)` that it was just released, `None` that nothing changed.
#[derive(Clone, Copy, Debug, PartialEq, Eq)]
pub struct ImmediateEvents {
    pub key_escape: Option<bool>,
    pub key_up: Option<bool>,
    pub key_down: Option<bool>,
    pub key_left: Option<bool>,
    pub key_right: Option<bool>,
    pub key_space: Option<bool>,
    pub key_return: Option<bool>,
    pub key_1: Option<bool>,
    pub key_2: Option<bool>,
    pub key_3: Option<bool>,
    pub quit: bool,
    pub resize: Option<(u32, u32)>,
}

/// The keyboard as the game sees it: which keys are held, and what changed
/// during the latest poll.
#[derive(Clone, Copy, Debug, PartialEq, Eq)]
pub struct Events {
    pub now: ImmediateEvents,
    pub key_escape: bool,
    pub key_up: bool,
    pub key_down: bool,
    pub key_left: bool,
    pub key_right: bool,
    pub key_space: bool,
    pub key_return: bool,
    pub key_1: bool,
    pub key_2: bool,
    pub key_3: bool,
}

/// Whether an edge value says "just pressed".
pub open spec fn is_pressed(edge: Option<bool>) -> bool {
    edge == Some(true)
}

/// Whether an edge value says "just pressed".
pub fn pressed(edge: Option<bool>) -> (r: bool)
    ensures
        r == is_pressed(edge),
{
    match edge {
        Some(b) => b,
        None => false,
    }
}

impl ImmediateEvents {
    /// The snapshot in which nothing has happened.
    pub open spec fn empty() -> ImmediateEvents {
        ImmediateEvents {
            key_escape: None,
            key_up: None,
            key_down: None,
            key_left: None,
            key_right: None,
            key_space: None,
            key_return: None,
            key_1: None,
            key_2: None,
            key_3: None,
            quit: false,
            resize: None,
        }
    }

    /// The edge value of `key`.
    pub open spec fn edge(self, key: Key) -> Option<bool> {
        match key {
            Key::Escape => self.key_escape,
            Key::Up => self.key_up,
            Key::Down => self.key_down,
            Key::Left => self.key_left,
            Key::Right => self.key_right,
            Key::Space => self.key_space,
            Key::Return => self.key_return,
            Key::Num1 => self.key_1,
            Key::Num2 => self.key_2,
            Key::Num3 => self.key_3,
        }
    }

    /// The snapshot with the edge value of `key` replaced.
    #[verifier::opaque]
    pub open spec fn with_edge(self, key: Key, e: Option<bool>) -> ImmediateEvents {
        match key {
            Key::Escape => ImmediateEvents { key_escape: e, ..self },
            Key::Up => ImmediateEvents { key_up: e, ..self },
            Key::Down => ImmediateEvents { key_down: e, ..self },
            Key::Left => ImmediateEvents { key_left: e, ..self },
            Key::Right => ImmediateEvents { key_right: e, ..self },
            Key::Space => ImmediateEvents { key_space: e, ..self },
            Key::Return => ImmediateEvents { key_return: e, ..self },
            Key::Num1 => ImmediateEvents { key_1: e, ..self },
            Key::Num2 => ImmediateEvents { key_2: e, ..self },
            Key::Num3 => ImmediateEvents { key_3: e, ..self },
        }
    }

    /// A snapshot in which nothing has happened.
    pub fn new() -> (r: ImmediateEvents)
        ensures
            r == ImmediateEvents::empty(),
    {
        ImmediateEvents {
            key_escape: None,
            key_up: None,
            key_down: None,
            key_left: None,
            key_right: None,
            key_space: None,
            key_return: None,
            key_1: None,
            key_2: None,
            key_3: None,
            quit: false,
            resize: None,
        }
    }

    /// The edge value of `key`.
    pub fn get(&self, key: Key) -> (r: Option<bool>)
        ensures
            r == self.edge(key),
    {
        match key {
            Key::Escape => self.key_escape,
            Key::Up => self.key_up,
            Key::Down => self.key_down,
            Key::Left => self.key_left,
            Key::Right => self.key_right,
            Key::Space => self.key_space,
            Key::Return => self.key_return,
            Key::Num1 => self.key_1,
            Key::Num2 => self.key_2,
            Key::Num3 => self.key_3,
        }
    }

    /// The snapshot with the edge value of `key` replaced.
    fn replaced(self, key: Key, e: Option<bool>) -> (r: ImmediateEvents)
        ensures
            r == self.with_edge(key, e),
    {
        reveal(ImmediateEvents::with_edge);
        match key {
            Key::Escape => ImmediateEvents { key_escape: e, ..self },
            Key::Up => ImmediateEvents { key_up: e, ..self },
            Key::Down => ImmediateEvents { key_down: e, ..self },
            Key::Left => ImmediateEvents { key_left: e, ..self },
            Key::Right => ImmediateEvents { key_right: e, ..self },
            Key::Space => ImmediateEvents { key_space: e, ..self },
            Key::Return => ImmediateEvents { key_return: e, ..self },
            Key::Num1 => ImmediateEvents { key_1: e, ..self },
            Key::Num2 => ImmediateEvents { key_2: e, ..self },
            Key::Num3 => ImmediateEvents { key_3: e, ..self },
        }
    }
}

impl Events {
    /// No key held, nothing happened.
    pub open spec fn idle() -> Events {
        Events {
            now: ImmediateEvents::empty(),
            key_escape: false,
            key_up: false,
            key_down: false,
            key_left: false,
            key_right: false,
            key_space: false,
            key_return: false,
            key_1: false,
            key_2: false,
            key_3: false,
        }
    }

    /// Whether `key` is held.
    pub open spec fn level(self, key: Key) -> bool {
        match key {
            Key::Escape => self.key_escape,
            Key::Up => self.key_up,
            Key::Down => self.key_down,
            Key::Left => self.key_left,
            Key::Right => self.key_right,
            Key::Space => self.key_space,
            Key::Return => self.key_return,
            Key::Num1 => self.key_1,
            Key::Num2 => self.key_2,
            Key::Num3 => self.key_3,
        }
    }

    /// The state with the level of `key` replaced.
    #[verifier::opaque]
    pub open spec fn with_level(self, key: Key, held: bool) -> Events {
        match key {
            Key::Escape => Events { key_escape: held, ..self },
            Key::Up => Events { key_up: held, ..self },
            Key::Down => Events { key_down: held, ..self },
            Key::Left => Events { key_left: held, ..self },
            Key::Right => Events { key_right: held, ..self },
            Key::Space => Events { key_space: held, ..self },
            Key::Return => Events { key_return: held, ..self },
            Key::Num1 => Events { key_1: held, ..self },
            Key::Num2 => Events { key_2: held, ..self },
            Key::Num3 => Events { key_3: held, ..self },
        }
    }

    /// The state after `key` went down: it is held, and it counts as just pressed
    /// only if it was not held before, so that key repeats leave the edge alone.
    pub open spec fn key_down(self, key: Key) -> Events {
        let now = if self.level(key) {
            self.now
        } else {
            self.now.with_edge(key, Some(true))
        };
        (Events { now, ..self }).with_level(key, true)
    }

    /// The state after `key` went up: it is no longer held and counts as just released.
    pub open spec fn key_up(self, key: Key) -> Events {
        (Events { now: self.now.with_edge(key, Some(false)), ..self }).with_level(key, false)
    }

    /// The state after one event. `drawable` is the size that the drawing surface
    /// has at the time of the poll: a resize is recorded with that size.
    pub open spec fn apply(self, event: InputEvent, drawable: (u32, u32)) -> Events {
        match event {
            InputEvent::KeyDown(code) => match key_of(code as int) {
                Some(key) => self.key_down(key),
                None => self,
            },
            InputEvent::KeyUp(code) => match key_of(code as int) {
                Some(key) => self.key_up(key),
                None => self,
            },
            InputEvent::Quit => Events { now: ImmediateEvents { quit: true, ..self.now }, ..self },
            InputEvent::Resized => Events {
                now: ImmediateEvents { resize: Some(drawable), ..self.now },
                ..self
            },
            InputEvent::Other => self,
        }
    }

    /// The state after a run of events, applied in order.
    pub open spec fn apply_all(self, events: Seq<InputEvent>, drawable: (u32, u32)) -> Events
        decreases events.len(),
    {
        if events.len() == 0 {
            self
        } else {
            self.apply_all(events.drop_last(), drawable).apply(events.last(), drawable)
        }
    }

    /// The state after one poll: the edges start afresh, the levels carry over, and
    /// the pending events are applied in order.
    pub open spec fn pumped(self, events: Seq<InputEvent>, drawable: (u32, u32)) -> Events {
        (Events { now: ImmediateEvents::empty(), ..self }).apply_all(events, drawable)
    }

    /// No key held, nothing happened.
    pub fn new() -> (r: Events)
        ensures
            r == Events::idle(),
    {
        Events {
            now: ImmediateEvents::new(),
            key_escape: false,
            key_up: false,
            key_down: false,
            key_left: false,
            key_right: false,
            key_space: false,
            key_return: false,
            key_1: false,
            key_2: false,
            key_3: false,
        }
    }

    /// Whether `key` is held.
    pub fn held(&self, key: Key) -> (r: bool)
        ensures
            r == self.level(key),
    {
        match key {
            Key::Escape => self.key_escape,
            Key::Up => self.key_up,
            Key::Down => self.key_down,
            Key::Left => self.key_left,
            Key::Right => self.key_right,
            Key::Space => self.key_space,
            Key::Return => self.key_return,
            Key::Num1 => self.key_1,
            Key::Num2 => self.key_2,
            Key::Num3 => self.key_3,
        }
    }

    /// The state with the level of `key` replaced.
    fn leveled(self, key: Key, held: bool) -> (r: Events)
        ensures
            r == self.with_level(key, held),
    {
        reveal(Events::with_level);
        match key {
            Key::Escape => Events { key_escape: held, ..self },
            Key::Up => Events { key_up: held, ..self },
            Key::Down => Events { key_down: held, ..self },
            Key::Left => Events { key_left: held, ..self },
            Key::Right => Events { key_right: held, ..self },
            Key::Space => Events { key_space: held, ..self },
            Key::Return => Events { key_return: held, ..self },
            Key::Num1 => Events { key_1: held, ..self },
            Key::Num2 => Events { key_2: held, ..self },
            Key::Num3 => Events { key_3: held, ..self },
        }
    }

    /// The state after `key` went down.
    fn pressed_down(self, key: Key) -> (r: Events)
        ensures
            r == self.key_down(key),
    {
        let now = if self.held(key) {
            self.now
        } else {
            self.now.replaced(key, Some(true))
        };
        (Events { now, ..self }).leveled(key, true)
    }

    /// The state after `key` went up.
    fn released(self, key: Key) -> (r: Events)
        ensures
            r == self.key_up(key),
    {
        (Events { now: self.now.replaced(key, Some(false)), ..self }).leveled(key, false)
    }

    /// The state after one event.
    pub fn applied(self, event: InputEvent, drawable: (u32, u32)) -> (r: Events)
        ensures
            r == self.apply(event, drawable),
    {
        match event {
            InputEvent::KeyDown(code) => match Key::from_keycode(code) {
                Some(key) => self.pressed_down(key),
                None => self,
            },
            InputEvent::KeyUp(code) => match Key::from_keycode(code) {
                Some(key) => self.released(key),
                None => self,
            },
            InputEvent::Quit => Events { now: ImmediateEvents { quit: true, ..self.now }, ..self },
            InputEvent::Resized => Events {
                now: ImmediateEvents { resize: Some(drawable), ..self.now },
                ..self
            },
            InputEvent::Other => self,
        }
    }

    /// Takes one event in.
    pub fn handle(&mut self, event: InputEvent, drawable: (u32, u32))
        ensures
            *final(self) == old(self).apply(event, drawable),
    {
        *self = self.applied(event, drawable);
    }

    /// One poll: forgets the edges of the poll before, then takes in, in order, the
    /// events that are pending. `drawable` is the current size of the drawing surface.
    pub fn pump(&mut self, events: &Vec<InputEvent>, drawable: (u32, u32))
        ensures
            *final(self) == old(self).pumped(events@, drawable),
    {
        self.now = ImmediateEvents::new();
        let mut i: usize = 0;
        while i < events.len()
            invariant
                0 <= i <= events.len(),
                *self == (Events { now: ImmediateEvents::empty(), ..*old(self) }).apply_all(
                    events@.take(i as int),
                    drawable,
                ),
            decreases events.len() - i,
        {
            proof {
                assert(events@.take(i + 1).drop_last() =~= events@.take(i as int));
            }
            self.handle(events[i], drawable);
            i += 1;
        }
        proof {
            assert(events@.take(i as int) =~= events@);
        }
    }
}

/// Replacing one key's edge changes that edge and nothing else.
pub proof fn lemma_with_edge(now: ImmediateEvents, key: Key, e: Option<bool>, other: Key)
    ensures
        now.with_edge(key, e).edge(other) == if other == key {
            e
        } else {
            now.edge(other)
        },
        now.with_edge(key, e).quit == now.quit,
        now.with_edge(key, e).resize == now.resize,
{
    reveal(ImmediateEvents::with_edge);
    match key {
        Key::Escape => {},
        Key::Up => {},
        Key::Down => {},
        Key::Left => {},
        Key::Right => {},
        Key::Space => {},
        Key::Return => {},
        Key::Num1 => {},
        Key::Num2 => {},
        Key::Num3 => {},
    }
}

/// Replacing one key's level changes that level and nothing else.
pub proof fn lemma_with_level(e: Events, key: Key, held: bool, other: Key)
    ensures
        e.with_level(key, held).level(other) == if other == key {
            held
        } else {
            e.level(other)
        },
        e.with_level(key, held).now == e.now,
{
    reveal(Events::with_level);
    match key {
        Key::Escape => {},
        Key::Up => {},
        Key::Down => {},
        Key::Left => {},
        Key::Right => {},
        Key::Space => {},
        Key::Return => {},
        Key::Num1 => {},
        Key::Num2 => {},
        Key::Num3 => {},
    }
}

/// What a key-down event does to each key: the key that went down is held, and
/// is just pressed only if it was not held before; every other key is untouched.
pub proof fn lemma_key_down(e: Events, key: Key, other: Key)
    ensures
        e.key_down(key).level(other) == (other == key || e.level(other)),
        e.key_down(key).now.edge(other) == if other == key && !e.level(key) {
            Some(true)
        } else {
            e.now.edge(other)
        },
        e.key_down(key).now.quit == e.now.quit,
        e.key_down(key).now.resize == e.now.resize,
{
    let now = if e.level(key) {
        e.now
    } else {
        e.now.with_edge(key, Some(true))
    };
    let mid = Events { now, ..e };
    lemma_with_edge(e.now, key, Some(true), other);
    lemma_with_level(mid, key, true, other);
    assert(mid.level(other) == e.level(other));
}

/// What a key-up event does to each key: the key that went up is no longer held
/// and is just released; every other key is untouched.
pub proof fn lemma_key_up(e: Events, key: Key, other: Key)
    ensures
        e.key_up(key).level(other) == (other != key && e.level(other)),
        e.key_up(key).now.edge(other) == if other == key {
            Some(false)
        } else {
            e.now.edge(other)
        },
        e.key_up(key).now.quit == e.now.quit,
        e.key_up(key).now.resize == e.now.resize,
{
    let mid = Events { now: e.now.with_edge(key, Some(false)), ..e };
    lemma_with_edge(e.now, key, Some(false), other);
    lemma_with_level(mid, key, false, other);
    assert(mid.level(other) == e.level(other));
}

/// Whether `event` reports that `key` went up.
pub open spec fn releases(event: InputEvent, key: Key) -> bool {
    event matches InputEvent::KeyUp(code) && key_of(code as int) == Some(key)
}

/// Whether `event` reports that `key` went down.
pub open spec fn presses(event: InputEvent, key: Key) -> bool {
    event matches InputEvent::KeyDown(code) && key_of(code as int) == Some(key)
}

/// What one event does to the level and the edge of `key`.
pub proof fn lemma_apply(e: Events, event: InputEvent, drawable: (u32, u32), key: Key)
    ensures
        e.apply(event, drawable).level(key) == if presses(event, key) {
            true
        } else if releases(event, key) {
            false
        } else {
            e.level(key)
        },
        e.apply(event, drawable).now.edge(key) == if presses(event, key) && !e.level(key) {
            Some(true)
        } else if releases(event, key) {
            Some(false)
        } else {
            e.now.edge(key)
        },
{
    match event {
        InputEvent::KeyDown(code) => {
            match key_of(code as int) {
                Some(k) => {
                    lemma_key_down(e, k, key);
                },
                None => {},
            }
        },
        InputEvent::KeyUp(code) => {
            match key_of(code as int) {
                Some(k) => {
                    lemma_key_up(e, k, key);
                },
                None => {},
            }
        },
        InputEvent::Quit => {},
        InputEvent::Resized => {},
        InputEvent::Other => {},
    }
}

/// A key that is held, and has no edge yet, keeps both through any run of events
/// in which it is not released, whether or not the run repeats its key-down event.
pub proof fn lemma_held_key_stays_without_edge(
    e: Events,
    events: Seq<InputEvent>,
    drawable: (u32, u32),
    key: Key,
)
    requires
        e.level(key),
        e.now.edge(key) is None,
        forall|i: int| 0 <= i < events.len() ==> !releases(#[trigger] events[i], key),
    ensures
        e.apply_all(events, drawable).level(key),
        e.apply_all(events, drawable).now.edge(key) is None,
    decreases events.len(),
{
    if events.len() > 0 {
        let front = events.drop_last();
        assert forall|i: int| 0 <= i < front.len() implies !releases(#[trigger] front[i], key) by {
            assert(front[i] == events[i]);
        }
        lemma_held_key_stays_without_edge(e, front, drawable, key);
        assert(!releases(events.last(), key));
        lemma_apply(e.apply_all(front, drawable), events.last(), drawable, key);
    }
}

/// Edge detection. A key that is held when a poll begins, and is not released
/// during it, has the edge "unchanged" after the poll, and is still held: key-down
/// events that the device repeats while the key is down do not press it again.
pub proof fn lemma_held_key_is_unchanged(
    e: Events,
    events: Seq<InputEvent>,
    drawable: (u32, u32),
    key: Key,
)
    requires
        e.level(key),
        forall|i: int| 0 <= i < events.len() ==> !releases(#[trigger] events[i], key),
    ensures
        e.pumped(events, drawable).now.edge(key) is None,
        e.pumped(events, drawable).level(key),
{
    let fresh = Events { now: ImmediateEvents::empty(), ..e };
    assert(fresh.level(key) == e.level(key));
    lemma_held_key_stays_without_edge(fresh, events, drawable, key);
}

/// The edge of `key` agrees with its level: a key that was just pressed is held,
/// and one that was just released is not.
pub open spec fn edge_agrees(e: Events, key: Key) -> bool {
    match e.now.edge(key) {
        Some(down) => e.level(key) == down,
        None => true,
    }
}

/// After a poll, every key's edge agrees with its level, and a key without an
/// edge has the level that it had before the poll. So "just pressed" is seen only
/// where the key went from not held to held within that poll.
pub proof fn lemma_poll_edges_agree(e: Events, events: Seq<InputEvent>, drawable: (u32, u32), key: Key)
    ensures
        edge_agrees(e.pumped(events, drawable), key),
        e.pumped(events, drawable).now.edge(key) is None ==> e.pumped(events, drawable).level(key)
            == e.level(key),
{
    let fresh = Events { now: ImmediateEvents::empty(), ..e };
    assert(fresh.level(key) == e.level(key));
    lemma_run_edges_agree(fresh, events, drawable, key);
}

proof fn lemma_run_edges_agree(e: Events, events: Seq<InputEvent>, drawable: (u32, u32), key: Key)
    requires
        e.now.edge(key) is None,
    ensures
        edge_agrees(e.apply_all(events, drawable), key),
        e.apply_all(events, drawable).now.edge(key) is None ==> e.apply_all(
            events,
            drawable,
        ).level(key) == e.level(key),
    decreases events.len(),
{
    if events.len() > 0 {
        let front = events.drop_last();
        lemma_run_edges_agree(e, front, drawable, key);
        lemma_apply(e.apply_all(front, drawable), events.last(), drawable, key);
    }
}

} // verus!
