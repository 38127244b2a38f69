use arcaders::phi::events::{pressed, Events, ImmediateEvents, InputEvent, Key};

const SPACE: i32 = 32;
const ESCAPE: i32 = 27;
const UP: i32 = 1073741906;

fn poll(events: &mut Events, pending: Vec<InputEvent>) {
    events.pump(&pending, (800, 600));
}

#[test]
fn key_table_maps_the_ten_keys() {
    assert_eq!(Key::from_keycode(27), Some(Key::Escape));
    assert_eq!(Key::from_keycode(1073741906), Some(Key::Up));
    assert_eq!(Key::from_keycode(1073741905), Some(Key::Down));
    assert_eq!(Key::from_keycode(1073741904), Some(Key::Left));
    assert_eq!(Key::from_keycode(1073741903), Some(Key::Right));
    assert_eq!(Key::from_keycode(32), Some(Key::Space));
    assert_eq!(Key::from_keycode(13), Some(Key::Return));
    assert_eq!(Key::from_keycode(49), Some(Key::Num1));
    assert_eq!(Key::from_keycode(50), Some(Key::Num2));
    assert_eq!(Key::from_keycode(51), Some(Key::Num3));
}

#[test]
fn key_table_ignores_other_keys() {
    assert_eq!(Key::from_keycode(0), None);
    assert_eq!(Key::from_keycode(97), None);
    assert_eq!(Key::from_keycode(52), None);
    assert_eq!(Key::from_keycode(-1), None);
}

#[test]
fn key_codes_map_back_to_their_keys() {
    let keys = [
        Key::Escape,
        Key::Up,
        Key::Down,
        Key::Left,
        Key::Right,
        Key::Space,
        Key::Return,
        Key::Num1,
        Key::Num2,
        Key::Num3,
    ];
    for key in keys {
        assert_eq!(Key::from_keycode(key.code()), Some(key));
    }
}

#[test]
fn new_events_hold_nothing() {
    let events = Events::new();
    assert_eq!(events.now, ImmediateEvents::new());
    assert!(!events.key_space && !events.key_up && !events.key_escape);
    assert!(!events.now.quit);
    assert_eq!(events.now.resize, None);
}

#[test]
fn key_down_is_just_pressed_and_held() {
    let mut events = Events::new();
    poll(&mut events, vec![InputEvent::KeyDown(SPACE)]);
    assert_eq!(events.now.key_space, Some(true));
    assert!(events.key_space);
    assert!(pressed(events.now.get(Key::Space)));
    assert!(events.held(Key::Space));
    assert_eq!(events.now.key_up, None);
    assert!(!events.key_up);
}

#[test]
fn held_key_is_unchanged_on_the_next_poll() {
    let mut events = Events::new();
    poll(&mut events, vec![InputEvent::KeyDown(SPACE)]);
    poll(&mut events, vec![]);
    assert_eq!(events.now.key_space, None);
    assert!(events.key_space);
}

#[test]
fn key_repeat_does_not_press_again() {
    let mut events = Events::new();
    poll(&mut events, vec![InputEvent::KeyDown(SPACE)]);
    poll(
        &mut events,
        vec![InputEvent::KeyDown(SPACE), InputEvent::KeyDown(SPACE), InputEvent::Other],
    );
    assert_eq!(events.now.key_space, None);
    assert!(events.key_space);
    assert!(!pressed(events.now.key_space));
}

#[test]
fn key_repeat_within_one_poll_keeps_the_first_edge() {
    let mut events = Events::new();
    poll(&mut events, vec![InputEvent::KeyDown(UP), InputEvent::KeyDown(UP)]);
    assert_eq!(events.now.key_up, Some(true));
    assert!(events.key_up);
}

#[test]
fn key_up_is_just_released() {
    let mut events = Events::new();
    poll(&mut events, vec![InputEvent::KeyDown(SPACE)]);
    poll(&mut events, vec![InputEvent::KeyUp(SPACE)]);
    assert_eq!(events.now.key_space, Some(false));
    assert!(!events.key_space);
    poll(&mut events, vec![]);
    assert_eq!(events.now.key_space, None);
    assert!(!events.key_space);
}

#[test]
fn release_and_press_in_one_poll_presses_again() {
    let mut events = Events::new();
    poll(&mut events, vec![InputEvent::KeyDown(SPACE)]);
    poll(&mut events, vec![InputEvent::KeyUp(SPACE), InputEvent::KeyDown(SPACE)]);
    assert_eq!(events.now.key_space, Some(true));
    assert!(events.key_space);
}

#[test]
fn press_and_release_in_one_poll_ends_released() {
    let mut events = Events::new();
    poll(&mut events, vec![InputEvent::KeyDown(SPACE), InputEvent::KeyUp(SPACE)]);
    assert_eq!(events.now.key_space, Some(false));
    assert!(!events.key_space);
}

#[test]
fn unmapped_keys_are_ignored() {
    let mut events = Events::new();
    poll(&mut events, vec![InputEvent::KeyDown(97), InputEvent::KeyUp(98), InputEvent::Other]);
    assert_eq!(events, Events::new());
}

#[test]
fn keys_do_not_disturb_each_other() {
    let mut events = Events::new();
    poll(&mut events, vec![InputEvent::KeyDown(ESCAPE), InputEvent::KeyDown(UP)]);
    poll(&mut events, vec![InputEvent::KeyUp(UP)]);
    assert!(events.key_escape);
    assert_eq!(events.now.key_escape, None);
    assert!(!events.key_up);
    assert_eq!(events.now.key_up, Some(false));
}

#[test]
fn quit_is_seen_for_one_poll() {
    let mut events = Events::new();
    poll(&mut events, vec![InputEvent::Quit]);
    assert!(events.now.quit);
    poll(&mut events, vec![]);
    assert!(!events.now.quit);
}

#[test]
fn resize_takes_the_size_of_the_surface() {
    let mut events = Events::new();
    events.pump(&vec![InputEvent::Resized], (1024, 768));
    assert_eq!(events.now.resize, Some((1024, 768)));
    events.pump(&vec![], (1024, 768));
    assert_eq!(events.now.resize, None);
}

#[test]
fn handle_and_applied_agree() {
    let mut events = Events::new();
    let expected = events.applied(InputEvent::KeyDown(SPACE), (1, 2));
    events.handle(InputEvent::KeyDown(SPACE), (1, 2));
    assert_eq!(events, expected);
    assert_eq!(events.now.key_space, Some(true));
}
