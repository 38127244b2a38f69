use arcaders::phi::data::{MaybeAlive, Rectangle, Screen, MICRO};
use arcaders::phi::gfx::{AnimatedSprite, AnimatedSpriteDescr, Color, Sprite};

fn rect(x: i64, y: i64, w: i64, h: i64) -> Rectangle {
    Rectangle { x, y, w, h }
}

#[test]
fn rectangles_that_share_area_overlap() {
    assert!(rect(0, 0, 10, 10).overlaps(rect(5, 5, 10, 10)));
    assert!(rect(5, 5, 10, 10).overlaps(rect(0, 0, 10, 10)));
    assert!(rect(0, 0, 10, 10).overlaps(rect(2, 2, 3, 3)));
}

#[test]
fn rectangles_that_only_touch_do_not_overlap() {
    assert!(!rect(0, 0, 10, 10).overlaps(rect(10, 0, 10, 10)));
    assert!(!rect(0, 0, 10, 10).overlaps(rect(0, 10, 10, 10)));
    assert!(!rect(0, 0, 10, 10).overlaps(rect(30, 30, 1, 1)));
}

#[test]
fn overlap_does_not_overflow_at_the_ends_of_the_range() {
    let far = rect(i64::MAX - 1, i64::MAX - 1, i64::MAX, i64::MAX);
    assert!(far.overlaps(far));
    assert!(!rect(i64::MIN, i64::MIN, 1, 1).overlaps(far));
}

#[test]
fn contains_counts_the_borders() {
    let outer = rect(0, 0, 100, 50);
    assert!(outer.contains(rect(0, 0, 100, 50)));
    assert!(outer.contains(rect(90, 40, 10, 10)));
    assert!(!outer.contains(rect(91, 40, 10, 10)));
    assert!(!outer.contains(rect(-1, 0, 10, 10)));
}

#[test]
fn center_is_the_middle() {
    assert_eq!(rect(10, 20, 100, 50).center(), (60, 45));
    assert_eq!(rect(-10, -20, 7, 9).center(), (-7, -16));
}

#[test]
fn center_at_puts_the_middle_at_the_point() {
    let r = Rectangle::with_size(96, 96).center_at((500, 300));
    assert_eq!(r, rect(452, 252, 96, 96));
    assert_eq!(r.center(), (500, 300));
}

#[test]
fn with_size_starts_at_the_origin() {
    assert_eq!(Rectangle::with_size(3, 4), rect(0, 0, 3, 4));
}

#[test]
fn move_inside_leaves_a_rectangle_that_is_inside() {
    let parent = rect(0, 0, 100, 100);
    assert_eq!(rect(20, 30, 10, 10).move_inside(parent), Some(rect(20, 30, 10, 10)));
}

#[test]
fn move_inside_pulls_back_from_each_side() {
    let parent = rect(0, 0, 100, 100);
    assert_eq!(rect(95, 30, 10, 10).move_inside(parent), Some(rect(90, 30, 10, 10)));
    assert_eq!(rect(-5, 30, 10, 10).move_inside(parent), Some(rect(0, 30, 10, 10)));
    assert_eq!(rect(20, 120, 10, 10).move_inside(parent), Some(rect(20, 90, 10, 10)));
    assert_eq!(rect(20, -3, 10, 10).move_inside(parent), Some(rect(20, 0, 10, 10)));
    assert_eq!(rect(500, -500, 10, 10).move_inside(parent), Some(rect(90, 0, 10, 10)));
}

#[test]
fn move_inside_fails_for_a_rectangle_that_is_too_large() {
    let parent = rect(0, 0, 100, 100);
    assert_eq!(rect(0, 0, 101, 10).move_inside(parent), None);
    assert_eq!(rect(0, 0, 10, 101).move_inside(parent), None);
    assert_eq!(rect(0, 0, 100, 100).move_inside(parent), Some(rect(0, 0, 100, 100)));
}

#[test]
fn maybe_alive_gives_its_value_only_while_alive() {
    assert_eq!(MaybeAlive { alive: true, value: 7u32 }.as_option(), Some(7));
    assert_eq!(MaybeAlive { alive: false, value: 7u32 }.as_option(), None);
}

#[test]
fn screen_size_is_in_micro_pixels() {
    let s = Screen::new(800, 600);
    assert_eq!(s.size(), (800 * MICRO, 600 * MICRO));
    assert_eq!(Screen::new(0, 65535).size(), (0, 65_535_000_000));
}

#[test]
fn color_keeps_its_parts() {
    assert_eq!(Color::rgb(1, 2, 3), Color { r: 1, g: 2, b: 3 });
}

#[test]
fn sprite_region_is_relative_to_the_sprite() {
    let sheet = Sprite::new(300, 200);
    assert_eq!(sheet.size(), (300, 200));
    let part = sheet.region(rect(100, 50, 100, 100)).unwrap();
    assert_eq!(part.src, rect(100, 50, 100, 100));
    let inner = part.region(rect(10, 20, 30, 40)).unwrap();
    assert_eq!(inner.src, rect(110, 70, 30, 40));
    assert_eq!(inner.size(), (30, 40));
}

#[test]
fn sprite_region_fails_outside_the_sprite() {
    let sheet = Sprite::new(300, 200);
    assert_eq!(sheet.region(rect(250, 0, 100, 100)), None);
    assert_eq!(sheet.region(rect(0, 150, 100, 100)), None);
    assert!(sheet.region(rect(200, 100, 100, 100)).is_some());
}

#[test]
fn animation_returns_to_the_first_frame_after_one_round() {
    let mut sprite = AnimatedSprite::with_fps(17, 16);
    assert_eq!(sprite.frame(), 0);
    sprite.add_time(1_062_500);
    assert_eq!(sprite.frame(), 0);
}

#[test]
fn animation_frame_is_time_times_rate_rounded_down() {
    let mut sprite = AnimatedSprite::with_fps(17, 16);
    sprite.add_time(500_000);
    assert_eq!(sprite.frame(), 8);
    sprite.add_time(62_499);
    assert_eq!(sprite.frame(), 8);
    sprite.add_time(1);
    assert_eq!(sprite.frame(), 9);
    sprite.add_time(437_500);
    assert_eq!(sprite.frame(), 16);
    sprite.add_time(62_500);
    assert_eq!(sprite.frame(), 0);
}

#[test]
fn animation_loops_for_ever_in_small_steps() {
    let mut sprite = AnimatedSprite::with_fps(17, 16);
    let mut total: u64 = 0;
    for _ in 0..10_000 {
        sprite.add_time(16_667);
        total += 16_667;
        let expected = ((total as u128 * 16 / 1_000_000) % 17) as u32;
        assert_eq!(sprite.frame(), expected);
    }
}

#[test]
fn animation_takes_any_length_of_time() {
    let mut sprite = AnimatedSprite::with_fps(143, 29);
    sprite.add_time(u64::MAX);
    sprite.add_time(u64::MAX);
    let total: u128 = 2 * (u64::MAX as u128);
    assert_eq!(sprite.frame(), ((total * 29 / 1_000_000) % 143) as u32);
    assert!(sprite.current_time < 143_000_000);
}

#[test]
fn animation_rate_can_change() {
    let mut sprite = AnimatedSprite::new(10);
    assert_eq!(sprite.fps, 1);
    sprite.add_time(3_000_000);
    assert_eq!(sprite.frame(), 3);
    sprite.set_fps(2);
    assert_eq!(sprite.frame(), 6);
    sprite.set_fps(0);
    assert_eq!(sprite.frame(), 0);
}

#[test]
fn copies_of_an_animation_play_on_their_own() {
    let mut first = AnimatedSprite::with_fps(17, 16);
    first.add_time(125_000);
    let mut second = first;
    second.add_time(125_000);
    assert_eq!(first.frame(), 2);
    assert_eq!(second.frame(), 4);
}

#[test]
fn sheet_is_cut_row_by_row() {
    let descr = AnimatedSpriteDescr {
        image_path: "sheet.png",
        total_frames: 17,
        frames_high: 4,
        frames_wide: 5,
        frame_w: 96 * MICRO,
        frame_h: 96 * MICRO,
    };
    assert_eq!(descr.frame_region(0), rect(0, 0, 96 * MICRO, 96 * MICRO));
    assert_eq!(descr.frame_region(4), rect(4 * 96 * MICRO, 0, 96 * MICRO, 96 * MICRO));
    assert_eq!(descr.frame_region(5), rect(0, 96 * MICRO, 96 * MICRO, 96 * MICRO));
    assert_eq!(
        descr.frame_region(16),
        rect(96 * MICRO, 3 * 96 * MICRO, 96 * MICRO, 96 * MICRO)
    );
}

#[test]
fn sheet_gives_as_many_frames_as_declared() {
    let descr = AnimatedSpriteDescr {
        image_path: "sheet.png",
        total_frames: 17,
        frames_high: 4,
        frames_wide: 5,
        frame_w: 10,
        frame_h: 20,
    };
    let frames = descr.load_frames();
    assert_eq!(frames.len(), 17);
    for (i, frame) in frames.iter().enumerate() {
        assert_eq!(*frame, rect(10 * (i as i64 % 5), 20 * (i as i64 / 5), 10, 20));
    }
}
