use arcaders::phi::data::Screen;
use arcaders::phi::events::Events;
use arcaders::phi::fonts::FontCache;
use arcaders::phi::wave::SineTable;
use arcaders::phi::{
    FrameClock, Notice, Phi, Sound, Tick, FRAME_INTERVAL, FRAME_MICROS, INITIAL_CHANNELS,
};

fn runtime() -> Phi {
    Phi::new(Events::new(), Screen::new(800, 600), SineTable::new(vec![0]).unwrap())
}

#[test]
fn clock_waits_for_the_rest_of_the_interval() {
    let mut clock = FrameClock::new(1000);
    assert_eq!(FRAME_INTERVAL, 17);
    assert_eq!(FRAME_MICROS, 16_667);
    assert_eq!(clock.tick(1000), Tick::Wait(17));
    assert_eq!(clock.tick(1005), Tick::Wait(12));
    assert_eq!(clock.tick(1015), Tick::Wait(2));
    assert_eq!(clock.tick(1016), Tick::Wait(1));
    assert_eq!(clock, FrameClock::new(1000));
}

#[test]
fn clock_runs_a_frame_once_the_interval_is_over() {
    let mut clock = FrameClock::new(1000);
    assert_eq!(clock.tick(1017), Tick::Frame { elapsed: 17_000, report: None });
    assert_eq!(clock, FrameClock { before: 1017, last_second: 1000, fps: 1 });
    assert_eq!(clock.tick(1020), Tick::Wait(14));
    assert_eq!(clock.tick(1050), Tick::Frame { elapsed: 33_000, report: None });
    assert_eq!(clock, FrameClock { before: 1050, last_second: 1000, fps: 2 });
}

#[test]
fn clock_never_hands_out_less_than_a_sixtieth_of_a_second() {
    let mut clock = FrameClock::new(0);
    let mut now: u32 = 0;
    let mut frames = 0;
    while now < 5_000 {
        match clock.tick(now) {
            Tick::Frame { elapsed, .. } => {
                assert!(elapsed >= FRAME_MICROS);
                assert!(elapsed * 60 >= 1_000_000);
                frames += 1;
                now += 1;
            }
            Tick::Wait(rest) => {
                assert!(rest >= 1 && rest <= 17);
                let before = clock.before;
                now += rest;
                assert!((now - before) * 60 >= 1_000);
                assert!((now - 1 - before) * 60 < 1_000);
            }
        }
    }
    assert_eq!(frames, 294);
}

#[test]
fn clock_reports_the_frames_of_each_second() {
    let mut clock = FrameClock::new(0);
    let mut now: u32 = 0;
    let mut reports = vec![];
    for _ in 0..200 {
        now += 17;
        match clock.tick(now) {
            Tick::Frame { elapsed, report } => {
                assert_eq!(elapsed, 17_000);
                if let Some(frames) = report {
                    reports.push((now, frames));
                }
            }
            Tick::Wait(_) => panic!("a frame is due"),
        }
    }
    assert_eq!(reports, vec![(1003, 59), (2006, 59), (3009, 59)]);
}

#[test]
fn clock_reports_after_a_long_frame() {
    let mut clock = FrameClock::new(0);
    assert_eq!(clock.tick(5000), Tick::Frame { elapsed: 5_000_000, report: Some(1) });
    assert_eq!(clock, FrameClock { before: 5000, last_second: 5000, fps: 0 });
    assert_eq!(
        clock.tick(u32::MAX),
        Tick::Frame { elapsed: (u32::MAX as u64 - 5000) * 1000, report: Some(1) }
    );
}

#[test]
fn context_starts_with_thirty_two_channels() {
    let phi = runtime();
    assert_eq!(INITIAL_CHANNELS, 32);
    assert_eq!(phi.allocated_channels, 32);
    assert_eq!(phi.output_size(), (800_000_000, 600_000_000));
    assert!(phi.sounds.is_empty());
    assert!(phi.fonts.keys.is_empty());
}

#[test]
fn channels_double_when_they_run_out() {
    let mut phi = runtime();
    assert_eq!(phi.grow_channels(), Some(64));
    assert_eq!(phi.allocated_channels, 64);
    assert_eq!(phi.grow_channels(), Some(128));
    assert_eq!(phi.allocated_channels, 128);
}

#[test]
fn channels_stop_doubling_at_the_limit() {
    let mut phi = runtime();
    let mut last = 32;
    for _ in 0..25 {
        last = phi.grow_channels().unwrap();
    }
    assert_eq!(last, 1 << 30);
    assert_eq!(phi.grow_channels(), None);
    assert_eq!(phi.allocated_channels, 1 << 30);
    phi.allocated_channels = 1_073_741_823;
    assert_eq!(phi.grow_channels(), Some(2_147_483_646));
}

#[test]
fn sounds_queue_in_order_until_they_are_taken() {
    let mut phi = runtime();
    phi.play_sound(Sound::Explosion);
    phi.play_sound(Sound::Bullet);
    phi.play_sound(Sound::Explosion);
    assert_eq!(phi.take_sounds(), vec![Sound::Explosion, Sound::Bullet, Sound::Explosion]);
    assert_eq!(phi.take_sounds(), vec![]);
    phi.play_sound(Sound::Bullet);
    assert_eq!(phi.take_sounds(), vec![Sound::Bullet]);
}

#[test]
fn font_is_loaded_once() {
    let mut phi = runtime();
    assert_eq!(phi.ttf_str_sprite("assets/belligerent.ttf", 32), None);
    assert_eq!(phi.cache_font("assets/belligerent.ttf", 32), 0);
    assert_eq!(phi.ttf_str_sprite("assets/belligerent.ttf", 32), Some(0));
    assert_eq!(phi.ttf_str_sprite("assets/belligerent.ttf", 42), None);
    assert_eq!(phi.cache_font("assets/belligerent.ttf", 42), 1);
    assert_eq!(phi.cache_font("assets/other.ttf", 32), 2);
    assert_eq!(phi.cache_font("assets/belligerent.ttf", 42), 1);
    assert_eq!(phi.ttf_str_sprite("assets/belligerent.ttf", 42), Some(1));
    assert_eq!(phi.ttf_str_sprite("assets/belligerent.ttf", 32), Some(0));
    assert_eq!(phi.fonts.keys.len(), 3);
}

#[test]
fn fonts_keep_their_slots_when_others_come_in() {
    let mut phi = runtime();
    let names = ["a.ttf", "b.ttf", "c.ttf", "d.ttf"];
    for (i, name) in names.iter().enumerate() {
        assert_eq!(phi.cache_font(name, 10 + i as u16), i);
        for (j, earlier) in names.iter().enumerate().take(i + 1) {
            assert_eq!(phi.fonts.keys[j].path, *earlier);
            assert_eq!(phi.fonts.keys[j].size, 10 + j as u16);
            assert_eq!(phi.ttf_str_sprite(earlier, 10 + j as u16), Some(j));
        }
    }
    assert_eq!(phi.cache_font("b.ttf", 11), 1);
    assert_eq!(phi.fonts.keys.len(), 4);
}

#[test]
fn font_cache_finds_what_it_was_given() {
    let mut cache = FontCache::new();
    assert_eq!(cache.slot("a.ttf", 10), None);
    assert_eq!(cache.insert("a.ttf", 10), 0);
    assert_eq!(cache.slot("a.ttf", 10), Some(0));
    assert_eq!(cache.slot("a.ttf", 11), None);
    assert_eq!(cache.slot("b.ttf", 10), None);
    assert_eq!(cache.insert("a.ttf", 10), 0);
    assert_eq!(cache.keys.len(), 1);
    assert_eq!(cache.keys[0].path, "a.ttf");
    assert_eq!(cache.keys[0].size, 10);
}

#[test]
fn screen_can_be_resized() {
    let mut phi = runtime();
    phi.resize(Screen::new(1024, 768));
    assert_eq!(phi.output_size(), (1_024_000_000, 768_000_000));
}

#[test]
fn notices_queue_until_they_are_taken() {
    let mut phi = runtime();
    assert_eq!(phi.take_notices(), vec![]);
    phi.notify(Notice::ShipDestroyed);
    phi.play_sound(Sound::Bullet);
    assert_eq!(phi.take_notices(), vec![Notice::ShipDestroyed]);
    assert_eq!(phi.take_notices(), vec![]);
    assert_eq!(phi.take_sounds(), vec![Sound::Bullet]);
}
