use arcaders::phi::data::{Rectangle, Screen, MICRO};
use arcaders::phi::events::Events;
use arcaders::phi::gfx::Color;
use arcaders::phi::wave::SineTable;
use arcaders::phi::Phi;
use arcaders::views::shared::Draw;
use arcaders::views::bullets::{
    spawn_bullets, Bullet, CannonType, DivergentBullet, RectBullet, SineBullet, BULLET_H,
    BULLET_SPEED, BULLET_W,
};

fn sines(n: usize) -> SineTable {
    let samples: Vec<i32> = (0..n)
        .map(|i| ((2.0 * std::f64::consts::PI * i as f64 / n as f64).sin() * 1e6).round() as i32)
        .collect();
    SineTable::new(samples).unwrap()
}

fn context(w: u16, h: u16) -> Phi {
    Phi::new(Events::new(), Screen::new(w, h), sines(4096))
}

#[test]
fn bullet_constants() {
    assert_eq!(BULLET_SPEED, 240);
    assert_eq!(BULLET_W, 8_000_000);
    assert_eq!(BULLET_H, 4_000_000);
}

#[test]
fn sine_table_needs_samples_within_the_peak() {
    assert!(SineTable::new(vec![]).is_none());
    assert!(SineTable::new(vec![0, 1_000_001]).is_none());
    assert!(SineTable::new(vec![0, -1_000_001]).is_none());
    assert!(SineTable::new(vec![0, 1_000_000, 0, -1_000_000]).is_some());
    assert!(SineTable::new(vec![5]).is_some());
}

#[test]
fn sine_table_steps_through_one_turn() {
    let table = SineTable::new(vec![0, 1_000_000, 0, -1_000_000]).unwrap();
    assert_eq!(table.value(0), 0);
    assert_eq!(table.value(1_570_796), 0);
    assert_eq!(table.value(1_570_797), 1_000_000);
    assert_eq!(table.value(3_141_593), 0);
    assert_eq!(table.value(4_712_389), -1_000_000);
    assert_eq!(table.value(6_283_184), -1_000_000);
    assert_eq!(table.value(6_283_185), 0);
    assert_eq!(table.value(6_283_185 * 1000 + 1_570_797), 1_000_000);
}

#[test]
fn sine_offset_scales_and_rounds_toward_zero() {
    let table = SineTable::new(vec![0, 333_333, 0, -333_333]).unwrap();
    assert_eq!(table.offset(10, 1, 2_000_000), 3);
    assert_eq!(table.offset(-10, 1, 2_000_000), -3);
    assert_eq!(table.offset(10, 1, 5_000_000), -3);
    assert_eq!(table.offset(3_000_000, 2, 1_000_000), 999_999);
    assert_eq!(table.offset(i32::MAX, u32::MAX, u64::MAX).abs() <= i32::MAX as i64, true);
}

#[test]
fn sine_trajectory_follows_the_time() {
    let phi = context(800, 600);
    let shot = spawn_bullets(
        CannonType::SineBullet { amplitude: 10 * MICRO as i32, angular_vel: 15 },
        0,
        100 * MICRO,
        200 * MICRO,
    );
    let bullet = match shot[0] {
        Bullet::Sine(b) => b,
        _ => panic!("a sine cannon fires sine bullets"),
    };
    assert_eq!(bullet.origin_y, 100 * MICRO);
    assert_eq!(bullet.rect(&phi.sine).y - bullet.origin_y, 0);
    let quarter = (std::f64::consts::PI / (2.0 * 15.0) * 1e6).round() as u64;
    let later = bullet.update(&phi, quarter).unwrap();
    assert_eq!(later.total_time, quarter);
    let offset = later.rect(&phi.sine).y - later.origin_y;
    assert!((offset as f64 / 1e6 - 10.0).abs() < 1e-3);
    let in_two_steps = bullet.update(&phi, quarter / 2).unwrap().update(&phi, quarter - quarter / 2);
    assert_eq!(in_two_steps, Some(later));
}

#[test]
fn sine_trajectory_matches_the_sine_along_the_way() {
    let phi = context(2000, 600);
    let bullet = SineBullet {
        pos_x: 0,
        origin_y: 100 * MICRO,
        amplitude: 10 * MICRO as i32,
        angular_vel: 15,
        total_time: 0,
    };
    let mut current = bullet;
    for _ in 0..200 {
        current = current.update(&phi, 16_667).unwrap();
        let t = current.total_time as f64 / 1e6;
        let expected = 10.0 * (15.0 * t).sin();
        let got = (current.rect(&phi.sine).y - current.origin_y) as f64 / 1e6;
        assert!((got - expected).abs() < 0.02);
        assert_eq!(current.pos_x, 240 * current.total_time as i64);
    }
}

#[test]
fn rect_cannon_fires_two_rect_bullets() {
    let shot = spawn_bullets(CannonType::RectBullet, 94 * MICRO, 286 * MICRO, 309 * MICRO);
    assert_eq!(
        shot,
        vec![
            Bullet::Rect(RectBullet {
                rect: Rectangle { x: 94 * MICRO, y: 286 * MICRO, w: BULLET_W, h: BULLET_H }
            }),
            Bullet::Rect(RectBullet {
                rect: Rectangle { x: 94 * MICRO, y: 309 * MICRO, w: BULLET_W, h: BULLET_H }
            }),
        ]
    );
}

#[test]
fn sine_cannon_fires_two_sine_bullets() {
    let shot = spawn_bullets(CannonType::SineBullet { amplitude: 7, angular_vel: 3 }, 1, 2, 3);
    assert_eq!(
        shot,
        vec![
            Bullet::Sine(SineBullet {
                pos_x: 1,
                origin_y: 2,
                amplitude: 7,
                angular_vel: 3,
                total_time: 0
            }),
            Bullet::Sine(SineBullet {
                pos_x: 1,
                origin_y: 3,
                amplitude: 7,
                angular_vel: 3,
                total_time: 0
            }),
        ]
    );
}

#[test]
fn divergent_cannon_fires_a_mirrored_pair() {
    let shot = spawn_bullets(CannonType::DivergentBullet { a: 100 * MICRO as i32, b: 1_200_000 }, 1, 2, 3);
    assert_eq!(
        shot,
        vec![
            Bullet::Divergent(DivergentBullet {
                pos_x: 1,
                origin_y: 2,
                a: -100 * MICRO,
                b: 1_200_000,
                total_time: 0
            }),
            Bullet::Divergent(DivergentBullet {
                pos_x: 1,
                origin_y: 3,
                a: 100 * MICRO,
                b: 1_200_000,
                total_time: 0
            }),
        ]
    );
}

#[test]
fn divergent_pair_is_mirrored_for_the_extreme_parameter() {
    let shot = spawn_bullets(CannonType::DivergentBullet { a: i32::MIN, b: 1 }, 0, 0, 0);
    assert_eq!(shot.len(), 2);
    match (shot[0], shot[1]) {
        (Bullet::Divergent(first), Bullet::Divergent(second)) => {
            assert_eq!(first.a, 2_147_483_648);
            assert_eq!(second.a, -2_147_483_648);
        }
        _ => panic!("a divergent cannon fires divergent bullets"),
    }
}

#[test]
fn rect_bullet_flies_straight() {
    let phi = context(800, 600);
    let bullet = RectBullet { rect: Rectangle { x: 100 * MICRO, y: 50 * MICRO, w: BULLET_W, h: BULLET_H } };
    let later = bullet.update(&phi, 1_000_000).unwrap();
    assert_eq!(later.rect(), Rectangle { x: 340 * MICRO, y: 50 * MICRO, w: BULLET_W, h: BULLET_H });
    assert_eq!(bullet.update(&phi, 0), Some(bullet));
}

#[test]
fn rect_bullet_leaves_when_its_right_edge_is_past_the_screen() {
    let phi = context(800, 600);
    let bullet = RectBullet { rect: Rectangle { x: 792 * MICRO - 240, y: 0, w: BULLET_W, h: BULLET_H } };
    assert!(bullet.update(&phi, 1).is_some());
    assert_eq!(bullet.update(&phi, 1).unwrap().rect.x, 792 * MICRO);
    assert_eq!(bullet.update(&phi, 2), None);
    assert_eq!(bullet.update(&phi, u64::MAX), None);
}

#[test]
fn sine_bullet_leaves_when_it_is_past_the_screen() {
    let phi = context(800, 600);
    let bullet = SineBullet {
        pos_x: 800 * MICRO - 240,
        origin_y: 100 * MICRO,
        amplitude: 5,
        angular_vel: 1,
        total_time: 0,
    };
    assert_eq!(bullet.update(&phi, 1).unwrap().pos_x, 800 * MICRO);
    assert_eq!(bullet.update(&phi, 2), None);
    assert_eq!(bullet.update(&phi, u64::MAX), None);
}

#[test]
fn divergent_bullet_follows_the_cubic() {
    let phi = context(800, 600);
    let shot = spawn_bullets(
        CannonType::DivergentBullet { a: 100 * MICRO as i32, b: 1_200_000 },
        94 * MICRO,
        286 * MICRO,
        309 * MICRO,
    );
    let (upper, lower) = match (shot[0], shot[1]) {
        (Bullet::Divergent(u), Bullet::Divergent(l)) => (u, l),
        _ => panic!("a divergent cannon fires divergent bullets"),
    };
    assert_eq!(upper.rect().y, 286 * MICRO);
    assert_eq!(lower.rect().y, 309 * MICRO);
    let upper = upper.update(&phi, 1_800_000).unwrap();
    let lower = lower.update(&phi, 1_800_000).unwrap();
    assert_eq!(upper.rect().y, 286 * MICRO - 112_500_000);
    assert_eq!(lower.rect().y, 309 * MICRO + 112_500_000);
    assert_eq!(lower.rect().x, 94 * MICRO + 432 * MICRO);
    assert_eq!(lower.rect().w, BULLET_W);
    assert_eq!(lower.rect().h, BULLET_H);
}

#[test]
fn divergent_bullet_dips_before_it_rises() {
    let phi = context(800, 600);
    let bullet = DivergentBullet { pos_x: 0, origin_y: 300 * MICRO, a: 100 * MICRO, b: 1_200_000, total_time: 0 };
    let dipped = bullet.update(&phi, 600_000).unwrap();
    assert_eq!(dipped.rect().y, 300 * MICRO - 12_500_000);
    let level = bullet.update(&phi, 1_200_000).unwrap();
    assert_eq!(level.rect().y, 300 * MICRO);
}

#[test]
fn divergent_bullet_leaves_at_the_top_and_at_the_bottom() {
    let phi = context(2000, 600);
    let down = DivergentBullet { pos_x: 0, origin_y: 300 * MICRO, a: 100 * MICRO, b: 1_200_000, total_time: 0 };
    let up = DivergentBullet { a: -100 * MICRO, ..down };
    assert!(down.update(&phi, 1_800_000).is_some());
    assert!(up.update(&phi, 1_800_000).is_some());
    assert_eq!(down.update(&phi, 2_400_000), None);
    assert_eq!(up.update(&phi, 2_400_000), None);
}

#[test]
fn divergent_bullet_leaves_on_the_right() {
    let phi = context(100, 600);
    let flat = DivergentBullet { pos_x: 0, origin_y: 300 * MICRO, a: 0, b: 1, total_time: 0 };
    assert!(flat.update(&phi, 416_666).is_some());
    assert_eq!(flat.update(&phi, 416_667), None);
    assert_eq!(flat.update(&phi, u64::MAX), None);
}

#[test]
fn bullets_of_any_kind_update_as_their_kind_does() {
    let phi = context(800, 600);
    let rect = RectBullet { rect: Rectangle { x: 0, y: 0, w: BULLET_W, h: BULLET_H } };
    assert_eq!(
        Bullet::Rect(rect).update(&phi, 1000),
        rect.update(&phi, 1000).map(Bullet::Rect)
    );
    let sine = SineBullet { pos_x: 0, origin_y: 0, amplitude: 5, angular_vel: 2, total_time: 0 };
    assert_eq!(
        Bullet::Sine(sine).update(&phi, 1000),
        sine.update(&phi, 1000).map(Bullet::Sine)
    );
    assert_eq!(Bullet::Sine(sine).rect(&phi.sine), sine.rect(&phi.sine));
    let gone = RectBullet { rect: Rectangle { x: 800 * MICRO, y: 0, w: BULLET_W, h: BULLET_H } };
    assert_eq!(Bullet::Rect(gone).update(&phi, 1), None);
}

#[test]
fn bullets_are_drawn_as_yellow_boxes() {
    let phi = context(800, 600);
    let yellow = Color { r: 230, g: 230, b: 30 };
    let rect = RectBullet { rect: Rectangle { x: 5, y: 6, w: BULLET_W, h: BULLET_H } };
    assert_eq!(rect.render(), Draw::Fill(yellow, rect.rect));
    let sine = SineBullet { pos_x: 0, origin_y: 9, amplitude: 5 * MICRO as i32, angular_vel: 2, total_time: 700_000 };
    assert_eq!(sine.render(&phi.sine), Draw::Fill(yellow, sine.rect(&phi.sine)));
    assert_eq!(Bullet::Sine(sine).render(&phi.sine), sine.render(&phi.sine));
    let divergent = DivergentBullet { pos_x: 3, origin_y: 300 * MICRO, a: 100 * MICRO, b: 1_200_000, total_time: 600_000 };
    assert_eq!(divergent.render(), Draw::Fill(yellow, divergent.rect()));
    assert_eq!(Bullet::Divergent(divergent).render(&phi.sine), divergent.render());
}
