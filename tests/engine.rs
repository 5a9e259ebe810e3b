use screensaver::{
    color_at, tick_delta, Color, Coords2d, Dimensions, FrameClock, LogoSize, RandomDraw,
    ScreenSaver, WindowsLogo, PALETTE_SIZE, TIME_SLICE,
};

fn viewport(width: u32, height: u32) -> Dimensions {
    Dimensions { width, height }
}

fn draw(color: u32, bias: u32, x: u32, y: u32) -> RandomDraw {
    RandomDraw { color, bias, x, y }
}

/// A small deterministic generator of draws.
struct Lcg(u64);

impl Lcg {
    fn next(&mut self) -> u32 {
        self.0 = self.0.wrapping_mul(6364136223846793005).wrapping_add(1442695040888963407);
        (self.0 >> 32) as u32
    }

    fn draw(&mut self) -> RandomDraw {
        draw(self.next(), self.next(), self.next(), self.next())
    }
}

#[test]
fn web_colors() {
    assert_eq!(Color::YellowishBronze.as_web_color(), "#666c2b");
    assert_eq!(Color::Teal.as_web_color(), "teal");
    assert_eq!(Color::Aqua.as_web_color(), "aqua");
    assert_eq!(Color::Lime.as_web_color(), "lime");
    assert_eq!(Color::Purple.as_web_color(), "purple");
    assert_eq!(Color::Gray.as_web_color(), "gray");
    assert_eq!(Color::White.as_web_color(), "white");
    assert_eq!(Color::Red.as_web_color(), "red");
    assert_eq!(Color::Maroon.as_web_color(), "maroon");
    assert_eq!(Color::Green.as_web_color(), "green");
    assert_eq!(Color::Blue.as_web_color(), "blue");
}

#[test]
fn palette_order() {
    assert_eq!(PALETTE_SIZE, 11);
    assert_eq!(color_at(0), Color::YellowishBronze);
    assert_eq!(color_at(6), Color::White);
    assert_eq!(color_at(10), Color::Blue);
}

#[test]
fn tick_gating_accepts_only_the_due_sample() {
    assert_eq!(TIME_SLICE, 16);
    let mut clock = FrameClock::new();
    assert_eq!(clock.accept(0), None);
    assert_eq!(clock.accept(5), None);
    assert_eq!(clock.accept(10), None);
    assert_eq!(clock.last_tick_time(), 0);
    assert_eq!(clock.accept(20), Some(20));
    assert_eq!(clock.last_tick_time(), 20);
}

#[test]
fn dropped_time_is_not_carried_over() {
    let mut clock = FrameClock::new();
    assert_eq!(clock.accept(20), Some(20));
    assert_eq!(clock.accept(30), None);
    assert_eq!(clock.accept(35), None);
    assert_eq!(clock.accept(36), Some(16));
    assert_eq!(clock.last_tick_time(), 36);
    assert_eq!(clock.accept(1036), Some(1000));
}

#[test]
fn tick_delta_values() {
    assert_eq!(tick_delta(0, 15), None);
    assert_eq!(tick_delta(0, 16), Some(16));
    assert_eq!(tick_delta(100, 50), None);
    assert_eq!(tick_delta(i64::MIN, i64::MAX), Some(u64::MAX));
}

#[test]
fn centred_respawn_from_zero_draws() {
    let logo = WindowsLogo::create_random_logo(viewport(100, 100), 1200, draw(0, 0, 0, 0));
    assert_eq!(logo.position(), Coords2d(25000, 25000));
    assert_eq!(logo.color(), Color::YellowishBronze);
    assert_eq!(logo.size(), LogoSize { width: 0, height: 0 });
    assert_eq!(logo.speed(), 1200);
}

#[test]
fn uniform_respawn_from_high_draws() {
    let logo = WindowsLogo::create_random_logo(
        viewport(100, 40),
        1200,
        draw(u32::MAX, u32::MAX, 1 << 31, 1 << 30),
    );
    assert_eq!(logo.position(), Coords2d(50000, 10000));
    assert_eq!(logo.color(), Color::Blue);
}

#[test]
fn centred_respawn_mid_draw() {
    // bias draws below a third of the range pick the middle half of each axis
    let logo = WindowsLogo::create_random_logo(
        viewport(200, 100),
        1000,
        draw(1 << 31, 1431655765, 1 << 31, 0),
    );
    assert_eq!(logo.position(), Coords2d(100000, 25000));
    assert_eq!(logo.color(), Color::Gray);
    let uniform = WindowsLogo::create_random_logo(
        viewport(200, 100),
        1000,
        draw(1 << 31, 1431655766, 1 << 31, 0),
    );
    assert_eq!(uniform.position(), Coords2d(100000, 0));
}

#[test]
fn advance_moves_away_from_centre_and_sizes_from_previous_distance() {
    let mut logo = WindowsLogo::placed(Coords2d(60000, 50000), 1200, Color::Red);
    logo.advance(viewport(100, 100), 500, draw(0, 0, 0, 0));
    assert_eq!(logo.position(), Coords2d(66000, 50000));
    assert_eq!(logo.size(), LogoSize { width: 2200, height: 0 });
    assert_eq!(logo.color(), Color::Red);
    logo.advance(viewport(100, 100), 500, draw(0, 0, 0, 0));
    // distance 16000 grows by 16000 * 1.2 * 0.5 = 9600
    assert_eq!(logo.position(), Coords2d(75600, 50000));
    assert_eq!(logo.size(), LogoSize { width: 3520, height: 0 });
    assert_eq!(logo.speed(), 1200);
}

#[test]
fn advance_moves_left_of_centre_outwards() {
    let mut logo = WindowsLogo::placed(Coords2d(40000, 30000), 1000, Color::Teal);
    logo.advance(viewport(100, 100), 100, draw(0, 0, 0, 0));
    // dx = 10000 moves by 1000; dy = 20000 moves by 2000
    assert_eq!(logo.position(), Coords2d(39000, 28000));
    assert_eq!(logo.size(), LogoSize { width: 2200, height: 4400 });
}

#[test]
fn scenario_far_right_is_recycled_same_tick() {
    let vp = viewport(100, 100);
    let d = draw(7 << 28, 3 << 30, 1 << 31, 1 << 29);
    let mut logo = WindowsLogo::placed(Coords2d(150000, 50000), 1000, Color::White);
    logo.advance(vp, 1000, d);
    let expected = WindowsLogo::create_random_logo(vp, 1000, d);
    assert_ne!(logo.position(), Coords2d(250000, 50000));
    assert_eq!(logo.position(), expected.position());
    assert_eq!(logo.color(), expected.color());
    assert_eq!(logo.size(), LogoSize { width: 0, height: 0 });
    assert_eq!(logo.speed(), 1000);
    assert_eq!(logo.position(), Coords2d(50000, 12500));
    assert_eq!(logo.color(), Color::Purple);
}

#[test]
fn leaving_on_the_left_is_recycled() {
    let vp = viewport(100, 100);
    let mut logo = WindowsLogo::placed(Coords2d(-1000, 50000), 1000, Color::Green);
    logo.advance(vp, 1000, draw(0, 0, 0, 0));
    assert_eq!(logo.position(), Coords2d(25000, 25000));
    assert_eq!(logo.color(), Color::YellowishBronze);
    assert_eq!(logo.size(), LogoSize { width: 0, height: 0 });
}

#[test]
fn leaving_at_the_bottom_is_recycled() {
    let vp = viewport(100, 100);
    let mut logo = WindowsLogo::placed(Coords2d(50000, 95000), 2000, Color::Green);
    logo.advance(vp, 1000, draw(0, u32::MAX, 0, 0));
    assert_eq!(logo.position(), Coords2d(0, 0));
    assert_eq!(logo.color(), Color::YellowishBronze);
}

#[test]
fn edge_within_size_margin_is_kept() {
    // x' = 100000 + 50000 * 0.1 = 105000, width = 11000: inside the margin
    let vp = viewport(100, 100);
    let mut logo = WindowsLogo::placed(Coords2d(100000, 50000), 100, Color::Lime);
    logo.advance(vp, 1000, draw(0, 0, 0, 0));
    assert_eq!(logo.position(), Coords2d(105000, 50000));
    assert_eq!(logo.size(), LogoSize { width: 11000, height: 0 });
    assert_eq!(logo.color(), Color::Lime);
}

#[test]
fn huge_time_step_respawns() {
    let vp = viewport(100, 100);
    let mut logo = WindowsLogo::placed(Coords2d(50001, 50000), u32::MAX, Color::Lime);
    logo.advance(vp, u64::MAX, draw(0, 0, 0, 0));
    assert_eq!(logo.position(), Coords2d(25000, 25000));
    assert_eq!(logo.speed(), u32::MAX);
}

#[test]
fn centre_is_stable() {
    let vp = viewport(100, 60);
    let mut logo = WindowsLogo::placed(Coords2d(50000, 30000), 1200, Color::Aqua);
    for dt in [16u64, 17, 1000, 50000, u64::MAX] {
        logo.advance(vp, dt, draw(0, 0, 0, 0));
        assert_eq!(logo.position(), Coords2d(50000, 30000));
        assert_eq!(logo.size(), LogoSize { width: 0, height: 0 });
        assert_eq!(logo.color(), Color::Aqua);
    }
}

#[test]
fn zero_viewport_freezes_at_origin() {
    let vp = viewport(0, 0);
    let mut logo = WindowsLogo::create_random_logo(vp, 1200, draw(5, 6, 7, 8));
    assert_eq!(logo.position(), Coords2d(0, 0));
    logo.advance(vp, 1000, draw(9, 9, 9, 9));
    assert_eq!(logo.position(), Coords2d(0, 0));
}

#[test]
fn speed_kept_through_ticks_and_respawns() {
    let mut gen = Lcg(7);
    let vp = viewport(640, 480);
    let mut logo = WindowsLogo::create_random_logo(vp, 1200, gen.draw());
    for i in 0..500u64 {
        if i % 7 == 0 {
            logo.recycle_with_random_values(vp, gen.draw());
        } else {
            logo.advance(vp, 16 + i % 40, gen.draw());
        }
        assert_eq!(logo.speed(), 1200);
    }
}

#[test]
fn centred_share_is_a_third() {
    let mut gen = Lcg(42);
    let vp = viewport(400, 200);
    let total = 30000u32;
    let mut centred = 0u32;
    for _ in 0..total {
        let d = gen.draw();
        let logo = WindowsLogo::create_random_logo(vp, 1000, d);
        let Coords2d(x, y) = logo.position();
        assert!((0..400000).contains(&x) && (0..200000).contains(&y));
        if (d.bias as u64) * 3 < (1u64 << 32) {
            centred += 1;
            assert!((100000..300000).contains(&x));
            assert!((50000..150000).contains(&y));
        }
    }
    let share = centred as f64 / total as f64;
    assert!((share - 1.0 / 3.0).abs() < 0.02, "share {}", share);
}

#[test]
fn colours_are_spread_evenly() {
    let mut gen = Lcg(3);
    let vp = viewport(100, 100);
    let mut counts = [0u32; 11];
    for _ in 0..22000 {
        let logo = WindowsLogo::create_random_logo(vp, 1000, gen.draw());
        let idx = (0..11u32).position(|i| color_at(i) == logo.color()).unwrap();
        counts[idx] += 1;
    }
    for c in counts {
        assert!((1700..2300).contains(&c), "count {}", c);
    }
}

#[test]
fn screensaver_paces_and_advances_every_logo() {
    let vp = viewport(100, 100);
    let draws = vec![draw(0, 0, 0, 0), draw(0, 0, 1 << 31, 1 << 31), draw(0, 0, u32::MAX, 0)];
    let mut saver = ScreenSaver::new(vp, 1000, &draws);
    assert_eq!(saver.len(), 3);
    assert_eq!(saver.last_tick_time(), 0);
    assert_eq!(saver.logo(0).position(), Coords2d(25000, 25000));
    assert_eq!(saver.logo(1).position(), Coords2d(50000, 50000));

    let fresh = vec![draw(0, 0, 0, 0); 3];
    assert!(!saver.advance_world(5, vp, &fresh));
    assert!(!saver.advance_world(10, vp, &fresh));
    assert_eq!(saver.logo(0).position(), Coords2d(25000, 25000));
    assert!(saver.advance_world(100, vp, &fresh));
    assert_eq!(saver.last_tick_time(), 100);
    // distance 25000 grows by 25000 * 1.0 * 0.1
    assert_eq!(saver.logo(0).position(), Coords2d(22500, 22500));
    assert_eq!(saver.logo(0).size(), LogoSize { width: 5500, height: 5500 });
    assert_eq!(saver.logo(1).position(), Coords2d(50000, 50000));
    assert_eq!(saver.len(), 3);
}

#[test]
fn update_state_uses_each_logos_own_draw() {
    let vp = viewport(100, 100);
    let draws = vec![draw(0, 0, 0, 0), draw(0, 0, 0, 0)];
    let mut saver = ScreenSaver::new(vp, 50000, &draws);
    let respawn = vec![draw(0, 0, 0, 0), draw(u32::MAX, u32::MAX, 1 << 31, 1 << 31)];
    saver.update_state(vp, 1000, &respawn);
    // both start at (25000, 25000) and fly off; each respawns from its own draw
    assert_eq!(saver.logo(0).position(), Coords2d(25000, 25000));
    assert_eq!(saver.logo(1).position(), Coords2d(50000, 50000));
    assert_eq!(saver.logo(1).color(), Color::Blue);
    assert_eq!(saver.last_tick_time(), 0);
}

#[test]
fn empty_screensaver_still_ticks() {
    let vp = viewport(10, 10);
    let mut saver = ScreenSaver::new(vp, 1000, &Vec::new());
    assert_eq!(saver.len(), 0);
    assert!(saver.advance_world(16, vp, &Vec::new()));
    assert_eq!(saver.last_tick_time(), 16);
}
