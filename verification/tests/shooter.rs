use jam2026::shooter::round::tick_timer;
use jam2026::shooter::screen::cursor_offset;
use jam2026::shooter::sid;
use jam2026::shooter::anim::Anim;
use jam2026::shooter::clock::{FrameClock, MAX_FRAME_NS, TICK_NS};
use jam2026::shooter::color::{from_rgb, AseColor, Palette};
use jam2026::shooter::db32;
use jam2026::shooter::gfx::{blit, Frame, IVec2, GAME_H, GAME_W};
use jam2026::shooter::input::{bind_key, has_action, player_direction, set_action, Action, KeyCode};
use jam2026::shooter::jam;
use jam2026::shooter::rng::{Rng, DEFAULT_SEED};
use jam2026::shooter::round::{
    banner, centered_text_pos, exhaust_color, tail_color, Cooldown, Health, Round, RoundTick, State,
    DONE_HOLD, FIRE_COOLDOWN,
};
use jam2026::shooter::screen::present_scaled;
use jam2026::shooter::sprite::Sprite;
use std::rc::Rc;

const FRAME_LEN: usize = (GAME_W * GAME_H) as usize;

#[test]
fn rng_sequence_from_seed_one() {
    let mut r = Rng::new(1);
    assert_eq!(r.next(), 67634689);
    assert_eq!(r.next(), 2647435461);
}

#[test]
fn rng_zero_seed_behaves_like_one() {
    let mut a = Rng::new(0);
    let mut b = Rng::new(1);
    for _ in 0..10 {
        assert_eq!(a.next(), b.next());
    }
}

#[test]
fn rng_same_seed_same_numbers() {
    let mut a = Rng::new(12345);
    let mut b = Rng::new(12345);
    for _ in 0..100 {
        let x = a.next();
        assert_eq!(x, b.next());
        assert_ne!(x, 0);
    }
}

#[test]
fn rng_range_is_below_bound() {
    let mut r = Rng::new(42);
    assert_eq!(r.range(10), 8);
    for n in 1..50u32 {
        assert!(r.range(n) < n);
    }
}

#[test]
fn rng_default_seed_is_clnk() {
    assert_eq!(u32::from_be_bytes(*b"CLNK"), DEFAULT_SEED);
    let mut d = Rng::default();
    assert_eq!(d.next(), 4064917053);
}

#[test]
fn from_rgb_packs_channels() {
    assert_eq!(from_rgb(0x12, 0x34, 0x56), 0x123456);
    assert_eq!(from_rgb(255, 255, 255), 0xFFFFFF);
    assert_eq!(from_rgb(0, 0, 0), 0);
    let c = from_rgb(200, 10, 3);
    assert_eq!(((c >> 16) as u8, (c >> 8) as u8, c as u8), (200, 10, 3));
}

#[test]
fn palette_from_ase_fills_then_zeroes() {
    let src = [
        AseColor { r: 1, g: 2, b: 3 },
        AseColor { r: 255, g: 0, b: 0 },
    ];
    let p = Palette::from_ase(&src);
    assert_eq!(p.at(0), 0x010203);
    assert_eq!(p.at(1), 0xFF0000);
    assert_eq!(p.at(2), 0);
    assert_eq!(p.at(255), 0);
    assert_eq!(Palette::default().at(7), 0);
}

#[test]
fn palette_from_ase_ignores_extra_colours() {
    let src = vec![AseColor { r: 0, g: 0, b: 9 }; 300];
    let p = Palette::from_ase(&src);
    assert_eq!(p.at(255), 9);
}

fn test_palette() -> Palette {
    let mut colors = Vec::new();
    for i in 0..256u32 {
        colors.push(AseColor { r: 0, g: 0, b: i as u8 });
    }
    Palette::from_ase(&colors)
}

#[test]
fn blit_draws_opaque_pixels_only() {
    let pal = test_palette();
    let mut frame = vec![7u32; FRAME_LEN];
    blit(&mut frame, &pal, &[1, 0, 2, 3], IVec2::new(0, 0), 2, 0);
    assert_eq!(frame[0], 1);
    assert_eq!(frame[1], 7);
    assert_eq!(frame[240], 2);
    assert_eq!(frame[241], 3);
    assert_eq!(frame[2], 7);
}

#[test]
fn blit_tint_replaces_colours() {
    let pal = test_palette();
    let mut frame = vec![0u32; FRAME_LEN];
    blit(&mut frame, &pal, &[1, 0, 2, 3], IVec2::new(10, 5), 2, db32::LIGHT_RED);
    let base = 5 * 240 + 10;
    assert_eq!(frame[base], db32::LIGHT_RED as u32);
    assert_eq!(frame[base + 1], 0);
    assert_eq!(frame[base + 240], db32::LIGHT_RED as u32);
    assert_eq!(frame[base + 241], db32::LIGHT_RED as u32);
}

#[test]
fn blit_clips_off_screen_pixels() {
    let pal = test_palette();
    let mut frame = vec![0u32; FRAME_LEN];
    blit(&mut frame, &pal, &[1, 2, 3, 4], IVec2::new(-1, -1), 2, 0);
    assert_eq!(frame[0], 4);
    assert_eq!(frame.iter().filter(|&&c| c != 0).count(), 1);
    let mut frame = vec![0u32; FRAME_LEN];
    blit(&mut frame, &pal, &[5, 6], IVec2::new(239, 159), 2, 0);
    assert_eq!(frame[FRAME_LEN - 1], 5);
    assert_eq!(frame.iter().filter(|&&c| c != 0).count(), 1);
}

#[test]
fn blit_negative_width_walks_rows_upward() {
    let pal = test_palette();
    let mut frame = vec![0u32; FRAME_LEN];
    blit(&mut frame, &pal, &[1, 2, 3, 4], IVec2::new(3, 3), -2, 0);
    assert_eq!(frame[3 * 240 + 3], 1);
    assert_eq!(frame[3 * 240 + 4], 2);
    assert_eq!(frame[2 * 240 + 3], 3);
    assert_eq!(frame[2 * 240 + 4], 4);
}

#[test]
fn frame_plot_sets_pixel_on_screen() {
    let mut v = vec![0u32; FRAME_LEN];
    let mut f = Frame(&mut v);
    f.plot(1, 0, 0x12, 0x34, 0x56);
    f.plot(-1, 0, 1, 1, 1);
    f.plot(240, 0, 1, 1, 1);
    f.plot(0, 160, 1, 1, 1);
    assert_eq!(v[1], 0x123456);
    assert_eq!(v.iter().filter(|&&c| c != 0).count(), 1);
}

#[test]
fn sprite_draws_at_and_tinted() {
    let pal = test_palette();
    let s = Sprite::new(3, 1, vec![9, 0, 8]);
    assert_eq!(s.size, IVec2::new(3, 1));
    let mut frame = vec![0u32; FRAME_LEN];
    s.draw_at(&mut frame, &pal, IVec2::new(100, 50));
    assert_eq!(frame[50 * 240 + 100], 9);
    assert_eq!(frame[50 * 240 + 101], 0);
    assert_eq!(frame[50 * 240 + 102], 8);
    s.draw_tinted(&mut frame, &pal, IVec2::new(100, 50), 2);
    assert_eq!(frame[50 * 240 + 100], 2);
    assert_eq!(frame[50 * 240 + 102], 2);
}

#[test]
fn anim_runs_six_ticks_per_frame() {
    let frames = Rc::new(vec![Sprite::new(1, 1, vec![1]), Sprite::new(2, 1, vec![2, 2])]);
    let mut a = Anim::new(frames.clone(), glam::Vec2::new(3.0, 4.0));
    assert_eq!(a.center(), glam::Vec2::new(3.0, 4.0));
    for t in 0..12 {
        assert!(!a.done());
        let f = a.current_frame().expect("a frame");
        let expected = if t < 6 { &frames[0] } else { &frames[1] };
        assert!(std::ptr::eq(f, expected));
        a.update();
    }
    assert!(a.done());
    assert!(a.current_frame().is_none());
}

#[test]
fn key_bindings() {
    assert_eq!(bind_key(KeyCode::KeyW), Some(Action::Up));
    assert_eq!(bind_key(KeyCode::ArrowUp), Some(Action::Up));
    assert_eq!(bind_key(KeyCode::KeyS), Some(Action::Down));
    assert_eq!(bind_key(KeyCode::ArrowLeft), Some(Action::Left));
    assert_eq!(bind_key(KeyCode::KeyD), Some(Action::Right));
    assert_eq!(bind_key(KeyCode::Space), Some(Action::Fire));
    assert_eq!(bind_key(KeyCode::Other), None);
}

#[test]
fn press_and_release_touch_one_bit() {
    let mut input = 0u32;
    input = set_action(input, Action::Fire, true);
    assert_eq!(input, 1 << 4);
    assert!(has_action(input, Action::Fire));
    input = set_action(input, Action::Up, true);
    assert!(has_action(input, Action::Up));
    assert!(!has_action(input, Action::Down));
    input = set_action(input, Action::Fire, false);
    assert!(!has_action(input, Action::Fire));
    assert!(has_action(input, Action::Up));
    assert_eq!(input, 1);
}

#[test]
fn held_directions_add_up() {
    let mut input = 0u32;
    assert_eq!(player_direction(input), IVec2::new(0, 0));
    input = set_action(input, Action::Up, true);
    input = set_action(input, Action::Right, true);
    assert_eq!(player_direction(input), IVec2::new(1, -1));
    input = set_action(input, Action::Left, true);
    assert_eq!(player_direction(input), IVec2::new(0, -1));
    input = set_action(input, Action::Down, true);
    assert_eq!(player_direction(input), IVec2::new(0, 0));
}

#[test]
fn jam_hooks_outside_the_browser() {
    assert!(jam::should_start());
    jam::started("Shoot!");
    jam::done(true);
}

#[test]
fn round_starts_only_when_waiting_and_ready() {
    let mut r = Round::new();
    assert!(!r.start(false));
    assert_eq!(r.state, State::Waiting);
    assert!(r.start(true));
    assert_eq!(r.state, State::Playing);
    assert!(!r.start(true));
    assert_eq!(r.state, State::Playing);
    assert_eq!(State::default(), State::Waiting);
}

#[test]
fn won_round_reports_after_hold() {
    let mut r = Round::new();
    r.start(true);
    let t = r.finish_step(false, false);
    assert_eq!(t, RoundTick { win_anim: None, done: None });
    let t = r.finish_step(false, true);
    assert_eq!(r.state, State::Win);
    assert_eq!(t.win_anim, Some(0));
    assert_eq!(r.done_timer, DONE_HOLD - 1);
    let mut reported = None;
    for _ in 1..DONE_HOLD {
        let t = r.finish_step(false, true);
        if t.done.is_some() {
            reported = t.done;
        }
    }
    assert_eq!(reported, Some(true));
    assert_eq!(r.done_timer, 0);
    assert_eq!(r.finish_step(false, true).done, None);
}

#[test]
fn hit_player_loses_even_with_no_enemies() {
    let mut r = Round::new();
    r.start(true);
    let t = r.finish_step(true, true);
    assert_eq!(r.state, State::GameOver);
    assert_eq!(t.win_anim, None);
    let mut last = None;
    for _ in 1..DONE_HOLD {
        last = r.finish_step(true, true).done.or(last);
    }
    assert_eq!(last, Some(false));
}

#[test]
fn enemy_health_and_flash() {
    let mut h = Health::new(2);
    assert!(!h.damage());
    assert_eq!(h.flash, 12);
    assert_eq!(h.tint(0), db32::LIGHT_RED);
    assert_eq!(h.tint(2), 0);
    assert!(h.damage());
    assert!(h.damage());
    assert_eq!(h.hp, 0);
    for _ in 0..20 {
        h.tick();
    }
    assert_eq!(h.flash, 0);
    assert_eq!(h.tint(0), 0);
}

#[test]
fn cooldown_spaces_shots() {
    let mut c = Cooldown::default();
    assert!(c.try_fire());
    assert_eq!(c.ticks, FIRE_COOLDOWN);
    assert!(!c.try_fire());
    for _ in 0..FIRE_COOLDOWN {
        c.tick();
    }
    assert!(c.try_fire());
}

#[test]
fn flame_tail_and_banner_colours() {
    assert_eq!(exhaust_color(0), db32::ORANGE);
    assert_eq!(exhaust_color(4), db32::YELLOW);
    assert_eq!(exhaust_color(8), db32::ORANGE);
    assert_eq!(tail_color(0, 0), db32::PURPLE);
    assert_eq!(tail_color(0, 1), db32::PINK);
    assert_eq!(tail_color(4, 0), db32::PINK);
    assert_eq!(banner(State::Win, 0), Some(("YOU WIN", db32::LIME)));
    assert_eq!(banner(State::Win, 8), Some(("YOU WIN", db32::WHITE)));
    assert_eq!(banner(State::Win, 32), Some(("YOU WIN", db32::LIME)));
    assert_eq!(banner(State::GameOver, 8), Some(("GAME OVER", db32::LIGHT_RED)));
    assert_eq!(banner(State::Playing, 8), None);
}

#[test]
fn centred_text_positions() {
    assert_eq!(centered_text_pos(7, 10, 70), IVec2::new(85, 70));
    assert_eq!(centered_text_pos(9, 10, 70), IVec2::new(75, 70));
    assert_eq!(centered_text_pos(25, 10, 0), IVec2::new(-5, 0));
    assert_eq!(centered_text_pos(0, 10, 0), IVec2::new(120, 0));
}

#[test]
fn present_scales_and_centres() {
    let mut frame = vec![0u32; FRAME_LEN];
    frame[0] = 11;
    frame[1] = 22;
    frame[240] = 33;
    let mut buf = vec![5u32; 500 * 320];
    assert!(present_scaled(&frame, &mut buf, 500, 320));
    assert_eq!(buf[0], 0);
    assert_eq!(buf[9], 0);
    assert_eq!(buf[10], 11);
    assert_eq!(buf[11], 11);
    assert_eq!(buf[12], 22);
    assert_eq!(buf[500 + 10], 11);
    assert_eq!(buf[2 * 500 + 10], 33);
    assert_eq!(buf[499], 0);
}

#[test]
fn present_refuses_small_window_or_wrong_buffer() {
    let frame = vec![1u32; FRAME_LEN];
    let mut buf = vec![5u32; 100];
    assert!(!present_scaled(&frame, &mut buf, 239, 400));
    assert!(!present_scaled(&frame, &mut buf, 240, 160));
    assert_eq!(buf, vec![5u32; 100]);
    let mut exact = vec![5u32; FRAME_LEN];
    assert!(present_scaled(&frame, &mut exact, 240, 160));
    assert!(exact.iter().all(|&c| c == 1));
}

#[test]
fn sid_register_writes() {
    assert_eq!(sid::gate_off(2, sid::NOISE), (18, 0x80));
    assert_eq!(sid::gate_on(1, sid::TRIANGLE), [(11, 0x10), (11, 0x11)]);
    assert_eq!(sid::set_envelope(2, 0x08, 0xA9), [(19, 0x08), (20, 0xA9)]);
    assert_eq!(sid::set_freq(0, 0x1234), [(0, 0x34), (1, 0x12)]);
    assert_eq!(sid::set_pulse_width(1, 0x0800), [(9, 0x00), (10, 0x08)]);
    assert_eq!(sid::set_volume(0x0F), (0x18, 0x0F));
}

#[test]
fn periodic_timer_fires_on_period() {
    let mut t = 0;
    let mut fired = 0;
    for _ in 0..90 {
        let (n, f) = tick_timer(t, 45);
        t = n;
        if f {
            fired += 1;
        }
    }
    assert_eq!(fired, 2);
    assert_eq!(t, 0);
    assert_eq!(tick_timer(0, 0), (0, true));
}

#[test]
fn cursor_relative_to_scaled_frame() {
    assert_eq!(cursor_offset(10, 20, 500, 320), Some((0, 20, 2)));
    assert_eq!(cursor_offset(5, 5, 100, 100), None);
    assert_eq!(cursor_offset(0, 0, 960, 800), Some((0, -80, 4)));
}

#[test]
fn sound_countdowns() {
    let mut c = sid::Countdowns::new();
    c.start(sid::Sound::Hit);
    assert_eq!(c.hit, 45);
    for k in 1..=45 {
        let cues = c.block();
        assert_eq!(cues.hit_release, k == 45);
    }
    assert_eq!(c.hit, 0);
    assert!(!c.block().hit_release);

    c.start(sid::Sound::Hit);
    c.block();
    c.start(sid::Sound::Explosion);
    assert_eq!(c.hit, 0);
    assert!(!c.block().hit_release);

    c.start(sid::Sound::Win);
    c.start(sid::Sound::Lose);
    let mut notes = Vec::new();
    for k in 1..=300 {
        let cues = c.block();
        if let Some(n) = cues.win_note {
            notes.push((k, n));
        }
        assert_eq!(cues.win_release, k == 300);
        assert_eq!(cues.lose_release, k == 300);
        assert!(cues.lose_step);
    }
    assert_eq!(notes, vec![(55, 2), (110, 3)]);
    let idle = c.block();
    assert!(!idle.lose_step && !idle.win_release && idle.win_note.is_none());

    c.start(sid::Sound::Shoot);
    c.start(sid::Sound::EnemyShoot);
    assert_eq!(c, sid::Countdowns::new());
}

#[test]
fn frame_clock_runs_whole_ticks() {
    let mut c = FrameClock::new();
    assert_eq!(c.advance(None), 0);
    assert_eq!(c.accumulated_ns(), 0);
    assert_eq!(c.advance(Some(10_000_000)), 0);
    assert_eq!(c.accumulated_ns(), 10_000_000);
    assert_eq!(c.advance(Some(10_000_000)), 1);
    assert_eq!(c.accumulated_ns(), 20_000_000 - TICK_NS);
    let mut c = FrameClock::new();
    assert_eq!(c.advance(Some(5_000_000_000)), MAX_FRAME_NS / TICK_NS);
    assert_eq!(c.advance(Some(MAX_FRAME_NS)), 6);
    assert_eq!(c.accumulated_ns(), (2 * MAX_FRAME_NS) % TICK_NS);
}

#[test]
fn blit_of_transparent_pixels_needs_no_width() {
    let p = Palette::default();
    let mut frame = vec![5u32; (GAME_W * GAME_H) as usize];
    blit(&mut frame, &p, &[0, 0, 0], IVec2::new(3, 3), 0, 0);
    assert!(frame.iter().all(|&c| c == 5));
}
