use jam2026::framing::game::{
    end_game, fadeout_frame, intro_cell, intro_cue, random_sound, shout_verb, start_game,
    titlescreen_click, titlescreen_frame, verb_visible, Game, IntroCue, Lives, Mode, MrColor, Texture,
    NUM_LIVES, SOUND_NEGATIVE, SOUND_POSITIVE,
};

#[test]
fn lives_count_from_the_last_held_slot() {
    let mut lives = Lives::new();
    assert_eq!(lives.last_life(), Some(3));
    assert_eq!(lives.lives_remaining(), 4);
    lives.lose_life(10);
    assert_eq!(lives.last_life(), Some(2));
    assert_eq!(lives.lives_remaining(), 3);
    assert!(lives.is_losing(3));
    assert!(!lives.is_losing(2));
    assert_eq!(lives.loss_started(3), Some(10));
    assert_eq!(lives.loss_started(2), None);
    lives.lose_life(20);
    lives.lose_life(30);
    lives.lose_life(40);
    assert_eq!(lives.last_life(), None);
    assert_eq!(lives.lives_remaining(), 0);
    assert_eq!(lives.loss_started(0), Some(40));
    lives.lose_life(50);
    assert_eq!(lives.lives_remaining(), 0);
    assert_eq!(lives.loss_started(0), Some(40));
}

#[test]
fn intro_timing() {
    assert_eq!(intro_cue(0), IntroCue { start_music: false, finish: false });
    assert_eq!(intro_cue(215), IntroCue { start_music: true, finish: false });
    assert_eq!(intro_cue(284), IntroCue { start_music: false, finish: false });
    assert_eq!(intro_cue(285), IntroCue { start_music: false, finish: true });
    assert_eq!(intro_cue(1000).finish, true);
}

#[test]
fn sheet_frames() {
    assert_eq!(titlescreen_frame(0), 0);
    assert_eq!(titlescreen_frame(60), 1);
    assert_eq!(titlescreen_frame(120), 0);
    assert_eq!(intro_cell(0), (0, 0));
    assert_eq!(intro_cell(39), (7, 0));
    assert_eq!(intro_cell(40), (0, 1));
    assert_eq!(fadeout_frame(0), Some(2));
    assert_eq!(fadeout_frame(12), Some(4));
    assert_eq!(fadeout_frame(34), Some(7));
    assert_eq!(fadeout_frame(50), Some(7));
    assert_eq!(fadeout_frame(70), None);
}

#[test]
fn verbs_are_shouted() {
    assert_eq!(shout_verb(&Some("eat your greens!".to_string())), Some("EAT YOUR GREENS!".to_string()));
    assert_eq!(shout_verb(&Some("Shoot é".to_string())), Some("SHOOT é".to_string()));
    assert_eq!(shout_verb(&None), None);
}

#[test]
fn mascot_textures_and_sounds() {
    assert_eq!(MrColor::Green.texture(), Texture::Mrgreen);
    assert_eq!(MrColor::Blue.texture(), Texture::Mrblue);
    assert_eq!(SOUND_POSITIVE.len(), 4);
    assert_eq!(SOUND_NEGATIVE[0], "boo");
}

#[test]
fn losing_lives_from_the_end() {
    let mut lives = Lives::new();
    let mut expected = NUM_LIVES as i32;
    let mut tick = 0;
    while let Some(i) = lives.last_life() {
        assert_eq!(lives.lives_remaining(), expected);
        assert_eq!(i as i32, expected - 1);
        lives.lose_life(tick);
        tick += 1;
        expected -= 1;
    }
    assert_eq!(expected, 0);
    assert_eq!(lives.lives_remaining(), 0);
}

#[test]
fn framing_game_flow() {
    let mut g = Game::new();
    assert_eq!(g.mode, Mode::Titlescreen);
    assert_eq!(g.update(5), IntroCue { start_music: false, finish: false });
    titlescreen_click(&mut g, 100);
    assert_eq!(g.mode, Mode::Intro);
    assert_eq!(g.mode_started, 100);
    assert_eq!(g.update(200), IntroCue { start_music: false, finish: false });
    assert_eq!(g.update(315), IntroCue { start_music: true, finish: false });
    assert_eq!(g.mode, Mode::Intro);
    assert_eq!(g.update(385), IntroCue { start_music: false, finish: true });
    assert_eq!(g.mode, Mode::BetweenGames);
    assert_eq!(g.mode_started, 385);
    start_game(&mut g, 400, Some("shoot".to_string()));
    assert_eq!(g.mode, Mode::InGame);
    assert_eq!(g.verb, Some("SHOOT".to_string()));
    let won = end_game(&mut g, 500, true);
    assert_eq!(g.mode, Mode::BetweenGames);
    assert_eq!(g.mode_started, 500);
    assert_eq!(won.lives, 4);
    assert!(!won.footsteps);
    assert!(SOUND_POSITIVE.contains(&won.sound));
    start_game(&mut g, 600, None);
    assert_eq!(g.verb, None);
    let lost = end_game(&mut g, 700, false);
    assert_eq!(lost.lives, 3);
    assert!(lost.footsteps);
    assert!(SOUND_NEGATIVE.contains(&lost.sound));
    assert_eq!(g.lives.loss_started(3), Some(700));
}

#[test]
fn random_sounds_come_from_their_list() {
    for _ in 0..50 {
        assert!(SOUND_POSITIVE.contains(&random_sound(true)));
        assert!(SOUND_NEGATIVE.contains(&random_sound(false)));
    }
}

#[test]
fn verb_shows_while_fading_in() {
    assert!(!verb_visible(true, None));
    assert!(!verb_visible(true, Some(5)));
    assert!(verb_visible(true, Some(6)));
    assert!(verb_visible(true, Some(69)));
    assert!(!verb_visible(true, Some(70)));
    assert!(!verb_visible(false, Some(30)));
}
