use rand::{RngCore, SeedableRng};
use jam2026::greens::events::{classify_event, StateEvent};
use jam2026::greens::color::{ColorExt, EntityColor, Texture};
use jam2026::greens::computer::{ComputerPhase, ComputerState, PowerButtonAction};
use jam2026::greens::constants::{title_score_goal, NB_GREENS};
use jam2026::greens::disquette::DisquettePhase;
use jam2026::greens::errors::ClickOutcome;
use jam2026::greens::message::Message;
use jam2026::greens::ops::{press_action, press_power_button, receive_op, OpReply, PressAction};
use jam2026::greens::os::{Os, OsState};
use jam2026::greens::random::RandomState;
use jam2026::greens::state::{
    annihilate, collision_effect, required_greens, wipe_greens, ClickedEntity, CollisionEffect,
    GamePhase, RoundResult, RoundStatus,
};

#[test]
fn color_indices_and_textures() {
    assert_eq!(EntityColor::Red.index(), 0);
    assert_eq!(EntityColor::Green.index(), 1);
    assert_eq!(EntityColor::Bleu.index(), 2);
    assert_eq!(EntityColor::Yellow.index(), 3);
    assert_eq!(EntityColor::Red.texture(), Texture::Mrred);
    assert_eq!(EntityColor::Green.texture(), Texture::Mrgreen);
    assert_eq!(EntityColor::Bleu.texture(), Texture::Mrbleu);
    assert_eq!(EntityColor::Yellow.texture(), Texture::Mryellow);
}

#[test]
fn title_goal_text() {
    assert_eq!(title_score_goal(), format!("Score {} or more to win", NB_GREENS));
    assert_eq!(title_score_goal(), "Score 15 or more to win");
}

#[test]
fn phase_names() {
    assert_eq!(GamePhase::Waiting.phase(), "waiting");
    assert_eq!(GamePhase::Playing.phase(), "playing");
    assert_eq!(GamePhase::Computer(ComputerPhase::On).phase(), "computer");
    assert_eq!(GamePhase::Finished.phase(), "finished");
}

#[test]
fn round_result_conversions() {
    let ok: &'static str = RoundResult::Okay.into();
    let ko: &'static str = RoundResult::Ko.into();
    assert_eq!((ok, ko), ("Ok", "Ko"));
    let won: bool = RoundResult::Okay.into();
    let lost: bool = RoundResult::Ko.into();
    assert!(won && !lost);
}

#[test]
fn phase_and_button_names() {
    let names: Vec<&'static str> = vec![
        ComputerPhase::Off.into(),
        ComputerPhase::Booting.into(),
        ComputerPhase::On.into(),
        ComputerPhase::ShutDown.into(),
    ];
    assert_eq!(names, vec!["Off", "Booting", "On", "ShutDown"]);
    let on: &'static str = PowerButtonAction::On.into();
    let off: &'static str = PowerButtonAction::Off.into();
    assert_eq!((on, off), ("On", "Off"));
    let free: &'static str = DisquettePhase::Free.into();
    let inserted: &'static str = DisquettePhase::Inserted.into();
    assert_eq!((free, inserted), ("Free", "Inserted"));
    assert!(DisquettePhase::Inserted.is_inserted());
    assert!(!DisquettePhase::Free.is_inserted());
}

#[test]
fn os_state_round_trips() {
    for p in [ComputerPhase::Off, ComputerPhase::Booting, ComputerPhase::On, ComputerPhase::ShutDown] {
        let s = OsState::from(p);
        assert_eq!(ComputerPhase::from(s), p);
    }
    assert_eq!(OsState::from(ComputerPhase::Booting), OsState::Booting);
    assert_eq!(Os::new(), Os::from(ComputerPhase::Off));
    assert_eq!(Os::default(), Os::new());
    let mut os = Os::new();
    os.set(ComputerPhase::On);
    assert_eq!(os, Os::from(ComputerPhase::On));
    os.os_play();
    Os::os_quit();
}

#[test]
fn score_changes_only_while_playing() {
    let mut r = RoundStatus::new();
    r.change_score(3);
    assert_eq!(r.consumer_score(), 0);
    r.start_round();
    r.change_score(3);
    r.change_score(-1);
    assert_eq!(r.consumer_score(), 2);
    r.change_score(i32::MAX);
    assert_eq!(r.consumer_score(), i32::MAX);
    r.set_phase(GamePhase::Finished);
    r.change_score(-5);
    assert_eq!(r.consumer_score(), i32::MAX);
}

#[test]
fn score_saturates_downward() {
    let mut r = RoundStatus::new();
    r.start_round();
    r.change_score(i32::MIN);
    r.change_score(-1);
    assert_eq!(r.consumer_score(), i32::MIN);
}

#[test]
fn round_judged_against_required_score() {
    let mut r = RoundStatus::new();
    r.start_round();
    for _ in 0..5 {
        r.change_score(1);
    }
    assert_eq!(r.round_result(5), RoundResult::Okay);
    assert_eq!(r.round_result(6), RoundResult::Ko);
    assert_eq!(required_greens(15), 15);
    assert_eq!(required_greens(3), 5);
    assert_eq!(required_greens(5), 5);
}

#[test]
fn clicks_eat_and_score() {
    let mut r = RoundStatus::new();
    let green = ClickedEntity { color: EntityColor::Green, rogue_hover: None };
    assert_eq!(r.click_at(Some(green)), None);
    r.start_round();
    assert_eq!(r.click_at(None), Some(ClickOutcome::Miss));
    assert_eq!(r.click_at(Some(green)), Some(ClickOutcome::Hit(EntityColor::Green)));
    assert_eq!(r.consumer_score(), 1);
    let rogue = ClickedEntity { color: EntityColor::Green, rogue_hover: Some(EntityColor::Red) };
    assert_eq!(r.click_at(Some(rogue)), Some(ClickOutcome::Hit(EntityColor::Red)));
    assert_eq!(r.consumer_score(), 0);
    let yellow = ClickedEntity { color: EntityColor::Yellow, rogue_hover: Some(EntityColor::Green) };
    assert_eq!(r.click_at(Some(yellow)), Some(ClickOutcome::Hit(EntityColor::Yellow)));
    assert_eq!(r.consumer_score(), -1);
    let bleu = ClickedEntity { color: EntityColor::Bleu, rogue_hover: None };
    assert_eq!(r.click_at(Some(bleu)), Some(ClickOutcome::Hit(EntityColor::Bleu)));
    assert_eq!(r.consumer_score(), -2);
}

#[test]
fn collisions_by_colour() {
    assert_eq!(
        collision_effect(EntityColor::Green, EntityColor::Green, 4),
        CollisionEffect::Mutate { first: EntityColor::Yellow, second: EntityColor::Red }
    );
    assert_eq!(
        collision_effect(EntityColor::Green, EntityColor::Green, 7),
        CollisionEffect::Mutate { first: EntityColor::Red, second: EntityColor::Yellow }
    );
    assert_eq!(collision_effect(EntityColor::Red, EntityColor::Red, 0), CollisionEffect::Annihilate);
    assert_eq!(collision_effect(EntityColor::Red, EntityColor::Green, 0), CollisionEffect::Accelerate);
    assert_eq!(collision_effect(EntityColor::Bleu, EntityColor::Bleu, 1), CollisionEffect::Accelerate);
}

#[test]
fn computer_power_cycle() {
    let mut c = ComputerState::new();
    assert!(!c.already_used());
    c.boot();
    assert_eq!(c.phase, ComputerPhase::Booting);
    assert!(c.already_used());
    c.on();
    assert_eq!(c.phase, ComputerPhase::On);
    assert_eq!(c.os, Os::from(ComputerPhase::On));
    c.shutdown();
    assert_eq!(c.phase, ComputerPhase::Off);
    assert_eq!(c.os, Os::from(ComputerPhase::Off));
}

#[test]
fn embedded_start_and_computer_ops() {
    let mut r = RoundStatus::new();
    let mut c = ComputerState::new();
    assert_eq!(receive_op(&mut r, &mut c, false, "start"), OpReply::Unexpected);
    assert_eq!(r.phase(), GamePhase::Waiting);
    assert_eq!(receive_op(&mut r, &mut c, true, "begin"), OpReply::Unexpected);
    assert_eq!(receive_op(&mut r, &mut c, true, "start"), OpReply::Started);
    assert_eq!(r.phase(), GamePhase::Playing);
    assert_eq!(receive_op(&mut r, &mut c, true, "start"), OpReply::Unexpected);
    r.change_score(4);
    assert!(!press_power_button(&mut r, &mut c, false, Some(PowerButtonAction::On)));
    assert!(!press_power_button(&mut r, &mut c, true, Some(PowerButtonAction::Off)));
    assert!(!press_power_button(&mut r, &mut c, true, None));
    assert!(press_power_button(&mut r, &mut c, true, Some(PowerButtonAction::On)));
    assert_eq!(r.phase(), GamePhase::Computer(ComputerPhase::Booting));
    assert_eq!(receive_op(&mut r, &mut c, true, "shutdown"), OpReply::Unexpected);
    assert_eq!(receive_op(&mut r, &mut c, true, "video_finished"), OpReply::BootFinished);
    assert_eq!(c.phase, ComputerPhase::On);
    assert_eq!(receive_op(&mut r, &mut c, true, "computing"), OpReply::Computing);
    assert_eq!(receive_op(&mut r, &mut c, true, "shutdown"), OpReply::ShutDown);
    assert_eq!(r.phase(), GamePhase::Playing);
    assert_eq!(c.phase, ComputerPhase::Off);
    assert_eq!(r.consumer_score(), 4);
    r.set_phase(GamePhase::Finished);
    assert_eq!(receive_op(&mut r, &mut c, true, "start"), OpReply::Started);
    assert_eq!(r.consumer_score(), 0);
}

#[test]
fn click_actions_by_phase() {
    assert_eq!(press_action(GamePhase::Playing, true, true, false), PressAction::ToggleMute);
    assert_eq!(press_action(GamePhase::Waiting, false, false, true), PressAction::StartRound);
    assert_eq!(press_action(GamePhase::Waiting, false, false, false), PressAction::Ignore);
    assert_eq!(press_action(GamePhase::Playing, false, false, true), PressAction::Click);
    assert_eq!(press_action(GamePhase::Finished, false, false, false), PressAction::StartRound);
    assert_eq!(press_action(GamePhase::Finished, true, false, false), PressAction::Ignore);
    assert_eq!(
        press_action(GamePhase::Computer(ComputerPhase::Booting), false, false, true),
        PressAction::Ignore
    );
}

#[test]
fn message_fields() {
    let m = Message { op: "ready", verb: None, win: None, score: None, video_url: None };
    assert_eq!(m.op, "ready");
    assert!(m.verb.is_none() && m.win.is_none() && m.score.is_none() && m.video_url.is_none());
}

#[test]
fn seeded_random_state_repeats() {
    let mut a = RandomState::new(0x67676767);
    let mut b = RandomState::new(0x67676767);
    for _ in 0..10 {
        assert_eq!(a.next_u32(), b.next_u32());
    }
    let mut c = RandomState::new(1);
    let xs: Vec<u32> = (0..4).map(|_| c.next_u32()).collect();
    let ys: Vec<u32> = (0..4).map(|_| a.next_u32()).collect();
    assert_ne!(xs, ys);
}

#[test]
fn random_state_follows_the_chacha8_stream() {
    let mut reference = rand_chacha::ChaCha8Rng::seed_from_u64(5);
    let mut s = RandomState::new(5);
    assert_eq!(s.seed, 5);
    assert_eq!(s.word_pos, 0);
    for i in 0..40u128 {
        assert_eq!(s.word_pos, i);
        assert_eq!(s.next_u32(), reference.next_u32());
    }
    let mut later = RandomState { seed: 5, word_pos: 17 };
    let mut fresh = rand_chacha::ChaCha8Rng::seed_from_u64(5);
    let words: Vec<u32> = (0..18).map(|_| fresh.next_u32()).collect();
    assert_eq!(later.next_u32(), words[17]);
    assert_eq!(later.word_pos, 18);
}

#[test]
fn events_are_classified() {
    assert_eq!(classify_event("explode:1.5,2"), StateEvent::Explode("1.5,2"));
    assert_eq!(classify_event("click_red:3,4"), StateEvent::ClickRed("3,4"));
    assert_eq!(classify_event("explode:"), StateEvent::Explode(""));
    assert_eq!(classify_event("disquette_consumed"), StateEvent::DisquetteConsumed);
    assert_eq!(classify_event("disquette_consumed!"), StateEvent::Other);
    assert_eq!(classify_event("explod"), StateEvent::Other);
    assert_eq!(classify_event(""), StateEvent::Other);
}

#[test]
fn blasts_wipe_every_green() {
    let colors = [EntityColor::Green, EntityColor::Red, EntityColor::Green, EntityColor::Yellow, EntityColor::Bleu];
    let mut alive = vec![true, true, false, true, true];
    wipe_greens(&mut alive, &colors);
    assert_eq!(alive, vec![false, true, false, true, true]);

    let mut alive = vec![true, true, true, true, true, true];
    annihilate(&mut alive, &[EntityColor::Red, EntityColor::Green, EntityColor::Red, EntityColor::Yellow, EntityColor::Green, EntityColor::Bleu], 0, 2);
    assert_eq!(alive, vec![false, false, false, true, false, true]);

    let mut longer = vec![true, true, true];
    wipe_greens(&mut longer, &[EntityColor::Green]);
    assert_eq!(longer, vec![false, true, true]);
}
