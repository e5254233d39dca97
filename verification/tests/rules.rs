use astro_strike::boss::{block_x, boss_defeated, boss_y, cell_lit, BeamAction, BossDefeat, BossFire, BossState};
use astro_strike::combat::{return_to_title, GameProgress, JingleLatch, MAX_HEALTH};
use astro_strike::common::{level_bottom_y, level_chunk_bottom_y, level_chunk_top_y};
use astro_strike::level::{start_new_game, Level};
use astro_strike::menu::SelectedFighter;
use astro_strike::pickup::{collect, PickupKind};
use astro_strike::player::Weapon;
use astro_strike::recolor::PaletteColor;
use astro_strike::state::{live, playing, Phase};

#[test]
fn phase_gates() {
    assert!(!playing(Phase::Title));
    assert!(playing(Phase::Intro));
    assert!(playing(Phase::Dialogue));
    assert!(live(Phase::Combat, false));
    assert!(!live(Phase::Combat, true));
    assert!(!live(Phase::Title, false));
}

#[test]
fn fresh_progress_is_full_health() {
    let p = GameProgress::default();
    assert_eq!(p, GameProgress { score: 0, health: 13, game_over: false });
}

#[test]
fn thirteen_hits_end_the_game() {
    let mut p = GameProgress::default();
    for _ in 0..12 {
        p.damage();
    }
    assert_eq!(p.health, 1);
    assert!(!p.game_over);
    p.damage();
    assert_eq!(p.health, 0);
    assert!(p.game_over);
    p.damage();
    assert_eq!(p, GameProgress { score: 0, health: 0, game_over: true });
}

#[test]
fn refill_clears_game_over_keeps_score() {
    let mut p = GameProgress { score: 700, health: 0, game_over: true };
    p.refill();
    assert_eq!(p, GameProgress { score: 700, health: MAX_HEALTH, game_over: false });
}

#[test]
fn kill_awards_reward() {
    let mut p = GameProgress::default();
    p.award_kill();
    p.award_kill();
    assert_eq!(p.score, 200);
}

#[test]
fn level_bands_in_world_pixels() {
    assert_eq!(level_bottom_y(0), -8320);
    assert_eq!(level_chunk_bottom_y(0), -6272);
    assert_eq!(level_chunk_top_y(0), -4992);
    assert_eq!(level_bottom_y(1), -4992);
    assert_eq!(level_chunk_top_y(4), 8320);
    assert_eq!(boss_y(0), -5062);
}

#[test]
fn difficulty_table() {
    let sizes: Vec<u32> = (1..=5).map(|l| Level(l).difficulty().ufo_swarm_size).collect();
    let healths: Vec<u32> = (1..=5).map(|l| Level(l).difficulty().boss_health).collect();
    assert_eq!(sizes, vec![5, 6, 7, 7, 8]);
    assert_eq!(healths, vec![40, 48, 55, 63, 70]);
    assert_eq!(Level(0).difficulty().boss_health, 40);
    assert_eq!(Level::default(), Level(1));
}

#[test]
fn new_game_resets() {
    let mut level = Level(4);
    let mut p = GameProgress { score: 900, health: 3, game_over: false };
    let mut w = Weapon::Triple;
    start_new_game(&mut level, &mut p, &mut w);
    assert_eq!(level, Level(1));
    assert_eq!(p, GameProgress { score: 0, health: 3, game_over: false });
    assert_eq!(w, Weapon::Single);
}

#[test]
fn boss_fight_health() {
    let mut b = BossState::for_level(&Level(2));
    assert_eq!(b, BossState { awakened: false, health: 48, max_health: 48 });
    assert!(!b.vulnerable());
    assert!(!b.bomb());
    assert_eq!(b.health, 48);
    b.awaken();
    assert!(b.vulnerable());
    assert!(b.bomb());
    assert_eq!(b.health, 47);
    b.chip();
    assert_eq!(b.health, 46);
    let mut dead = BossState { awakened: true, health: 0, max_health: 40 };
    dead.chip();
    assert_eq!(dead.health, 0);
    assert!(dead.defeated());
    assert!(!dead.vulnerable());
    assert_eq!(BossState::default(), BossState { awakened: false, health: 40, max_health: 40 });
}

#[test]
fn boss_health_bar_blocks() {
    let full = BossState { awakened: true, health: 40, max_health: 40 };
    assert_eq!(full.filled_cells(), 36);
    let half = BossState { awakened: true, health: 20, max_health: 40 };
    assert_eq!(half.filled_cells(), 18);
    let tie = BossState { awakened: true, health: 5, max_health: 40 };
    assert_eq!(tie.filled_cells(), 5);
    let none = BossState { awakened: true, health: 0, max_health: 0 };
    assert_eq!(none.filled_cells(), 0);
    assert!(cell_lit(4, 5));
    assert!(!cell_lit(5, 5));
    assert_eq!(block_x(0), 15);
    assert_eq!(block_x(35), 155);
}

#[test]
fn boss_defeat_advances_or_ends() {
    let mut level = Level(3);
    assert_eq!(boss_defeated(&mut level), BossDefeat::NextLevel);
    assert_eq!(level, Level(4));
    let mut last = Level(5);
    assert_eq!(boss_defeated(&mut last), BossDefeat::FinalVictory);
    assert_eq!(last, Level(5));
}

#[test]
fn beam_rhythm_alternates() {
    let mut f = BossFire { firing: false };
    assert_eq!(f.on_timer_finished(), BeamAction::StartBurst);
    assert!(f.firing);
    assert_eq!(f.on_timer_finished(), BeamAction::StopAndRest);
    assert!(!f.firing);
}

#[test]
fn weapon_upgrades() {
    assert_eq!(Weapon::Single.upgrade(), Weapon::Double);
    assert_eq!(Weapon::Double.upgrade(), Weapon::Triple);
    assert_eq!(Weapon::Triple.upgrade(), Weapon::Triple);
    assert_eq!(Weapon::Double.volley_size(), 2);
}

#[test]
fn pickups_apply() {
    let mut p = GameProgress { score: 0, health: 11, game_over: false };
    let mut w = Weapon::Single;
    assert!(collect(PickupKind::Repair, &mut p, &mut w, 0));
    assert_eq!(p.health, 13);
    p.health = 2;
    assert!(collect(PickupKind::Repair, &mut p, &mut w, 0));
    assert_eq!(p.health, 6);
    assert!(collect(PickupKind::Weapon, &mut p, &mut w, 0));
    assert_eq!(w, Weapon::Double);
    assert!(collect(PickupKind::Weapon, &mut p, &mut w, 0));
    assert_eq!(w, Weapon::Triple);
    assert!(collect(PickupKind::Weapon, &mut p, &mut w, 0));
    assert_eq!(w, Weapon::Triple);
    assert!(collect(PickupKind::Bomb, &mut p, &mut w, 3));
    assert_eq!(p.score, 300);
    let before = p;
    assert!(collect(PickupKind::Invincible, &mut p, &mut w, 5));
    assert_eq!(p, before);
    assert_eq!(w, Weapon::Triple);
}

#[test]
fn nothing_is_collected_after_game_over() {
    let mut p = GameProgress { score: 700, health: 0, game_over: true };
    let mut w = Weapon::Single;
    let before = p;
    for kind in PickupKind::all() {
        assert!(!collect(kind, &mut p, &mut w, 4));
        assert_eq!(p, before);
        assert_eq!(w, Weapon::Single);
    }
}

#[test]
fn pickup_frames_and_kinds() {
    let all = PickupKind::all();
    assert_eq!(all[3], PickupKind::Bomb);
    let f = PickupKind::Weapon.frame();
    assert_eq!((f.min_x, f.min_y, f.max_x, f.max_y), (32, 0, 48, 16));
    assert_eq!(PickupKind::from_index(1), PickupKind::Repair);
    for _ in 0..50 {
        assert!(PickupKind::random().index() < 4);
    }
}

#[test]
fn default_fighter_is_blue() {
    assert_eq!(SelectedFighter::default(), SelectedFighter(PaletteColor::Blue));
}

#[test]
fn jingle_plays_once_per_game_over() {
    let mut latch = JingleLatch { played: false };
    assert!(!latch.update(false));
    assert!(latch.update(true));
    assert!(!latch.update(true));
    assert!(!latch.update(false));
    assert!(latch.update(true));
    assert!(return_to_title(true, true));
    assert!(!return_to_title(false, true));
    assert!(!return_to_title(true, false));
}
