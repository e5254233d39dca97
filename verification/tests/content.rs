use astro_strike::animation::{strip_rects, ExplosionKind, FrameCursor, FrameStep};
use astro_strike::assets::{bullet_style, color_slot, pickup_color, png_dimensions, BulletStyle};
use astro_strike::destructible::Destructible;
use astro_strike::dialogue::{
    level_intro, queue_intro, start_victory, ActiveDialogue, Conversation, DialogueStep,
    PendingBriefing, Speaker, briefing_arm_y,
};
use astro_strike::enemy::pick_ship;
use astro_strike::hud::{health_segments, segment_full, SegmentArt};
use astro_strike::pickup::PickupKind;
use astro_strike::recolor::PaletteColor;
use astro_strike::state::Phase;
use astro_strike::tilemap::{
    space_choices, destroyed_tile_id, destruction_stages, is_truck, map_layout, pick_space, tile_rect,
    SegmentKind, TilesetInfo,
};
use astro_strike::ufo::{pick_ufo, unlocked_ufo_types};
use astro_strike::common::PixelRect;

fn sheet(name: &str, columns: u32) -> TilesetInfo {
    TilesetInfo { name: name.to_string(), columns, tile_width: 16, tile_height: 16 }
}

#[test]
fn briefing_per_level() {
    assert_eq!(level_intro(1), Conversation::Briefing1);
    assert_eq!(level_intro(4), Conversation::Briefing4);
    assert_eq!(level_intro(5), Conversation::Briefing5);
    assert_eq!(level_intro(9), Conversation::Briefing5);
    let d = ActiveDialogue::briefing(1);
    assert_eq!(d.lines.len(), 8);
    assert_eq!(d.current().speaker, Speaker::Captain);
    assert_eq!(
        d.current().text,
        "Pilot, this is Captain Reyes. We've got a delicate little problem."
    );
    assert_eq!(d.on_finish, Phase::Combat);
    assert_eq!(Speaker::Warlord.name(), "WARLORD");
}

#[test]
fn dialogue_runs_to_its_finish() {
    let mut d = ActiveDialogue::boss_taunt();
    assert_eq!(d.lines.len(), 4);
    assert_eq!(d.advance(), DialogueStep::Show(1));
    assert_eq!(d.current().text, "Your reign over this sector ends today.");
    assert_eq!(d.advance(), DialogueStep::Show(2));
    assert_eq!(d.advance(), DialogueStep::Show(3));
    assert_eq!(d.advance(), DialogueStep::Finish(Phase::Combat));
    // A press past the end keeps reporting the finish.
    assert_eq!(d.index, 4);
    assert_eq!(d.advance(), DialogueStep::Finish(Phase::Combat));
    assert_eq!(d.index, 5);
    let v = start_victory();
    assert_eq!(v.on_finish, Phase::Title);
    assert_eq!(v.lines[5].text, "Setting course for home. This legend could use a nap.");
}

#[test]
fn pending_briefing_waits() {
    assert_eq!(queue_intro(true), PendingBriefing::AwaitScroll);
    let mut p = queue_intro(false);
    assert_eq!(p, PendingBriefing::AwaitKey);
    assert!(!p.poll(false, true));
    assert!(p.poll(true, false));
    let mut s = PendingBriefing::AwaitScroll;
    assert!(!s.poll(true, false));
    assert_eq!(s, PendingBriefing::AwaitScroll);
    assert!(!s.poll(true, true));
    assert_eq!(s, PendingBriefing::AwaitKey);
    assert!(s.poll(true, false));
    assert_eq!(briefing_arm_y(2), -4952);
}

#[test]
fn explosion_strips() {
    assert_eq!(ExplosionKind::default(), ExplosionKind::Standard);
    assert_eq!(ExplosionKind::Standard.frame_count(), 7);
    assert_eq!(ExplosionKind::Ufo.frame_count(), 5);
    let r = strip_rects(16, 16, 4);
    assert_eq!(r.len(), 4);
    assert_eq!(r[3], PixelRect { min_x: 48, min_y: 0, max_x: 64, max_y: 16 });
}

#[test]
fn frame_cursor_modes() {
    let mut looping = FrameCursor::new(2, true, false);
    assert_eq!(looping.step(), FrameStep::Show(1));
    assert_eq!(looping.step(), FrameStep::Show(0));
    let mut once = FrameCursor::new(2, false, true);
    assert_eq!(once.step(), FrameStep::Show(1));
    assert_eq!(once.step(), FrameStep::Despawn);
    let mut hold = FrameCursor::new(1, false, false);
    assert_eq!(hold.step(), FrameStep::Hold);
    assert_eq!(hold.current, 0);
}

#[test]
fn png_header_size() {
    let mut png = vec![0u8; 24];
    png[16..20].copy_from_slice(&[0, 0, 0, 24]);
    png[20..24].copy_from_slice(&[0, 0, 1, 2]);
    assert_eq!(png_dimensions(&png), Some((24, 258)));
    assert_eq!(png_dimensions(&png[..23]), None);
}

#[test]
fn color_slots() {
    let colors = PaletteColor::all();
    assert_eq!(color_slot(&colors, PaletteColor::Green), Some(2));
    assert_eq!(color_slot(&colors[..1], PaletteColor::Green), Some(0));
    assert_eq!(color_slot(&[], PaletteColor::Green), None);
    assert_eq!(pickup_color(PickupKind::Repair), PaletteColor::Green);
    assert_eq!(bullet_style("projectiles/projectile_4.png"), BulletStyle::Slug);
    assert_eq!(bullet_style("projectiles/projectile_3.png"), BulletStyle::Bolt);
}

#[test]
fn health_bar_segments() {
    let s = health_segments();
    assert_eq!(s.len(), 13);
    assert_eq!(s[0].art, SegmentArt::First);
    assert_eq!(s[0].width, 7);
    assert_eq!(s[12].art, SegmentArt::Repeat);
    assert!(segment_full(2, 3));
    assert!(!segment_full(3, 3));
}

#[test]
fn tile_geometry() {
    let t = sheet("terrain", 4);
    let r = tile_rect(&t, 6);
    assert_eq!(r, PixelRect { min_x: 32, min_y: 16, max_x: 48, max_y: 32 });
    let zero = sheet("terrain", 0);
    assert_eq!(tile_rect(&zero, 3), PixelRect { min_x: 0, min_y: 48, max_x: 16, max_y: 64 });
    assert_eq!(destroyed_tile_id(&sheet("building_3", 6), 7), 10);
    assert_eq!(destroyed_tile_id(&sheet("house", 2), 4), 5);
    assert!(is_truck("truck_empty"));
    assert!(is_truck("truck_loaded"));
    assert!(!is_truck("tank"));
}

#[test]
fn destruction_stage_lists() {
    let unit = sheet("unit_2", 4);
    let s = destruction_stages(&unit, 0);
    assert_eq!(s, vec![tile_rect(&unit, 1), tile_rect(&unit, 2), tile_rect(&unit, 3)]);
    let house = sheet("house", 2);
    let s = destruction_stages(&house, 2);
    assert_eq!(s, vec![tile_rect(&house, 2), tile_rect(&house, 2), tile_rect(&house, 3)]);
}

#[test]
fn destructible_hits_and_repair() {
    let house = sheet("house", 2);
    let mut d = Destructible::new(destruction_stages(&house, 0), tile_rect(&house, 0));
    let a = d.hit();
    assert!(!a.destroyed);
    assert_eq!(a.frame, Some(tile_rect(&house, 0)));
    d.hit();
    let c = d.hit();
    assert!(c.destroyed);
    assert_eq!(c.frame, Some(tile_rect(&house, 1)));
    let extra = d.hit();
    assert_eq!(extra.frame, None);
    assert!(extra.destroyed);
    assert_eq!(d.repair(), Some(tile_rect(&house, 0)));
    assert_eq!(d.taken, 0);
    assert_eq!(d.repair(), None);
}

#[test]
fn layout_shape() {
    let m = map_layout();
    assert_eq!(m.len(), 130);
    // Level 1's chunks come first, in the band at the bottom of the map.
    assert_eq!(m[0].kind, SegmentKind::Chunk);
    assert_eq!((m[0].number, m[0].col, m[0].row), (1, 0, 52));
    assert_eq!((m[9].number, m[9].col, m[9].row), (10, 1, 56));
    // Level 5's chunks sit at the top of the map.
    assert_eq!((m[104].number, m[104].row), (41, 0));
    for l in 0..5 {
        for s in 0..16 {
            let i = l * 26 + 10 + s;
            let seg = m[i];
            assert_eq!(seg.kind, SegmentKind::Space);
            assert!((1..=8).contains(&seg.number));
            if s % 2 == 1 {
                assert_ne!(seg.number, m[i - 1].number);
            }
            if s >= 2 {
                assert_ne!(seg.number, m[i - 2].number);
            }
        }
    }
}

#[test]
fn space_pick_avoids_neighbors() {
    for _ in 0..200 {
        let n = pick_space(3, 4);
        assert!((1..=8).contains(&n) && n != 3 && n != 4);
    }
}

#[test]
fn random_picks_stay_in_range() {
    assert_eq!(pick_ship(0), None);
    for _ in 0..50 {
        assert!(pick_ship(9).unwrap() < 9);
    }
    assert_eq!(unlocked_ufo_types(1, 4), 0);
    assert_eq!(unlocked_ufo_types(3, 4), 2);
    assert_eq!(unlocked_ufo_types(9, 4), 4);
    assert_eq!(pick_ufo(1, 4), None);
    for _ in 0..50 {
        assert!(pick_ufo(3, 4).unwrap() < 2);
    }
}

#[test]
fn space_choice_lists() {
    assert_eq!(space_choices(0, 0), vec![1, 2, 3, 4, 5, 6, 7, 8]);
    assert_eq!(space_choices(3, 8), vec![1, 2, 4, 5, 6, 7]);
    assert_eq!(space_choices(5, 5), vec![1, 2, 3, 4, 6, 7, 8]);
}
