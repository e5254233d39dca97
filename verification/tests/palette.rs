use astro_strike::palette_grade::{
    desired_shades, source_shades, target_shades, tables_equal, Dissolve, PaletteTransition,
};
use astro_strike::recolor::{
    game_over_pair, level_scheme, recolor_pair, recolor_pixels, swap_mappings, white, PaletteColor,
    Palettes,
};
use astro_strike::vfs::{asset_key, read_bytes, read_string, utf8_text, PathPart};

#[test]
fn palette_table() {
    let p = Palettes::default();
    assert_eq!(p.get(PaletteColor::Red), [[0xE5, 0x33, 0x1F], [0xF0, 0x8B, 0x79]]);
    assert_eq!(p.default, [[0x38, 0x30, 0x70], [0x60, 0x70, 0xA8]]);
    assert_eq!(white(), [248, 248, 248]);
    assert_eq!(game_over_pair(), [[79, 79, 79], [133, 133, 133]]);
}

#[test]
fn level_schemes() {
    let s2 = level_scheme(2);
    assert_eq!(s2.pair, [[111, 47, 107], [168, 153, 97]]);
    assert_eq!(s2.white, Some([194, 251, 254]));
    assert_eq!(level_scheme(5).pair, [[53, 29, 50], [168, 97, 97]]);
    let other = level_scheme(9);
    assert_eq!(other.pair, [[56, 48, 112], [96, 112, 168]]);
    assert_eq!(other.white, None);
}

#[test]
fn recolor_swaps_only_exact_matches() {
    let from = [[1, 2, 3], [4, 5, 6]];
    let to = [[4, 5, 6], [9, 9, 9]];
    let mut data = vec![1, 2, 3, 255, 4, 5, 6, 128, 7, 7, 7, 0, 1, 2];
    recolor_pair(&mut data, from, to);
    // The first pixel becomes [4,5,6] and is not chained on to [9,9,9].
    assert_eq!(data, vec![4, 5, 6, 255, 9, 9, 9, 128, 7, 7, 7, 0, 1, 2]);
    let m = swap_mappings(from, to);
    assert_eq!(m, vec![([1, 2, 3], [4, 5, 6]), ([4, 5, 6], [9, 9, 9])]);
    let mut first_wins = vec![1, 1, 1, 1];
    recolor_pixels(&mut first_wins, &[([1, 1, 1], [2, 2, 2]), ([1, 1, 1], [3, 3, 3])]);
    assert_eq!(first_wins, vec![2, 2, 2, 1]);
}

#[test]
fn grade_tables() {
    let p = Palettes::default();
    let src = source_shades(&p);
    assert_eq!(src.len(), 12);
    assert_eq!(src[2], [0xE5, 0x33, 0x1F]);
    assert_eq!(src[11], [255, 255, 255]);
    let t = target_shades([1, 1, 1], [2, 2, 2], None);
    assert_eq!(t[4], [1, 1, 1]);
    assert_eq!(t[9], [2, 2, 2]);
    assert_eq!(t[10], [248, 248, 248]);
    let title = desired_shades(&p, true, true, 0);
    assert!(tables_equal(&title, &src));
    let gray = desired_shades(&p, false, true, 3);
    assert_eq!(gray[0], [79, 79, 79]);
    assert_eq!(gray[11], [255, 255, 255]);
    let band2 = desired_shades(&p, false, false, 1);
    assert_eq!(band2[1], [168, 153, 97]);
    assert_eq!(band2[10], [194, 251, 254]);
}

#[test]
fn dissolve_steps() {
    let p = Palettes::default();
    let a = desired_shades(&p, false, false, 0);
    let b = desired_shades(&p, false, false, 1);
    let mut t = PaletteTransition::settled(desired_shades(&p, false, false, 0));
    assert_eq!(t.retarget(desired_shades(&p, false, false, 0)), Dissolve::Continue);
    assert_eq!(t.retarget(desired_shades(&p, false, false, 1)), Dissolve::Restart);
    assert_eq!(t.to_old, a);
    assert_eq!(t.to_new, b);
    // Entering the title screen dissolves too, from the old destination.
    assert_eq!(t.retarget(desired_shades(&p, true, false, 1)), Dissolve::Restart);
    assert_eq!(t.to_old, b);
    assert_eq!(t.to_new, source_shades(&p));
    assert_eq!(t.retarget(source_shades(&p)), Dissolve::Continue);
    // Leaving it as well.
    assert_eq!(t.retarget(desired_shades(&p, false, false, 0)), Dissolve::Restart);
    assert_eq!(t.to_old, source_shades(&p));
    assert_eq!(t.to_new, a);
}

#[test]
fn embedded_lookup() {
    let table: &[(&str, &[u8])] = &[
        ("maps/a.tmx", b"first"),
        ("maps/a.tmx", b"second"),
        ("bad.txt", &[0xff, 0xfe]),
    ];
    assert_eq!(read_bytes(table, "maps/a.tmx"), Some(b"first".to_vec()));
    assert_eq!(read_bytes(table, "missing"), None);
    assert_eq!(read_string(table, "maps/a.tmx"), Some("first".to_string()));
    assert_eq!(read_string(table, "bad.txt"), None);
    assert_eq!(read_string(table, "missing"), None);
    assert_eq!(utf8_text("héllo".as_bytes().to_vec()), Some("héllo".to_string()));
}

fn parts(path: &[&str]) -> Vec<PathPart> {
    path.iter()
        .map(|p| match *p {
            ".." => PathPart::Parent,
            "/" => PathPart::Other,
            s => PathPart::Normal(s.to_string()),
        })
        .collect()
}

#[test]
fn asset_keys() {
    let p = parts(&["/", "home", "assets", "maps", "chunks", "..", "tilesets", "terrain.tsx"]);
    assert_eq!(asset_key(&p), Some("maps/tilesets/terrain.tsx".to_string()));
    let nested = parts(&["assets", "x", "assets", "a.png"]);
    assert_eq!(asset_key(&nested), Some("a.png".to_string()));
    assert_eq!(asset_key(&parts(&["..", "assets", "a"])), None);
    assert_eq!(asset_key(&parts(&["maps", "a.tmx"])), None);
    assert_eq!(asset_key(&parts(&["assets"])), Some(String::new()));
}
