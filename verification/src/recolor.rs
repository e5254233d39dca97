//! Palette swapping.
//!
//! Every asset is drawn in a default two-shade palette. Recoloring swaps
//! those shades for a target palette's; pixels of any other color (white
//! highlights, black outlines, transparency) are left untouched.
use vstd::prelude::*;

verus! {

/// An `[r, g, b]` color.
pub type Shade = [u8; 3];
/// A palette's `[dark, light]` shades.
pub type Pair = [Shade; 2];

/// The four target palettes.
#[derive(Clone, Copy, Debug, PartialEq, Eq, Structural)]
pub enum PaletteColor {
    Red,
    Yellow,
    Green,
    Blue,
}

impl PaletteColor {
    /// All colors, in the order shown on the fighter-select screen.
    pub fn all() -> (r: [PaletteColor; 4])
        ensures
            r@ == seq![PaletteColor::Blue, PaletteColor::Red, PaletteColor::Green, PaletteColor::Yellow],
    {
        [PaletteColor::Blue, PaletteColor::Red, PaletteColor::Green, PaletteColor::Yellow]
    }
}

/// The default palette the art is drawn in, and the four targets.
#[derive(Clone, Copy, Debug)]
pub struct Palettes {
    pub default: Pair,
    pub red: Pair,
    pub green: Pair,
    pub yellow: Pair,
    pub blue: Pair,
}

/// The shade `[r, g, b]` as a sequence.
pub open spec fn rgb(r: u8, g: u8, b: u8) -> Seq<u8> {
    seq![r, g, b]
}

/// The game's palette table: the default `#383070`/`#6070A8` plus four targets.
pub open spec fn standard_palettes(p: Palettes) -> bool {
    &&& p.default[0]@ == rgb(0x38, 0x30, 0x70) && p.default[1]@ == rgb(0x60, 0x70, 0xA8)
    &&& p.red[0]@ == rgb(0xE5, 0x33, 0x1F) && p.red[1]@ == rgb(0xF0, 0x8B, 0x79)
    &&& p.green[0]@ == rgb(0x00, 0x66, 0x33) && p.green[1]@ == rgb(0x72, 0xA7, 0x84)
    &&& p.yellow[0]@ == rgb(0xF9, 0xA2, 0x04) && p.yellow[1]@ == rgb(0xFB, 0xC8, 0x6A)
    &&& p.blue[0]@ == rgb(0x02, 0x6C, 0x80) && p.blue[1]@ == rgb(0x73, 0xAB, 0xAE)
}

/// The pair a palette color selects.
pub open spec fn pair_of(p: Palettes, color: PaletteColor) -> Pair {
    match color {
        PaletteColor::Red => p.red,
        PaletteColor::Yellow => p.yellow,
        PaletteColor::Green => p.green,
        PaletteColor::Blue => p.blue,
    }
}

impl Default for Palettes {
    /// Every palette the art gets recolored to.
    fn default() -> (r: Self)
        ensures
            standard_palettes(r),
    {
        Palettes {
            default: [[0x38, 0x30, 0x70], [0x60, 0x70, 0xA8]],
            red: [[0xE5, 0x33, 0x1F], [0xF0, 0x8B, 0x79]],
            green: [[0x00, 0x66, 0x33], [0x72, 0xA7, 0x84]],
            yellow: [[0xF9, 0xA2, 0x04], [0xFB, 0xC8, 0x6A]],
            blue: [[0x02, 0x6C, 0x80], [0x73, 0xAB, 0xAE]],
        }
    }
}

impl Palettes {
    /// The pair for `color`.
    pub fn get(&self, color: PaletteColor) -> (r: Pair)
        ensures
            r == pair_of(*self, color),
    {
        match color {
            PaletteColor::Red => self.red,
            PaletteColor::Yellow => self.yellow,
            PaletteColor::Green => self.green,
            PaletteColor::Blue => self.blue,
        }
    }
}

/// "White" in the source art (highlights, stars, glows): `#F8F8F8`.
pub fn white() -> (r: Shade)
    ensures
        r@ == rgb(248, 248, 248),
{
    [248, 248, 248]
}

/// The map's palette once the player has lost: the world drains to gray.
pub fn game_over_pair() -> (r: Pair)
    ensures
        r[0]@ == rgb(79, 79, 79),
        r[1]@ == rgb(133, 133, 133),
{
    [[79, 79, 79], [133, 133, 133]]
}

/// A level's map color scheme: what the two default primaries become, plus an
/// optional remap of the white pixels.
#[derive(Clone, Copy, Debug)]
pub struct LevelScheme {
    pub pair: Pair,
    pub white: Option<Shade>,
}

/// The scheme `{pair: [dark, light], white}` described by plain sequences.
pub open spec fn scheme_is(s: LevelScheme, dark: Seq<u8>, light: Seq<u8>, white: Option<Seq<u8>>) -> bool {
    &&& s.pair[0]@ == dark
    &&& s.pair[1]@ == light
    &&& match white {
        Some(w) => s.white is Some && s.white->0@ == w,
        None => s.white is None,
    }
}

/// The per-level map schemes (1-based; other levels keep the default art).
pub open spec fn level_scheme_spec(level: u32, s: LevelScheme) -> bool {
    if level == 1 {
        scheme_is(s, rgb(47, 111, 69), rgb(97, 168, 121), None)
    } else if level == 2 {
        scheme_is(s, rgb(111, 47, 107), rgb(168, 153, 97), Some(rgb(194, 251, 254)))
    } else if level == 3 {
        scheme_is(s, rgb(56, 48, 112), rgb(96, 112, 168), Some(rgb(241, 254, 165)))
    } else if level == 4 {
        scheme_is(s, rgb(111, 47, 47), rgb(97, 144, 168), None)
    } else if level == 5 {
        scheme_is(s, rgb(53, 29, 50), rgb(168, 97, 97), None)
    } else {
        scheme_is(s, rgb(56, 48, 112), rgb(96, 112, 168), None)
    }
}

/// The map scheme of `level` (1-based).
pub fn level_scheme(level: u32) -> (s: LevelScheme)
    ensures
        level_scheme_spec(level, s),
{
    match level {
        1 => LevelScheme { pair: [[47, 111, 69], [97, 168, 121]], white: None },
        2 => LevelScheme { pair: [[111, 47, 107], [168, 153, 97]], white: Some([194, 251, 254]) },
        3 => LevelScheme { pair: [[56, 48, 112], [96, 112, 168]], white: Some([241, 254, 165]) },
        4 => LevelScheme { pair: [[111, 47, 47], [97, 144, 168]], white: None },
        5 => LevelScheme { pair: [[53, 29, 50], [168, 97, 97]], white: None },
        _ => LevelScheme { pair: [[56, 48, 112], [96, 112, 168]], white: None },
    }
}

/// The first substitution in `mappings` whose source color is `px`, if any.
pub open spec fn first_match(mappings: Seq<(Shade, Shade)>, px: Seq<u8>) -> Option<Shade>
    decreases mappings.len(),
{
    if mappings.len() == 0 {
        None
    } else if mappings[0].0@ == px {
        Some(mappings[0].1)
    } else {
        first_match(mappings.drop_first(), px)
    }
}

/// Whether byte `i` lies in a complete 4-byte RGBA pixel of `data`.
pub open spec fn in_whole_pixel(len: int, i: int) -> bool {
    (i / 4) * 4 + 4 <= len
}

/// The color channels of the pixel that byte `i` belongs to.
pub open spec fn pixel_rgb(data: Seq<u8>, i: int) -> Seq<u8> {
    data.subrange((i / 4) * 4, (i / 4) * 4 + 3)
}

/// RGBA bytes after applying each exact `(from, to)` color substitution to
/// every complete pixel: the color channels of a pixel whose color is some
/// `from` become the first such mapping's `to`; alpha, unmatched pixels and
/// any trailing partial pixel keep their bytes. Pixels are matched against
/// their original colors, so mappings never chain.
pub open spec fn recolored(data: Seq<u8>, mappings: Seq<(Shade, Shade)>) -> Seq<u8> {
    Seq::new(data.len(), |i: int|
        if in_whole_pixel(data.len() as int, i) && i % 4 < 3 {
            match first_match(mappings, pixel_rgb(data, i)) {
                Some(to) => to[i % 4],
                None => data[i],
            }
        } else {
            data[i]
        }
    )
}

/// Whether two shades are the same color.
fn shade_eq(a: &Shade, b0: u8, b1: u8, b2: u8) -> (r: bool)
    ensures
        r == (a@ == seq![b0, b1, b2]),
{
    let r = a[0] == b0 && a[1] == b1 && a[2] == b2;
    assert(r ==> a@ =~= seq![b0, b1, b2]);
    r
}

/// Index of the first mapping whose source color is `[r, g, b]`.
fn find_mapping(mappings: &[(Shade, Shade)], r: u8, g: u8, b: u8) -> (found: Option<usize>)
    ensures
        match found {
            Some(k) => k < mappings@.len() && first_match(mappings@, seq![r, g, b]) == Some(mappings@[k as int].1),
            None => first_match(mappings@, seq![r, g, b]) is None,
        },
{
    let mut k: usize = 0;
    assert(mappings@.skip(0) =~= mappings@);
    while k < mappings.len()
        invariant
            k <= mappings@.len(),
            first_match(mappings@, seq![r, g, b]) == first_match(mappings@.skip(k as int), seq![r, g, b]),
        decreases mappings@.len() - k,
    {
        let ghost rest = mappings@.skip(k as int);
        assert(rest.drop_first() =~= mappings@.skip(k + 1));
        if shade_eq(&mappings[k].0, r, g, b) {
            return Some(k);
        }
        k = k + 1;
    }
    assert(mappings@.skip(k as int).len() == 0);
    None
}

/// Applies each exact `(from, to)` color substitution to the RGBA pixels in
/// `data` (the pixel loop of loading a recolored image).
pub fn recolor_pixels(data: &mut Vec<u8>, mappings: &[(Shade, Shade)])
    ensures
        final(data)@ == recolored(old(data)@, mappings@),
{
    let ghost orig = data@;
    let n = data.len();
    let mut p: usize = 0;
    while n - p >= 4
        invariant
            n == data@.len(),
            orig.len() == n,
            p % 4 == 0,
            p <= n,
            forall|i: int| 0 <= i < p ==> data@[i] == #[trigger] recolored(orig, mappings@)[i],
            forall|i: int| p <= i < n ==> data@[i] == orig[i],
        decreases n - p,
    {
        let r = data[p];
        let g = data[p + 1];
        let b = data[p + 2];
        let found = find_mapping(mappings, r, g, b);
        proof {
            assert(pixel_rgb(orig, p as int) =~= seq![r, g, b]);
            assert(pixel_rgb(orig, p + 1) =~= seq![r, g, b]);
            assert(pixel_rgb(orig, p + 2) =~= seq![r, g, b]);
        }
        if let Some(k) = found {
            let to = mappings[k].1;
            data.set(p, to[0]);
            data.set(p + 1, to[1]);
            data.set(p + 2, to[2]);
        }
        assert forall|i: int| p <= i < p + 4 implies data@[i] == #[trigger] recolored(orig, mappings@)[i] by {
            assert((i / 4) * 4 == p);
        }
        p = p + 4;
    }
    assert forall|i: int| p <= i < n implies data@[i] == #[trigger] recolored(orig, mappings@)[i] by {
        assert(!in_whole_pixel(n as int, i));
    }
    assert(data@ =~= recolored(orig, mappings@));
}

/// The two substitutions that swap palette `from` for palette `to`.
pub fn swap_mappings(from: Pair, to: Pair) -> (m: Vec<(Shade, Shade)>)
    ensures
        m@ == seq![(from[0], to[0]), (from[1], to[1])],
{
    let mut m: Vec<(Shade, Shade)> = Vec::new();
    m.push((from[0], to[0]));
    m.push((from[1], to[1]));
    m
}

/// Swaps the default palette `from` for `to` in RGBA pixel data.
pub fn recolor_pair(data: &mut Vec<u8>, from: Pair, to: Pair)
    ensures
        final(data)@ == recolored(old(data)@, seq![(from[0], to[0]), (from[1], to[1])]),
{
    let m = swap_mappings(from, to);
    recolor_pixels(data, m.as_slice());
}

} // verus!
