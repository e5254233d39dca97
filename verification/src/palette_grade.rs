//! The substitution table of the whole-frame palette grade and the scheme
//! dissolve between tables.
//!
//! The table lists twelve exact source colors (the five palette pairs, then
//! the art's white and the text's white) and, index for index, what each
//! becomes. On the title screen the targets equal the sources; after a game
//! over the pairs drain to gray; otherwise they take the scheme of the level
//! band the camera is over. A change of target table starts a dissolve from
//! the outgoing to the incoming table. (Converting shades to linear color and
//! timing the dissolve are floating-point work left to the game shell.)
use vstd::prelude::*;
use crate::recolor::{Palettes, Shade, game_over_pair, level_scheme, level_scheme_spec, white, LevelScheme};

verus! {

/// Entries of the substitution table in use.
pub const ENTRY_COUNT: usize = 12;

/// UI text renders in pure white, unlike the art's `#F8F8F8`.
pub fn text_white() -> (r: Shade)
    ensures
        r@ == seq![255u8, 255u8, 255u8],
{
    [255, 255, 255]
}

/// Two tables hold the same colors, entry for entry.
pub open spec fn same_table(a: Seq<Shade>, b: Seq<Shade>) -> bool {
    &&& a.len() == b.len()
    &&& forall|i: int| 0 <= i < a.len() ==> (#[trigger] a[i])@ == b[i]@
}

/// The source side: the five palette pairs (default, red, green, yellow,
/// blue), then the art white and the text white.
pub open spec fn is_source_table(t: Seq<Shade>, p: Palettes) -> bool {
    &&& t.len() == ENTRY_COUNT
    &&& t[0] == p.default[0] && t[1] == p.default[1]
    &&& t[2] == p.red[0] && t[3] == p.red[1]
    &&& t[4] == p.green[0] && t[5] == p.green[1]
    &&& t[6] == p.yellow[0] && t[7] == p.yellow[1]
    &&& t[8] == p.blue[0] && t[9] == p.blue[1]
    &&& t[10]@ == seq![248u8, 248u8, 248u8]
    &&& t[11]@ == seq![255u8, 255u8, 255u8]
}

/// A target side: every dark shade to `dark`, every light shade to `light`,
/// and the two whites to `accent` (or to themselves when there is none).
pub open spec fn is_target_table(t: Seq<Shade>, dark: Shade, light: Shade, accent: Option<Shade>) -> bool {
    &&& t.len() == ENTRY_COUNT
    &&& forall|i: int| 0 <= i < 10 ==> #[trigger] t[i] == (if i % 2 == 0 { dark } else { light })
    &&& match accent {
        Some(w) => t[10] == w && t[11] == w,
        None => t[10]@ == seq![248u8, 248u8, 248u8] && t[11]@ == seq![255u8, 255u8, 255u8],
    }
}

/// The source colors, in table order.
pub fn source_shades(p: &Palettes) -> (t: Vec<Shade>)
    ensures
        is_source_table(t@, *p),
{
    let mut t: Vec<Shade> = Vec::new();
    t.push(p.default[0]);
    t.push(p.default[1]);
    t.push(p.red[0]);
    t.push(p.red[1]);
    t.push(p.green[0]);
    t.push(p.green[1]);
    t.push(p.yellow[0]);
    t.push(p.yellow[1]);
    t.push(p.blue[0]);
    t.push(p.blue[1]);
    t.push(white());
    t.push(text_white());
    t
}

/// The target colors of one scheme.
pub fn target_shades(dark: Shade, light: Shade, accent: Option<Shade>) -> (t: Vec<Shade>)
    ensures
        is_target_table(t@, dark, light, accent),
{
    let mut t: Vec<Shade> = Vec::new();
    let mut i: usize = 0;
    while i < 5
        invariant
            i <= 5,
            t@.len() == 2 * i,
            forall|j: int| 0 <= j < 2 * i ==> #[trigger] t@[j] == (if j % 2 == 0 { dark } else { light }),
        decreases 5 - i,
    {
        t.push(dark);
        t.push(light);
        i = i + 1;
    }
    match accent {
        Some(w) => {
            t.push(w);
            t.push(w);
        },
        None => {
            t.push(white());
            t.push(text_white());
        },
    }
    t
}

/// The table a frame wants: identity on the title screen, gray after a game
/// over, otherwise the scheme of level band `band` (0-indexed).
pub open spec fn is_desired_table(t: Seq<Shade>, p: Palettes, on_title: bool, game_over: bool, band: u32) -> bool {
    if on_title {
        is_source_table(t, p)
    } else if game_over {
        &&& is_target_table(t, t[0], t[1], None)
        &&& t[0]@ == seq![79u8, 79u8, 79u8]
        &&& t[1]@ == seq![133u8, 133u8, 133u8]
    } else {
        exists|s: LevelScheme| level_scheme_spec((band + 1) as u32, s) && is_target_table(t, s.pair[0], s.pair[1], s.white)
    }
}

/// The table this frame wants.
pub fn desired_shades(p: &Palettes, on_title: bool, game_over: bool, band: u32) -> (t: Vec<Shade>)
    requires
        band < u32::MAX,
    ensures
        is_desired_table(t@, *p, on_title, game_over, band),
{
    if on_title {
        source_shades(p)
    } else if game_over {
        let g = game_over_pair();
        target_shades(g[0], g[1], None)
    } else {
        let s = level_scheme(band + 1);
        let t = target_shades(s.pair[0], s.pair[1], s.white);
        assert(level_scheme_spec((band + 1) as u32, s) && is_target_table(t@, s.pair[0], s.pair[1], s.white));
        t
    }
}

/// Whether two tables hold the same colors.
pub fn tables_equal(a: &Vec<Shade>, b: &Vec<Shade>) -> (r: bool)
    ensures
        r == same_table(a@, b@),
{
    if a.len() != b.len() {
        return false;
    }
    let mut i: usize = 0;
    while i < a.len()
        invariant
            a@.len() == b@.len(),
            i <= a@.len(),
            forall|j: int| 0 <= j < i ==> (#[trigger] a@[j])@ == b@[j]@,
        decreases a@.len() - i,
    {
        let x = a[i];
        let y = b[i];
        if !(x[0] == y[0] && x[1] == y[1] && x[2] == y[2]) {
            assert(x@[0] != y@[0] || x@[1] != y@[1] || x@[2] != y@[2]);
            return false;
        }
        assert(x@ =~= y@);
        i = i + 1;
    }
    true
}

/// A copy of a table.
fn copy_table(t: &Vec<Shade>) -> (r: Vec<Shade>)
    ensures
        r@ == t@,
{
    let mut r: Vec<Shade> = Vec::new();
    let mut i: usize = 0;
    while i < t.len()
        invariant
            i <= t@.len(),
            r@ == t@.subrange(0, i as int),
        decreases t@.len() - i,
    {
        r.push(t[i]);
        i = i + 1;
    }
    assert(r@ =~= t@);
    r
}

/// The dissolve between the outgoing and the incoming target tables.
#[derive(Debug)]
pub struct PaletteTransition {
    pub to_old: Vec<Shade>,
    pub to_new: Vec<Shade>,
}

/// What a frame does to the dissolve's position.
#[derive(Clone, Copy, Debug, PartialEq, Eq, Structural)]
pub enum Dissolve {
    /// Start a fresh dissolve from the old destination (position zero).
    Restart,
    /// Same destination: keep dissolving toward it.
    Continue,
}

impl PaletteTransition {
    /// The very first frame settles instantly on `desired`.
    pub fn settled(desired: Vec<Shade>) -> (t: Self)
        ensures
            t.to_old@ == desired@,
            t.to_new@ == desired@,
    {
        let old = copy_table(&desired);
        PaletteTransition { to_old: old, to_new: desired }
    }

    /// Retargets the dissolve toward `desired`. Any change of destination,
    /// the title screen's included, starts a fresh dissolve from the old
    /// destination; no change keeps going.
    pub fn retarget(&mut self, desired: Vec<Shade>) -> (d: Dissolve)
        ensures
            same_table(old(self).to_new@, desired@) ==> d == Dissolve::Continue && final(self).to_old@ == old(self).to_old@ && final(self).to_new@ == old(self).to_new@,
            !same_table(old(self).to_new@, desired@) ==> d == Dissolve::Restart && final(self).to_old@ == old(self).to_new@ && final(self).to_new@ == desired@,
    {
        if tables_equal(&self.to_new, &desired) {
            return Dissolve::Continue;
        }
        let previous = copy_table(&self.to_new);
        self.to_old = previous;
        self.to_new = desired;
        Dissolve::Restart
    }
}

} // verus!
