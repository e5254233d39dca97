//! Asset facts the game derives from plain data: a PNG's native size read
//! from its header, which preloaded variant serves a palette color, and which
//! projectile style and theme color go with a ship model or a pickup.
use vstd::prelude::*;
use crate::common::same_text;
use crate::pickup::PickupKind;
use crate::recolor::PaletteColor;

verus! {

/// The big-endian 32-bit number in `bytes[at..at + 4]`.
pub open spec fn be_u32(bytes: Seq<u8>, at: int) -> int {
    bytes[at] * 0x100_0000 + bytes[at + 1] * 0x1_0000 + bytes[at + 2] * 0x100 + bytes[at + 3]
}

fn read_be_u32(bytes: &[u8], at: usize) -> (v: u32)
    requires
        at + 4 <= bytes@.len(),
    ensures
        v == be_u32(bytes@, at as int),
{
    let b0 = bytes[at] as u32;
    let b1 = bytes[at + 1] as u32;
    let b2 = bytes[at + 2] as u32;
    let b3 = bytes[at + 3] as u32;
    b0 * 0x100_0000 + b1 * 0x1_0000 + b2 * 0x100 + b3
}

/// Native `(width, height)` of a PNG, read from its IHDR header: big-endian
/// 32-bit numbers at bytes 16 and 20. None when the file is too short to
/// hold them.
pub fn png_dimensions(bytes: &[u8]) -> (r: Option<(u32, u32)>)
    ensures
        r is Some <==> bytes@.len() >= 24,
        r matches Some((w, h)) ==> w == be_u32(bytes@, 16) && h == be_u32(bytes@, 20),
{
    if bytes.len() < 24 {
        return None;
    }
    Some((read_be_u32(bytes, 16), read_be_u32(bytes, 20)))
}

/// The slot to use for `color` among variants listed by color: the first
/// with that color, else the first variant; none when there are no variants.
pub open spec fn color_slot_spec(colors: Seq<PaletteColor>, color: PaletteColor, r: Option<usize>) -> bool {
    if colors.len() == 0 {
        r is None
    } else if exists|i: int| 0 <= i < colors.len() && colors[i] == color {
        r matches Some(i) && i < colors.len() && colors[i as int] == color
            && forall|j: int| 0 <= j < i ==> colors[j] != color
    } else {
        r == Some(0usize)
    }
}

/// Which variant serves `color` (a health-bar segment recolored per fighter
/// palette, or a selectable fighter): the first with that color, falling
/// back to the first variant.
pub fn color_slot(colors: &[PaletteColor], color: PaletteColor) -> (r: Option<usize>)
    ensures
        color_slot_spec(colors@, color, r),
{
    let mut i: usize = 0;
    while i < colors.len()
        invariant
            i <= colors@.len(),
            forall|j: int| 0 <= j < i ==> colors@[j] != color,
        decreases colors@.len() - i,
    {
        if colors[i] == color {
            return Some(i);
        }
        i = i + 1;
    }
    if colors.len() == 0 {
        None
    } else {
        Some(0)
    }
}

/// The two enemy projectile styles.
#[derive(Clone, Copy, Debug, PartialEq, Eq, Structural)]
pub enum BulletStyle {
    /// The round-headed slug (`projectile_4.png`).
    Slug,
    /// The short bolt (`projectile_3.png`).
    Bolt,
}

/// The style an enemy model fires, from the projectile file paired with it:
/// the slug for `projectile_4.png`, the bolt for anything else.
pub fn bullet_style(projectile: &str) -> (s: BulletStyle)
    ensures
        s == (if projectile@ == "projectiles/projectile_4.png"@ { BulletStyle::Slug } else { BulletStyle::Bolt }),
{
    if same_text(projectile, "projectiles/projectile_4.png") {
        BulletStyle::Slug
    } else {
        BulletStyle::Bolt
    }
}

/// Theme color of each pickup: invincibility yellow, repair green, weapon
/// red, bomb blue.
pub fn pickup_color(kind: PickupKind) -> (c: PaletteColor)
    ensures
        kind == PickupKind::Invincible ==> c == PaletteColor::Yellow,
        kind == PickupKind::Repair ==> c == PaletteColor::Green,
        kind == PickupKind::Weapon ==> c == PaletteColor::Red,
        kind == PickupKind::Bomb ==> c == PaletteColor::Blue,
{
    match kind {
        PickupKind::Invincible => PaletteColor::Yellow,
        PickupKind::Repair => PaletteColor::Green,
        PickupKind::Weapon => PaletteColor::Red,
        PickupKind::Bomb => PaletteColor::Blue,
    }
}

} // verus!
