//! Shared layout constants of the playfield and the level bands of the one
//! continuous map.
//!
//! The whole game is one vertical map stitched from square segments of
//! `CHUNK_PX` pixels, `MAP_COLS` per row. Each level owns a band of rows: a
//! corridor of `SPACE_ROWS` random space segments with `CHUNK_ROWS` of
//! terrain chunks above it. World coordinates have their origin at the map's
//! center with y pointing up, so every band edge lies on a whole pixel.
use vstd::prelude::*;

verus! {

/// Side length of one map segment in pixels (16 tiles of 16 px).
pub const CHUNK_PX: u32 = 256;
/// Segments per map row.
pub const MAP_COLS: u32 = 2;
/// Rows of terrain chunks per level.
pub const CHUNK_ROWS: u32 = 5;
/// Rows of the random space corridor below each level's chunks.
pub const SPACE_ROWS: u32 = 8;
/// How many levels are stacked in the map.
pub const LEVELS: u32 = 5;
/// Rows in one level's band: its space corridor plus its chunk terrain.
pub const LEVEL_ROWS: u32 = SPACE_ROWS + CHUNK_ROWS;
/// Rows in the whole map.
pub const MAP_ROWS: u32 = LEVELS * LEVEL_ROWS;
/// Half the map's height in pixels: the world y of its top edge.
pub const MAP_HALF_HEIGHT: i64 = 8320;

/// World y of the bottom edge of band `l` (0-indexed).
pub open spec fn band_bottom(l: int) -> int {
    -(MAP_ROWS * CHUNK_PX) / 2 + l * LEVEL_ROWS * CHUNK_PX
}

/// World y where band `l`'s terrain chunks begin (the top of its corridor).
pub open spec fn band_chunk_bottom(l: int) -> int {
    band_bottom(l) + SPACE_ROWS * CHUNK_PX
}

/// World y of the top edge of band `l`'s terrain chunks.
pub open spec fn band_chunk_top(l: int) -> int {
    band_bottom(l) + LEVEL_ROWS * CHUNK_PX
}

/// The bands a caller may ask for: the row arithmetic `l * LEVEL_ROWS`
/// is done in `u32`, so larger values do not fit.
pub open spec fn band_in_range(l: u32) -> bool {
    l * LEVEL_ROWS <= u32::MAX
}

/// World y of the bottom edge of level `l`'s band (0-indexed): the start of
/// its space corridor.
pub fn level_bottom_y(l: u32) -> (y: i64)
    requires
        band_in_range(l),
    ensures
        y == band_bottom(l as int),
{
    let rows: i64 = l as i64 * 13;
    rows * 256 - MAP_HALF_HEIGHT
}

/// World y where level `l`'s chunk terrain begins.
pub fn level_chunk_bottom_y(l: u32) -> (y: i64)
    requires
        band_in_range(l),
    ensures
        y == band_chunk_bottom(l as int),
{
    level_bottom_y(l) + 2048
}

/// World y of the top edge of level `l`'s chunk terrain (where its boss sits).
pub fn level_chunk_top_y(l: u32) -> (y: i64)
    requires
        band_in_range(l),
    ensures
        y == band_chunk_top(l as int),
{
    level_bottom_y(l) + 3328
}

/// The bands tile the map without gaps or overlap: each band's corridor sits
/// on the band below it, its terrain sits on its own corridor, the first band
/// starts at the map's bottom edge and the last one ends at its top edge.
pub proof fn lemma_bands_stack(l: int)
    ensures
        band_chunk_top(l) == band_bottom(l + 1),
        band_bottom(l) < band_chunk_bottom(l) < band_chunk_top(l),
        band_bottom(0) == -MAP_HALF_HEIGHT,
        band_chunk_top(LEVELS - 1) == MAP_HALF_HEIGHT,
{
}

} // verus!

verus! {

/// An axis-aligned rectangle of whole image pixels: a sprite's source region
/// within its sheet, from `min` (inclusive) to `max` (exclusive).
#[derive(Clone, Copy, Debug, PartialEq, Eq, Structural)]
pub struct PixelRect {
    pub min_x: u64,
    pub min_y: u64,
    pub max_x: u64,
    pub max_y: u64,
}

/// The rectangle whose top-left corner is `(x, y)` and whose size is `w` by `h`.
pub open spec fn rect_at(x: int, y: int, w: int, h: int) -> PixelRect {
    PixelRect { min_x: x as u64, min_y: y as u64, max_x: (x + w) as u64, max_y: (y + h) as u64 }
}

} // verus!

verus! {

/// Whether two texts are the same characters.
pub fn same_text(a: &str, b: &str) -> (r: bool)
    ensures
        r == (a@ == b@),
{
    a.to_owned() == b.to_owned()
}

} // verus!
