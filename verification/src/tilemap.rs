//! Map layout and tile geometry.
//!
//! The map is built from segments: per level band, from the top, ten terrain
//! chunks (numbered consecutively across levels) and then a corridor of
//! random space segments in which no segment repeats its left or upper
//! neighbor. Tile sheets are grids of equal tiles addressed by a local id;
//! destructible props cycle through per-hit frames drawn from their sheet.
use vstd::prelude::*;
use crate::common::{LEVELS, LEVEL_ROWS, MAP_COLS, CHUNK_ROWS, PixelRect, SPACE_ROWS, rect_at, same_text};
use crate::destructible::DESTRUCTIBLE_HP;
use crate::random::random_index;

verus! {

/// Number of space segments available to pick from.
pub const SPACE_MAP_COUNT: u32 = 8;
/// Terrain chunks per level.
pub const CHUNKS_PER_LEVEL: u32 = CHUNK_ROWS * MAP_COLS;
/// Segments per level band: the chunks plus the corridor's space segments.
pub const SEGMENTS_PER_LEVEL: u32 = CHUNKS_PER_LEVEL + SPACE_ROWS * MAP_COLS;

/// What a map segment is made of.
#[derive(Clone, Copy, Debug, PartialEq, Eq, Structural)]
pub enum SegmentKind {
    /// `chunk_N.tmx`: a level's terrain.
    Chunk,
    /// `space_N.tmx`: a corridor segment.
    Space,
}

/// One map segment: its file (`kind` and number) and its grid cell (rows run
/// top-down, row 0 at the top of the map).
#[derive(Clone, Copy, Debug, PartialEq, Eq, Structural)]
pub struct Segment {
    pub kind: SegmentKind,
    pub number: u32,
    pub col: u32,
    pub row: u32,
}

/// The top-down row where level `l`'s band starts (the highest level is on top).
pub open spec fn band_top_row(l: int) -> int {
    (4 - l) * 13
}

/// What the `i`-th segment of the layout must be. Level `l = i / 26` lists
/// its ten chunks row by row (chunk `10 * l + j + 1` in slot `j`), then its
/// sixteen space segments row by row, each a number from 1 to 8 that differs
/// from the segment to its left and the one above it in the corridor.
/// (26 segments per level: 10 chunks and 16 space segments.)
pub open spec fn segment_ok(s: Seq<Segment>, i: int) -> bool {
    let l = i / 26;
    let j = i % 26;
    let seg = s[i];
    if j < 10 {
        &&& seg.kind == SegmentKind::Chunk
        &&& seg.number == l * 10 + j + 1
        &&& seg.col == j % 2
        &&& seg.row == band_top_row(l) + j / 2
    } else {
        let k = j - 10;
        &&& seg.kind == SegmentKind::Space
        &&& 1 <= seg.number <= SPACE_MAP_COUNT
        &&& seg.col == k % 2
        &&& seg.row == band_top_row(l) + CHUNK_ROWS + k / 2
        &&& (k % 2 == 1 ==> seg.number != s[i - 1].number)
        &&& (k >= 2 ==> seg.number != s[i - 2].number)
    }
}

/// Slot `j` of level `l` sits at index `26 * l + j` of the layout.
proof fn lemma_slot(l: int, j: int)
    requires
        0 <= l,
        0 <= j < 26,
    ensures
        (l * 26 + j) / 26 == l,
        (l * 26 + j) % 26 == j,
{
    vstd::arithmetic::div_mod::lemma_fundamental_div_mod_converse(l * 26 + j, 26, l, j);
}

/// The space segment numbers from `c` up to the last one, in order, leaving
/// out `left` and `above`.
pub open spec fn allowed_from(c: int, left: u32, above: u32) -> Seq<u32>
    decreases SPACE_MAP_COUNT + 1 - c,
{
    if c < 1 || c > SPACE_MAP_COUNT {
        Seq::empty()
    } else {
        let rest = allowed_from(c + 1, left, above);
        if c != left && c != above { seq![c as u32] + rest } else { rest }
    }
}

/// Every number in `allowed_from(c, ..)` is a space segment number from `c`
/// on that is neither neighbor, and at most two numbers are left out.
proof fn lemma_allowed_from(c: int, left: u32, above: u32)
    requires
        1 <= c <= SPACE_MAP_COUNT + 1,
    ensures
        forall|k: int| 0 <= k < allowed_from(c, left, above).len() ==> {
            let n = #[trigger] allowed_from(c, left, above)[k];
            c <= n <= SPACE_MAP_COUNT && n != left && n != above
        },
        allowed_from(c, left, above).len() + 2 >= SPACE_MAP_COUNT + 1 - c,
    decreases SPACE_MAP_COUNT + 1 - c,
{
    if c <= SPACE_MAP_COUNT {
        lemma_allowed_from(c + 1, left, above);
        let rest = allowed_from(c + 1, left, above);
        if c != left && c != above {
            assert forall|k: int| 0 <= k < allowed_from(c, left, above).len() implies {
                let n = #[trigger] allowed_from(c, left, above)[k];
                c <= n <= SPACE_MAP_COUNT && n != left && n != above
            } by {
                if k > 0 {
                    assert(allowed_from(c, left, above)[k] == rest[k - 1]);
                }
            }
        } else {
            assert(rest.len() + 1 >= SPACE_MAP_COUNT + 1 - (c + 1)) by {
                lemma_allowed_len_excludes(c + 1, left, above, c);
            }
        }
    }
}

/// Past a left-out number, at most one more can be left out.
proof fn lemma_allowed_len_excludes(c: int, left: u32, above: u32, gone: int)
    requires
        1 <= c <= SPACE_MAP_COUNT + 1,
        gone < c,
        gone == left || gone == above,
    ensures
        allowed_from(c, left, above).len() + 1 >= SPACE_MAP_COUNT + 1 - c,
    decreases SPACE_MAP_COUNT + 1 - c,
{
    if c <= SPACE_MAP_COUNT {
        lemma_allowed_len_excludes(c + 1, left, above, gone);
        if !(c != left && c != above) {
            lemma_allowed_len_none(c + 1, left, above, gone, c);
        }
    }
}

/// Past both left-out numbers, nothing more is left out.
proof fn lemma_allowed_len_none(c: int, left: u32, above: u32, g1: int, g2: int)
    requires
        1 <= c <= SPACE_MAP_COUNT + 1,
        g1 < c,
        g2 < c,
        (g1 == left && g2 == above) || (g1 == above && g2 == left) || (g1 == left && left == above),
    ensures
        allowed_from(c, left, above).len() >= SPACE_MAP_COUNT + 1 - c,
    decreases SPACE_MAP_COUNT + 1 - c,
{
    if c <= SPACE_MAP_COUNT {
        lemma_allowed_len_none(c + 1, left, above, g1, g2);
    }
}

/// The space segment numbers that may follow `left` (to the left) and `above`
/// (above), in increasing order (0 stands for "no neighbor").
pub fn space_choices(left: u32, above: u32) -> (r: Vec<u32>)
    ensures
        r@ == allowed_from(1, left, above),
        r@.len() >= SPACE_MAP_COUNT - 2,
{
    let mut rev: Vec<u32> = Vec::new();
    let mut c: u32 = SPACE_MAP_COUNT;
    while c >= 1
        invariant
            c <= SPACE_MAP_COUNT,
            rev@.len() == allowed_from(c + 1, left, above).len(),
            forall|k: int| 0 <= k < rev@.len() ==> #[trigger] rev@[k] == allowed_from(c + 1, left, above)[rev@.len() - 1 - k],
        decreases c,
    {
        let ghost before = rev@;
        if c != left && c != above {
            rev.push(c);
        }
        proof {
            let rest = allowed_from(c + 1, left, above);
            let now = allowed_from(c as int, left, above);
            assert forall|k: int| 0 <= k < rev@.len() implies #[trigger] rev@[k] == now[rev@.len() - 1 - k] by {
                if c != left && c != above {
                    if k < before.len() {
                        assert(now[rev@.len() - 1 - k] == rest[before.len() - 1 - k]);
                    }
                }
            }
        }
        c = c - 1;
    }
    let mut r: Vec<u32> = Vec::new();
    let mut i: usize = rev.len();
    while i > 0
        invariant
            i <= rev@.len(),
            rev@.len() == allowed_from(1, left, above).len(),
            forall|k: int| 0 <= k < rev@.len() ==> #[trigger] rev@[k] == allowed_from(1, left, above)[rev@.len() - 1 - k],
            r@ == allowed_from(1, left, above).subrange(0, rev@.len() - i),
        decreases i,
    {
        r.push(rev[i - 1]);
        i = i - 1;
        assert(r@ =~= allowed_from(1, left, above).subrange(0, rev@.len() - i));
    }
    proof {
        lemma_allowed_from(1, left, above);
        assert(r@ =~= allowed_from(1, left, above));
    }
    r
}

/// A space segment number other than `left` and `above`, uniformly at random
/// among [`space_choices`] (0 stands for "no neighbor"). This draws the same
/// distribution as redrawing a number from 1 to 8 until it differs from both.
pub fn pick_space(left: u32, above: u32) -> (n: u32)
    ensures
        1 <= n <= SPACE_MAP_COUNT,
        n != left,
        n != above,
        allowed_from(1, left, above).contains(n),
{
    let allowed = space_choices(left, above);
    let k = random_index(allowed.len());
    proof {
        lemma_allowed_from(1, left, above);
        assert(allowed@[k as int] == allowed_from(1, left, above)[k as int]);
    }
    allowed[k]
}

/// The whole map's segments, level by level from the bottom band's file
/// numbering (level 1 first), each band listed top row first.
pub fn map_layout() -> (r: Vec<Segment>)
    ensures
        r@.len() == LEVELS * SEGMENTS_PER_LEVEL,
        forall|i: int| 0 <= i < r@.len() ==> #[trigger] segment_ok(r@, i),
{
    let mut v: Vec<Segment> = Vec::new();
    let mut l: u32 = 0;
    while l < LEVELS
        invariant
            l <= LEVELS,
            v@.len() == l * 26,
            forall|i: int| 0 <= i < v@.len() ==> #[trigger] segment_ok(v@, i),
        decreases LEVELS - l,
    {
        let top: u32 = (LEVELS - 1 - l) * 13;
        let mut j: u32 = 0;
        while j < 10
            invariant
                l < LEVELS,
                top == band_top_row(l as int),
                j <= 10,
                v@.len() == l * 26 + j,
                forall|i: int| 0 <= i < v@.len() ==> #[trigger] segment_ok(v@, i),
            decreases 10 - j,
        {
            let seg = Segment {
                kind: SegmentKind::Chunk,
                number: l * 10 + j + 1,
                col: j % 2,
                row: top + j / 2,
            };
            let ghost before = v@;
            v.push(seg);
            assert forall|i: int| 0 <= i < v@.len() implies #[trigger] segment_ok(v@, i) by {
                if i < before.len() {
                    assert(segment_ok(before, i));
                    assert(v@[i] == before[i]);
                    if i >= 1 { assert(v@[i - 1] == before[i - 1]); }
                    if i >= 2 { assert(v@[i - 2] == before[i - 2]); }
                } else {
                    lemma_slot(l as int, j as int);
                }
            }
            j = j + 1;
        }
        let mut above0: u32 = 0;
        let mut above1: u32 = 0;
        let mut s: u32 = 0;
        while s < 16
            invariant
                l < LEVELS,
                top == band_top_row(l as int),
                s <= 16,
                s % 2 == 0,
                v@.len() == l * 26 + 10 + s,
                s >= 2 ==> above0 == v@[v@.len() - 2].number && above1 == v@[v@.len() - 1].number,
                s == 0 ==> above0 == 0 && above1 == 0,
                forall|i: int| 0 <= i < v@.len() ==> #[trigger] segment_ok(v@, i),
            decreases 16 - s,
        {
            let row = top + CHUNK_ROWS + s / 2;
            let n0 = pick_space(0, above0);
            let ghost before = v@;
            v.push(Segment { kind: SegmentKind::Space, number: n0, col: 0, row });
            assert forall|i: int| 0 <= i < v@.len() implies #[trigger] segment_ok(v@, i) by {
                if i < before.len() {
                    assert(segment_ok(before, i));
                    assert(v@[i] == before[i]);
                    if i >= 1 { assert(v@[i - 1] == before[i - 1]); }
                    if i >= 2 { assert(v@[i - 2] == before[i - 2]); }
                } else {
                    lemma_slot(l as int, 10 + s);
                }
            }
            let n1 = pick_space(n0, above1);
            let ghost before = v@;
            v.push(Segment { kind: SegmentKind::Space, number: n1, col: 1, row });
            assert forall|i: int| 0 <= i < v@.len() implies #[trigger] segment_ok(v@, i) by {
                if i < before.len() {
                    assert(segment_ok(before, i));
                    assert(v@[i] == before[i]);
                    if i >= 1 { assert(v@[i - 1] == before[i - 1]); }
                    if i >= 2 { assert(v@[i - 2] == before[i - 2]); }
                } else {
                    lemma_slot(l as int, 10 + s + 1);
                }
            }
            above0 = n0;
            above1 = n1;
            s = s + 2;
        }
        l = l + 1;
    }
    v
}

/// The parts of a tile sheet the game reads: its name, how many tiles per
/// row, and the size of one tile in pixels.
#[derive(Debug)]
pub struct TilesetInfo {
    pub name: String,
    pub columns: u32,
    pub tile_width: u32,
    pub tile_height: u32,
}

/// Source rectangle of tile `id` in a sheet of `columns` tiles per row (a zero
/// column count counts as one).
pub open spec fn tile_rect_spec(columns: u32, tw: u32, th: u32, id: u32) -> PixelRect {
    let cols: int = if columns == 0 { 1 } else { columns as int };
    rect_at(((id as int) % cols) * tw, ((id as int) / cols) * th, tw as int, th as int)
}

/// Source rectangle (in image pixels) for a tile's local id within its sheet.
pub fn tile_rect(ts: &TilesetInfo, local_id: u32) -> (r: PixelRect)
    ensures
        r == tile_rect_spec(ts.columns, ts.tile_width, ts.tile_height, local_id),
{
    let cols: u32 = if ts.columns == 0 { 1 } else { ts.columns };
    let tw: u64 = ts.tile_width as u64;
    let th: u64 = ts.tile_height as u64;
    let cx: u64 = (local_id % cols) as u64;
    let cy: u64 = (local_id / cols) as u64;
    proof {
        assert(cx * tw + tw <= 0xffff_ffff * 0xffff_ffff + 0xffff_ffff) by (nonlinear_arith)
            requires
                cx <= 0xffff_ffff,
                tw <= 0xffff_ffff,
        ;
        assert(cy * th + th <= 0xffff_ffff * 0xffff_ffff + 0xffff_ffff) by (nonlinear_arith)
            requires
                cy <= 0xffff_ffff,
                th <= 0xffff_ffff,
        ;
    }
    let x = cx * tw;
    let y = cy * th;
    PixelRect { min_x: x, min_y: y, max_x: x + tw, max_y: y + th }
}

/// Whether a sheet is named `name`.
pub open spec fn named(ts: TilesetInfo, name: &str) -> bool {
    ts.name@ == name@
}

/// The local id of a destructible tile's destroyed look: usually the next
/// column; `building_3` packs its intact and destroyed 3x3 blocks side by
/// side, so its destroyed tile lies half the columns to the right.
pub open spec fn destroyed_id_spec(ts: TilesetInfo, id: u32) -> int {
    if named(ts, "building_3") { id + ts.columns / 2 } else { id + 1 }
}

/// The local tile id of a destructible tile's destroyed state.
pub fn destroyed_tile_id(ts: &TilesetInfo, local_id: u32) -> (r: u32)
    requires
        destroyed_id_spec(*ts, local_id) <= u32::MAX,
    ensures
        r == destroyed_id_spec(*ts, local_id),
{
    if same_text(ts.name.as_str(), "building_3") {
        local_id + ts.columns / 2
    } else {
        local_id + 1
    }
}

/// The per-hit frames of a destructible prop, ending on its destroyed look
/// (one per hit point). `unit_2` has real intermediate frames (the next three
/// tiles); every other prop shows its intact tile until the last hit swaps in
/// the destroyed tile.
pub open spec fn stages_spec(ts: TilesetInfo, id: u32, stages: Seq<PixelRect>) -> bool {
    let t = |k: int| tile_rect_spec(ts.columns, ts.tile_width, ts.tile_height, k as u32);
    &&& stages.len() == DESTRUCTIBLE_HP
    &&& if named(ts, "unit_2") {
        forall|k: int| 0 <= k < DESTRUCTIBLE_HP ==> #[trigger] stages[k] == t(id + k + 1)
    } else {
        &&& forall|k: int| 0 <= k < DESTRUCTIBLE_HP - 1 ==> #[trigger] stages[k] == t(id as int)
        &&& stages[DESTRUCTIBLE_HP - 1] == t(destroyed_id_spec(ts, id))
    }
}

/// The sprite rectangles a destructible object cycles through as it is hit.
pub fn destruction_stages(ts: &TilesetInfo, local_id: u32) -> (r: Vec<PixelRect>)
    requires
        local_id + DESTRUCTIBLE_HP <= u32::MAX,
        destroyed_id_spec(*ts, local_id) <= u32::MAX,
    ensures
        stages_spec(*ts, local_id, r@),
{
    let mut stages: Vec<PixelRect> = Vec::new();
    if same_text(ts.name.as_str(), "unit_2") {
        let mut i: u32 = 1;
        while i <= DESTRUCTIBLE_HP
            invariant
                1 <= i <= DESTRUCTIBLE_HP + 1,
                local_id + DESTRUCTIBLE_HP <= u32::MAX,
                stages@.len() == i - 1,
                forall|k: int| 0 <= k < i - 1 ==> #[trigger] stages@[k] == tile_rect_spec(ts.columns, ts.tile_width, ts.tile_height, (local_id + k + 1) as u32),
            decreases DESTRUCTIBLE_HP + 1 - i,
        {
            stages.push(tile_rect(ts, local_id + i));
            i = i + 1;
        }
    } else {
        let intact = tile_rect(ts, local_id);
        let mut i: u32 = 0;
        while i < DESTRUCTIBLE_HP - 1
            invariant
                i <= DESTRUCTIBLE_HP - 1,
                stages@.len() == i,
                forall|k: int| 0 <= k < i ==> #[trigger] stages@[k] == intact,
            decreases DESTRUCTIBLE_HP - 1 - i,
        {
            stages.push(intact);
            i = i + 1;
        }
        stages.push(tile_rect(ts, destroyed_tile_id(ts, local_id)));
    }
    stages
}

/// True for sheet names whose objects assemble into a multi-part truck.
pub fn is_truck(tileset_name: &str) -> (r: bool)
    ensures
        r == (tileset_name@ == "truck_empty"@ || tileset_name@ == "truck_loaded"@),
{
    same_text(tileset_name, "truck_empty") || same_text(tileset_name, "truck_loaded")
}

} // verus!
