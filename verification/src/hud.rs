//! The segmented health bar: two end/cap pieces and a middle cap, then the
//! repeating piece for the rest, one segment per point of maximum health.
//! A segment shows its filled art while its index is below current health.
use vstd::prelude::*;
use crate::combat::MAX_HEALTH;

verus! {

/// Which piece of art a health segment uses.
#[derive(Clone, Copy, Debug, PartialEq, Eq, Structural)]
pub enum SegmentArt {
    First,
    Second,
    Third,
    Repeat,
}

/// One health segment: its art and opaque width in native pixels (segments
/// are cropped to it so they abut with no gap).
#[derive(Clone, Copy, Debug, PartialEq, Eq, Structural)]
pub struct HealthSegment {
    pub art: SegmentArt,
    pub width: u32,
}

/// The health bar's segments, in order.
pub fn health_segments() -> (r: Vec<HealthSegment>)
    ensures
        r@.len() == MAX_HEALTH,
        r@[0] == (HealthSegment { art: SegmentArt::First, width: 7 }),
        r@[1] == (HealthSegment { art: SegmentArt::Second, width: 6 }),
        r@[2] == (HealthSegment { art: SegmentArt::Third, width: 6 }),
        forall|i: int| 3 <= i < MAX_HEALTH ==> #[trigger] r@[i] == (HealthSegment { art: SegmentArt::Repeat, width: 6 }),
{
    let mut cells: Vec<HealthSegment> = Vec::new();
    cells.push(HealthSegment { art: SegmentArt::First, width: 7 });
    cells.push(HealthSegment { art: SegmentArt::Second, width: 6 });
    cells.push(HealthSegment { art: SegmentArt::Third, width: 6 });
    let mut i: u32 = 3;
    while i < MAX_HEALTH
        invariant
            3 <= i <= MAX_HEALTH,
            cells@.len() == i,
            cells@[0] == (HealthSegment { art: SegmentArt::First, width: 7 }),
            cells@[1] == (HealthSegment { art: SegmentArt::Second, width: 6 }),
            cells@[2] == (HealthSegment { art: SegmentArt::Third, width: 6 }),
            forall|k: int| 3 <= k < i ==> #[trigger] cells@[k] == (HealthSegment { art: SegmentArt::Repeat, width: 6 }),
        decreases MAX_HEALTH - i,
    {
        cells.push(HealthSegment { art: SegmentArt::Repeat, width: 6 });
        i = i + 1;
    }
    cells
}

/// Whether segment `index` shows its filled art at `health`.
pub fn segment_full(index: u32, health: u32) -> (r: bool)
    ensures
        r == (index < health),
{
    index < health
}

} // verus!
