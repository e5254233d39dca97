//! Which UFO types a level fields. Level 1 has none, and every later level
//! unlocks one more saucer type, up to all the art there is; each swarm picks
//! one unlocked type at random. (UFO flight is floating-point steering left
//! to the game shell.)
use vstd::prelude::*;
use crate::random::random_index;

verus! {

/// UFO types unlocked on `level` (1-based) with `available` types of art.
pub open spec fn unlocked_spec(level: u32, available: usize) -> nat {
    let l: nat = if level == 0 { 0 } else { (level - 1) as nat };
    if l < available { l } else { available as nat }
}

/// How many UFO types `level` fields.
pub fn unlocked_ufo_types(level: u32, available: usize) -> (n: usize)
    ensures
        n == unlocked_spec(level, available),
{
    let l: u32 = if level == 0 { 0 } else { level - 1 };
    if (l as u64) < (available as u64) {
        l as usize
    } else {
        available
    }
}

/// The art for a new swarm: none when the level fields no UFOs, else one of
/// the unlocked types at random.
pub fn pick_ufo(level: u32, available: usize) -> (r: Option<usize>)
    ensures
        unlocked_spec(level, available) == 0 <==> r is None,
        r matches Some(i) ==> i < unlocked_spec(level, available),
{
    let n = unlocked_ufo_types(level, available);
    if n == 0 {
        None
    } else {
        Some(random_index(n))
    }
}

/// Level 1 (and a level number of 0) fields no UFO types; each level after
/// it unlocks exactly one more type while art remains, and once every type
/// is unlocked later levels keep them all. The count never passes the art
/// there is, and a level never has more types than levels behind it.
pub proof fn lemma_one_more_type_per_level(level: u32, available: usize)
    ensures
        unlocked_spec(0, available) == 0,
        unlocked_spec(1, available) == 0,
        unlocked_spec(level, available) <= available,
        level >= 1 ==> unlocked_spec(level, available) <= level - 1,
        1 <= level < u32::MAX && level <= available ==> unlocked_spec((level + 1) as u32, available) == unlocked_spec(level, available) + 1,
        1 <= level < u32::MAX && level > available ==> unlocked_spec((level + 1) as u32, available) == available,
{
}

} // verus!
