//! Random choices: which record a label shows, and how it looks and moves.
use vstd::prelude::*;

verus! {

/// Relies on rand::thread_rng and rand::Rng::gen_range over an inclusive range:
/// a value between `low` and `high`, both included; the range must not be empty.
#[verifier::external_body]
fn random_between(low: u64, high: u64) -> (r: u64)
    requires
        low <= high,
    ensures
        low <= r <= high,
{
    rand::Rng::gen_range(&mut rand::thread_rng(), low..=high)
}

/// Smallest and largest size tier.
pub const MIN_TIER: u8 = 1;
pub const MAX_TIER: u8 = 4;

/// Bounds of the speed scale, in thousandths (0.8 to 1.5).
pub const MIN_SPEED_PERMILLE: u32 = 800;
pub const MAX_SPEED_PERMILLE: u32 = 1500;

/// Bounds of the vertical offset, in hundredths of a percent of the viewport
/// height (-5 to 100).
pub const MIN_OFFSET_HUNDREDTHS: i32 = -500;
pub const MAX_OFFSET_HUNDREDTHS: i32 = 10000;

/// How one label looks and moves: its size tier, the scale of its animation's
/// duration (in thousandths) and its vertical place (in hundredths of a percent).
#[derive(Clone, Copy, Debug, PartialEq, Eq, Structural)]
pub struct VisualParams {
    pub size_tier: u8,
    pub speed_permille: u32,
    pub offset_hundredths: i32,
}

impl VisualParams {
    /// Each field lies in its range.
    pub open spec fn wf(&self) -> bool {
        &&& MIN_TIER <= self.size_tier <= MAX_TIER
        &&& MIN_SPEED_PERMILLE <= self.speed_permille <= MAX_SPEED_PERMILLE
        &&& MIN_OFFSET_HUNDREDTHS <= self.offset_hundredths <= MAX_OFFSET_HUNDREDTHS
    }

    /// Parameters from their fields, where each lies in its range.
    pub fn new(size_tier: u8, speed_permille: u32, offset_hundredths: i32) -> (r: Option<VisualParams>)
        ensures
            r matches Some(p) ==> (p.size_tier == size_tier && p.speed_permille == speed_permille
                && p.offset_hundredths == offset_hundredths && p.wf()),
            r is Some <==> (VisualParams { size_tier, speed_permille, offset_hundredths }).wf(),
    {
        let p = VisualParams { size_tier, speed_permille, offset_hundredths };
        if MIN_TIER <= size_tier && size_tier <= MAX_TIER && MIN_SPEED_PERMILLE <= speed_permille
            && speed_permille <= MAX_SPEED_PERMILLE && MIN_OFFSET_HUNDREDTHS <= offset_hundredths
            && offset_hundredths <= MAX_OFFSET_HUNDREDTHS {
            Some(p)
        } else {
            None
        }
    }
}

/// A record index drawn at random from `0..count`; the store must not be empty.
pub fn sample_index(count: usize) -> (r: usize)
    requires
        count > 0,
    ensures
        r < count,
{
    random_between(0, (count - 1) as u64) as usize
}

/// Visual parameters drawn at random, each field from its own range.
pub fn sample_visual_params() -> (r: VisualParams)
    ensures
        r.wf(),
{
    let size_tier = random_between(MIN_TIER as u64, MAX_TIER as u64) as u8;
    let speed_permille = random_between(
        MIN_SPEED_PERMILLE as u64,
        MAX_SPEED_PERMILLE as u64,
    ) as u32;
    let span = (MAX_OFFSET_HUNDREDTHS - MIN_OFFSET_HUNDREDTHS) as u64;
    let offset_hundredths = random_between(0, span) as i32 + MIN_OFFSET_HUNDREDTHS;
    VisualParams { size_tier, speed_permille, offset_hundredths }
}

} // verus!
