use vstd::prelude::*;

verus! {

/// Draws that an octave left out of the requested set consumes from the
/// random source, so that the stream position after construction does not
/// depend on which octaves of the span were requested.
pub const OCTAVE_SKIP_DRAWS: i32 = 262;

/// What construction does for one octave of the span.
#[derive(Clone, Copy, PartialEq, Eq, Structural, Debug)]
pub enum OctaveStep {
    /// Build a sampler for this octave from the next draws of the source.
    Build(i32),
    /// Advance the source by `OCTAVE_SKIP_DRAWS` draws.
    Skip,
}

/// The contiguous octave span from the lowest to the highest requested
/// octave, with one step per octave in increasing order. Step `t` belongs to
/// octave `lowest + t`.
pub struct OctaveSchedule {
    pub lowest: i32,
    pub highest: i32,
    pub steps: Vec<OctaveStep>,
}

/// `o` is one of the requested octaves.
pub open spec fn requested(octaves: Seq<i32>, o: int) -> bool {
    exists|k: int| 0 <= k < octaves.len() && octaves[k] as int == o
}

/// The step for octave `o`: build where it was requested, skip elsewhere.
pub open spec fn step_for(octaves: Seq<i32>, o: int) -> OctaveStep {
    if requested(octaves, o) {
        OctaveStep::Build(o as i32)
    } else {
        OctaveStep::Skip
    }
}

fn contains_octave(octaves: &Vec<i32>, o: i32) -> (r: bool)
    ensures
        r == requested(octaves@, o as int),
{
    let mut i: usize = 0;
    while i < octaves.len()
        invariant
            i <= octaves@.len(),
            forall|k: int| 0 <= k < i ==> octaves@[k] != o,
        decreases octaves@.len() - i,
    {
        if octaves[i] == o {
            return true;
        }
        i = i + 1;
    }
    false
}

/// Plans octave construction for a non-empty set of octave indices (which
/// may be negative and may repeat): one step per octave from the lowest to
/// the highest requested one.
pub fn octave_schedule(octaves: &Vec<i32>) -> (r: OctaveSchedule)
    requires
        octaves@.len() > 0,
    ensures
        requested(octaves@, r.lowest as int),
        requested(octaves@, r.highest as int),
        forall|k: int|
            0 <= k < octaves@.len() ==> r.lowest <= #[trigger] octaves@[k] <= r.highest,
        r.steps@.len() == r.highest - r.lowest + 1,
        forall|t: int|
            0 <= t < r.steps@.len() ==> #[trigger] r.steps@[t] == step_for(
                octaves@,
                r.lowest + t,
            ),
{
    let mut lowest = octaves[0];
    let mut highest = octaves[0];
    let mut i: usize = 1;
    while i < octaves.len()
        invariant
            1 <= i <= octaves@.len(),
            requested(octaves@, lowest as int),
            requested(octaves@, highest as int),
            forall|k: int| 0 <= k < i ==> lowest <= #[trigger] octaves@[k] <= highest,
        decreases octaves@.len() - i,
    {
        let o = octaves[i];
        if o < lowest {
            lowest = o;
        }
        if o > highest {
            highest = o;
        }
        i = i + 1;
    }
    let mut steps: Vec<OctaveStep> = Vec::new();
    let mut o: i64 = lowest as i64;
    while o <= highest as i64
        invariant
            lowest <= o <= highest as int + 1,
            steps@.len() == o - lowest,
            forall|t: int|
                0 <= t < steps@.len() ==> #[trigger] steps@[t] == step_for(
                    octaves@,
                    lowest + t,
                ),
        decreases highest as int + 1 - o,
    {
        let octave = o as i32;
        if contains_octave(octaves, octave) {
            steps.push(OctaveStep::Build(octave));
        } else {
            steps.push(OctaveStep::Skip);
        }
        o = o + 1;
    }
    OctaveSchedule { lowest, highest, steps }
}

} // verus!
