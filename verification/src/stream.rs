use vstd::prelude::*;
use crate::codec::BeamPoint;
use crate::codec::dac_matches;
use crate::codec::encode;
use crate::codec::encode_spec;
use crate::oscillator::Cycle;
use crate::playback::Playback;

verus! {

/// The full-white demo point the oscillator traces: position
/// `(value, 0)`, every color channel at full power, not blank.
pub open spec fn demo_point(value: i16) -> BeamPoint {
    BeamPoint { x: value, y: 0, r: 255, g: 255, b: 255, is_blank: false }
}

/// The pull-based callback body for file-driven playback: produce exactly
/// `n` encoded DAC points in playback order, advancing the machine as `n`
/// single requests would.
pub fn fill_buffer(machine: &mut Playback, n: usize) -> (buf: Vec<lase::Point>)
    requires
        old(machine).wf(),
    ensures
        final(machine).wf(),
        buf@.len() == n,
        forall|i: int|
            0 <= i < n ==> dac_matches(
                #[trigger] buf@[i],
                encode_spec(old(machine).stream(n as nat)[i]),
            ),
        *final(machine) == old(machine).run(n as nat),
{
    let raw = machine.next_points(n);
    let mut buf: Vec<lase::Point> = Vec::new();
    let mut i: usize = 0;
    while i < n
        invariant
            0 <= i <= n,
            raw@.len() == n,
            raw@ == old(machine).stream(n as nat),
            buf@.len() == i,
            forall|j: int|
                0 <= j < i ==> dac_matches(#[trigger] buf@[j], encode_spec(raw@[j])),
        decreases n - i,
    {
        let d = encode(&raw[i]);
        buf.push(d);
        i = i + 1;
    }
    buf
}

/// The pull-based callback body for synthetic demo motion: advance the
/// oscillator once per point and emit, for each of the `n` requested
/// points, the full-white demo point at the oscillator's new value.
pub fn fill_demo_buffer(cycle: &mut Cycle, step: i16, n: usize) -> (buf: Vec<lase::Point>)
    requires
        old(cycle).wf(),
        step >= 0,
    ensures
        final(cycle).wf(),
        buf@.len() == n,
        forall|i: int|
            0 <= i < n ==> dac_matches(
                #[trigger] buf@[i],
                encode_spec(demo_point(old(cycle).run_same(step, (i + 1) as nat).value)),
            ),
        *final(cycle) == old(cycle).run_same(step, n as nat),
{
    let ghost c0 = *cycle;
    let mut buf: Vec<lase::Point> = Vec::new();
    let mut i: usize = 0;
    while i < n
        invariant
            0 <= i <= n,
            cycle.wf(),
            step >= 0,
            buf@.len() == i,
            *cycle == c0.run_same(step, i as nat),
            forall|j: int|
                0 <= j < i ==> dac_matches(
                    #[trigger] buf@[j],
                    encode_spec(demo_point(c0.run_same(step, (j + 1) as nat).value)),
                ),
        decreases n - i,
    {
        proof {
            c0.lemma_run_same_snoc(step, i as nat);
        }
        cycle.count(step);
        let p = BeamPoint { x: cycle.value, y: 0, r: 255, g: 255, b: 255, is_blank: false };
        let d = encode(&p);
        buf.push(d);
        i = i + 1;
    }
    buf
}

} // verus!
