use vstd::prelude::*;

verus! {

/// Milliseconds each coil polarity is held during one drive cycle.
pub const PULSE_HOLD_MS: u64 = 15;

/// Milliseconds both coils rest between the two polarity pulses of a cycle.
pub const PULSE_REST_MS: u64 = 5;

/// Total length in milliseconds of one four-phase drive cycle.
pub const CYCLE_MS: u64 = 40;

/// One step of the ringer drive sequence: the levels to write on the enable
/// line and the two coil lines (`true` is driven high), and how long to hold
/// them before moving to the next step.
#[derive(Clone, Copy, Debug, PartialEq, Eq, Structural)]
pub struct Phase {
    pub enable: bool,
    pub coil_a: bool,
    pub coil_b: bool,
    pub hold_ms: u64,
}

/// The opening step: the enable line is raised before any coil activity.
pub open spec fn enable_phase() -> Phase {
    Phase { enable: true, coil_a: false, coil_b: false, hold_ms: 0 }
}

/// The closing step: both coils forced low and the enable line dropped.
pub open spec fn idle_phase() -> Phase {
    Phase { enable: false, coil_a: false, coil_b: false, hold_ms: 0 }
}

/// One four-phase H-bridge drive cycle.  The mechanical ringer needs
/// alternating polarity to advance the armature: coil A high then both low,
/// coil B high then both low, with the enable line held high throughout.
pub open spec fn drive_cycle() -> Seq<Phase> {
    seq![
        Phase { enable: true, coil_a: true, coil_b: false, hold_ms: PULSE_HOLD_MS },
        Phase { enable: true, coil_a: false, coil_b: false, hold_ms: PULSE_REST_MS },
        Phase { enable: true, coil_a: false, coil_b: true, hold_ms: PULSE_HOLD_MS },
        Phase { enable: true, coil_a: false, coil_b: false, hold_ms: PULSE_REST_MS },
    ]
}

/// `n` drive cycles laid end to end.
pub open spec fn drive_cycles(n: nat) -> Seq<Phase>
    decreases n,
{
    if n == 0 {
        Seq::empty()
    } else {
        drive_cycles((n - 1) as nat) + drive_cycle()
    }
}

/// The whole drive sequence for a ring command of `count` cycles: raise
/// enable, run the cycles, then force everything low again.
pub open spec fn ring_phases(count: nat) -> Seq<Phase> {
    seq![enable_phase()] + drive_cycles(count) + seq![idle_phase()]
}

/// Sum in milliseconds of the hold times of a drive sequence.
pub open spec fn duration_ms(s: Seq<Phase>) -> int
    decreases s.len(),
{
    if s.len() == 0 {
        0
    } else {
        duration_ms(s.drop_last()) + s.last().hold_ms
    }
}

/// Builds the drive sequence for one ring command.  The caller performs each
/// step in order: write the three levels, then hold them for `hold_ms`.
pub fn ring_sequence(count: u32) -> (r: Vec<Phase>)
    ensures
        r@ == ring_phases(count as nat),
{
    let mut v: Vec<Phase> = Vec::new();
    v.push(Phase { enable: true, coil_a: false, coil_b: false, hold_ms: 0 });
    proof {
        assert(v@ =~= seq![enable_phase()] + drive_cycles(0));
    }
    let mut i: u32 = 0;
    while i < count
        invariant
            i <= count,
            v@ == seq![enable_phase()] + drive_cycles(i as nat),
        decreases count - i,
    {
        v.push(Phase { enable: true, coil_a: true, coil_b: false, hold_ms: PULSE_HOLD_MS });
        v.push(Phase { enable: true, coil_a: false, coil_b: false, hold_ms: PULSE_REST_MS });
        v.push(Phase { enable: true, coil_a: false, coil_b: true, hold_ms: PULSE_HOLD_MS });
        v.push(Phase { enable: true, coil_a: false, coil_b: false, hold_ms: PULSE_REST_MS });
        i = i + 1;
        proof {
            assert(drive_cycles(i as nat) == drive_cycles((i - 1) as nat) + drive_cycle());
            assert(v@ =~= seq![enable_phase()] + drive_cycles(i as nat));
        }
    }
    v.push(Phase { enable: false, coil_a: false, coil_b: false, hold_ms: 0 });
    proof {
        assert(v@ =~= ring_phases(count as nat));
    }
    v
}

pub proof fn lemma_drive_cycles_len(n: nat)
    ensures
        drive_cycles(n).len() == 4 * n,
    decreases n,
{
    if n > 0 {
        lemma_drive_cycles_len((n - 1) as nat);
    }
}

/// Step `4 * k + j` of `n` concatenated cycles is step `j` of a single cycle.
pub proof fn lemma_drive_cycles_index(n: nat, k: nat, j: nat)
    requires
        k < n,
        j < 4,
    ensures
        drive_cycles(n).len() == 4 * n,
        drive_cycles(n)[4 * k + j as int] == drive_cycle()[j as int],
    decreases n,
{
    lemma_drive_cycles_len(n);
    lemma_drive_cycles_len((n - 1) as nat);
    if k + 1 < n {
        lemma_drive_cycles_index((n - 1) as nat, k, j);
    }
}

proof fn lemma_duration_add(a: Seq<Phase>, b: Seq<Phase>)
    ensures
        duration_ms(a + b) == duration_ms(a) + duration_ms(b),
    decreases b.len(),
{
    if b.len() == 0 {
        assert(a + b =~= a);
    } else {
        assert((a + b).drop_last() =~= a + b.drop_last());
        lemma_duration_add(a, b.drop_last());
    }
}

proof fn lemma_cycle_duration()
    ensures
        duration_ms(drive_cycle()) == CYCLE_MS,
{
    let c = drive_cycle();
    let c3 = c.drop_last();
    let c2 = c3.drop_last();
    let c1 = c2.drop_last();
    let c0 = c1.drop_last();
    assert(c0 =~= Seq::<Phase>::empty());
    assert(duration_ms(c0) == 0);
    assert(duration_ms(c1) == duration_ms(c0) + c1.last().hold_ms);
    assert(duration_ms(c2) == duration_ms(c1) + c2.last().hold_ms);
    assert(duration_ms(c3) == duration_ms(c2) + c3.last().hold_ms);
    assert(duration_ms(c) == duration_ms(c3) + c.last().hold_ms);
    assert(c1.last() == c[0] && c2.last() == c[1] && c3.last() == c[2] && c.last() == c[3]);
}

pub proof fn lemma_drive_cycles_duration(n: nat)
    ensures
        duration_ms(drive_cycles(n)) == n * CYCLE_MS,
    decreases n,
{
    if n == 0 {
    } else {
        lemma_drive_cycles_duration((n - 1) as nat);
        lemma_duration_add(drive_cycles((n - 1) as nat), drive_cycle());
        lemma_cycle_duration();
    }
}

/// Law: for every count, the drive sequence is exactly one enable step, then
/// `count` four-phase drive cycles of [`CYCLE_MS`] milliseconds each, then one
/// step with the coils and the enable line all low.  The coils are low before
/// the first cycle and after the last one.
pub proof fn lemma_ring_phases_shape(count: nat)
    ensures
        ring_phases(count).len() == 4 * count + 2,
        ring_phases(count)[0] == enable_phase(),
        ring_phases(count).last() == idle_phase(),
        forall|k: int|
            0 <= k < count ==> #[trigger] ring_phases(count).subrange(4 * k + 1, 4 * k + 5)
                == drive_cycle(),
        duration_ms(drive_cycle()) == CYCLE_MS,
        duration_ms(ring_phases(count)) == count * CYCLE_MS,
{
    lemma_drive_cycles_len(count);
    assert forall|k: int|
        0 <= k < count implies #[trigger] ring_phases(count).subrange(4 * k + 1, 4 * k + 5)
        == drive_cycle() by {
        lemma_drive_cycles_index(count, k as nat, 0);
        lemma_drive_cycles_index(count, k as nat, 1);
        lemma_drive_cycles_index(count, k as nat, 2);
        lemma_drive_cycles_index(count, k as nat, 3);
        assert(ring_phases(count).subrange(4 * k + 1, 4 * k + 5) =~= drive_cycle());
    }
    lemma_cycle_duration();
    lemma_drive_cycles_duration(count);
    lemma_duration_add(seq![enable_phase()], drive_cycles(count));
    lemma_duration_add(seq![enable_phase()] + drive_cycles(count), seq![idle_phase()]);
    assert(duration_ms(seq![enable_phase()]) == 0) by {
        assert(seq![enable_phase()].drop_last() =~= Seq::<Phase>::empty());
        assert(duration_ms(seq![enable_phase()].drop_last()) == 0);
        assert(seq![enable_phase()].last().hold_ms == 0);
    }
    assert(duration_ms(seq![idle_phase()]) == 0) by {
        assert(seq![idle_phase()].drop_last() =~= Seq::<Phase>::empty());
        assert(duration_ms(seq![idle_phase()].drop_last()) == 0);
        assert(seq![idle_phase()].last().hold_ms == 0);
    }
}

/// Law: a ring command of count zero asserts the enable line and immediately
/// de-asserts it, with no coil activity anywhere in the sequence.
pub proof fn lemma_ring_phases_zero()
    ensures
        ring_phases(0) == seq![enable_phase(), idle_phase()],
        forall|i: int|
            0 <= i < ring_phases(0).len() ==> !(#[trigger] ring_phases(0)[i]).coil_a
                && !ring_phases(0)[i].coil_b,
{
    assert(ring_phases(0) =~= seq![enable_phase(), idle_phase()]);
}

} // verus!
