use vstd::prelude::*;

use crate::pulse::{ring_phases, ring_sequence, Phase};

verus! {

/// Cycle count of the ring submitted once at startup as a hardware check.
pub const STARTUP_RING_COUNT: u32 = 8;

/// Cycle count submitted for each confirmed press of the call button.
pub const BUTTON_RING_COUNT: u32 = 4;

/// Cycle count submitted by the chime scheduler on each hourly chime.
pub const CHIME_RING_COUNT: u32 = 2;

/// Serializes ring commands from several producers in front of the
/// ring-pulse generator.  Commands wait in a FIFO queue; the single consumer
/// takes them one at a time, so no two ring sequences ever overlap and no
/// command submitted while another is ringing is dropped or merged.
///
/// `pending` holds the submitted counts not yet rung, oldest first;
/// `completed` records the counts already rung, in the order they rang.
pub struct RingerService {
    pending: Vec<u32>,
    completed: Vec<u32>,
}

impl RingerService {
    /// The submitted counts that still wait to ring, oldest first.
    pub closed spec fn pending(&self) -> Seq<u32> {
        self.pending@
    }

    /// The counts already rung, in the order they rang.
    pub closed spec fn completed(&self) -> Seq<u32> {
        self.completed@
    }

    /// Starts the service.  One command with [`STARTUP_RING_COUNT`] is
    /// already queued: the startup self-test rings before anything a user
    /// submits afterwards.
    pub fn new() -> (s: Self)
        ensures
            s.pending() == seq![STARTUP_RING_COUNT],
            s.completed() == Seq::<u32>::empty(),
    {
        let mut pending: Vec<u32> = Vec::new();
        pending.push(STARTUP_RING_COUNT);
        let s = RingerService { pending, completed: Vec::new() };
        proof {
            assert(s.pending() =~= seq![STARTUP_RING_COUNT]);
            assert(s.completed() =~= Seq::<u32>::empty());
        }
        s
    }

    /// Enqueues one ring command and returns at once.  The command goes to
    /// the back of the queue; nothing already queued is dropped or changed.
    pub fn submit(&mut self, count: u32)
        ensures
            final(self).pending() == old(self).pending().push(count),
            final(self).completed() == old(self).completed(),
    {
        self.pending.push(count);
    }

    /// Takes the oldest pending command, if any, and hands back the full
    /// drive sequence to perform for it.  Exactly that one command leaves
    /// the queue and is recorded as completed; the rest keep their order.
    pub fn process_next(&mut self) -> (r: Option<Vec<Phase>>)
        ensures
            old(self).pending().len() == 0 ==> {
                &&& r is None
                &&& final(self).pending() == old(self).pending()
                &&& final(self).completed() == old(self).completed()
            },
            old(self).pending().len() > 0 ==> {
                &&& r matches Some(plan) && plan@ == ring_phases(old(self).pending()[0] as nat)
                &&& final(self).pending() == old(self).pending().drop_first()
                &&& final(self).completed() == old(self).completed().push(
                    old(self).pending()[0],
                )
            },
    {
        if self.pending.len() == 0 {
            None
        } else {
            let count = self.pending.remove(0);
            self.completed.push(count);
            proof {
                assert(self.pending@ =~= old(self).pending().drop_first());
            }
            Some(ring_sequence(count))
        }
    }
}

/// Submits the fixed-count ring command for a confirmed call-button press.
/// The button's interrupt reaction must not block: it enqueues and returns.
pub fn button_pressed(service: &mut RingerService)
    ensures
        final(service).pending() == old(service).pending().push(BUTTON_RING_COUNT),
        final(service).completed() == old(service).completed(),
{
    service.submit(BUTTON_RING_COUNT);
}

/// Submits the fixed-count ring command for an hourly chime.
pub fn chime_fired(service: &mut RingerService)
    ensures
        final(service).pending() == old(service).pending().push(CHIME_RING_COUNT),
        final(service).completed() == old(service).completed(),
{
    service.submit(CHIME_RING_COUNT);
}

/// Everything a queue in state `pending` will drive onto the outputs once
/// the consumer drains it: the full sequence of each command, one after the
/// other, in submission order.
pub open spec fn drain_output(pending: Seq<u32>) -> Seq<Phase>
    decreases pending.len(),
{
    if pending.len() == 0 {
        Seq::empty()
    } else {
        ring_phases(pending[0] as nat) + drain_output(pending.drop_first())
    }
}

/// Law: ring commands submitted while earlier commands are queued or ringing
/// are not dropped.  Submitting `a` then `b` behind any pending queue makes
/// the drained output exactly the output of the old queue, then the whole
/// sequence for `a`, then the whole sequence for `b`: the two are never
/// interleaved and never merged into one longer ring.
pub proof fn lemma_commands_never_dropped_or_merged(pending: Seq<u32>, a: u32, b: u32)
    ensures
        drain_output(pending.push(a).push(b)) == drain_output(pending) + ring_phases(a as nat)
            + ring_phases(b as nat),
    decreases pending.len(),
{
    if pending.len() == 0 {
        assert(drain_output(pending) == Seq::<Phase>::empty());
        assert(pending.push(a).push(b).drop_first() =~= seq![b]);
        assert(seq![b].drop_first() =~= Seq::<u32>::empty());
        assert(drain_output(seq![b].drop_first()) == Seq::<Phase>::empty());
        assert(drain_output(seq![b]) == ring_phases(b as nat) + drain_output(
            seq![b].drop_first(),
        ));
        assert(drain_output(pending.push(a).push(b)) =~= drain_output(pending) + ring_phases(
            a as nat,
        ) + ring_phases(b as nat));
    } else {
        assert(pending.push(a).push(b).drop_first() =~= pending.drop_first().push(a).push(b));
        lemma_commands_never_dropped_or_merged(pending.drop_first(), a, b);
        assert(drain_output(pending.push(a).push(b)) =~= drain_output(pending) + ring_phases(
            a as nat,
        ) + ring_phases(b as nat));
    }
}

/// The queue after the commands in `submitted` have been enqueued one by
/// one, oldest first, behind what `pending` already held.
pub open spec fn submit_all(pending: Seq<u32>, submitted: Seq<u32>) -> Seq<u32>
    decreases submitted.len(),
{
    if submitted.len() == 0 {
        pending
    } else {
        submit_all(pending.push(submitted[0]), submitted.drop_first())
    }
}

proof fn lemma_submit_all_keeps_head(pending: Seq<u32>, submitted: Seq<u32>)
    requires
        pending.len() > 0,
    ensures
        submit_all(pending, submitted).len() >= pending.len(),
        submit_all(pending, submitted)[0] == pending[0],
    decreases submitted.len(),
{
    if submitted.len() > 0 {
        lemma_submit_all_keeps_head(pending.push(submitted[0]), submitted.drop_first());
    }
}

/// Law: the startup self-test rings first.  A fresh service queues exactly
/// one command, with [`STARTUP_RING_COUNT`]; whatever commands producers
/// then submit, that command stays at the head of the queue, so the first
/// command the consumer processes is the self-test.
pub proof fn lemma_startup_self_test_first(submitted: Seq<u32>)
    ensures
        submit_all(seq![STARTUP_RING_COUNT], submitted).len() > 0,
        submit_all(seq![STARTUP_RING_COUNT], submitted)[0] == STARTUP_RING_COUNT,
{
    lemma_submit_all_keeps_head(seq![STARTUP_RING_COUNT], submitted);
}

} // verus!
