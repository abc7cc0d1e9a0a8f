//! Settling rule: withholds rendering until the population of record
//! identities has stopped growing for three rounds.

use vstd::prelude::*;

verus! {

/// The detector as a mathematical value.
pub ghost struct Settling {
    /// Rendering is allowed.
    pub settled: bool,
    /// Quiet cycles counted since the population last grew.
    pub seen: nat,
    /// Quiet cycles asked for before the snapshot is trusted.
    pub required: nat,
}

/// The state right after the population has grown to `count` identities (and
/// the state a detector starts in): unsettled, counting from zero towards
/// three times the population.
pub open spec fn restarted(count: nat) -> Settling {
    Settling { settled: false, seen: 0, required: 3 * count }
}

/// The state after one ingestion cycle. `grew` says whether the cycle added
/// an identity, `count` how many identities there are after it.
pub open spec fn next(m: Settling, grew: bool, count: nat) -> Settling {
    if grew {
        restarted(count)
    } else if m.settled {
        m
    } else {
        Settling { settled: m.seen + 1 >= m.required, seen: m.seen + 1, required: m.required }
    }
}

/// The state after `k` cycles in a row that add no identity.
pub open spec fn after_quiet(m: Settling, k: nat) -> Settling
    decreases k,
{
    if k == 0 {
        m
    } else {
        next(after_quiet(m, (k - 1) as nat), false, 0)
    }
}

/// Debounce state of the snapshot.
pub struct SettlingDetector {
    is_settled: bool,
    stable_seen: u128,
    stable_required: u128,
}

impl View for SettlingDetector {
    type V = Settling;

    closed spec fn view(&self) -> Settling {
        Settling {
            settled: self.is_settled,
            seen: self.stable_seen as nat,
            required: self.stable_required as nat,
        }
    }
}

impl SettlingDetector {
    /// The counters are within what a run can reach.
    pub closed spec fn wf(&self) -> bool {
        &&& self.stable_required <= 3 * usize::MAX
        &&& !self.is_settled ==> self.stable_seen <= self.stable_required
    }

    /// A detector for a store that starts with `count` identities.
    pub fn new(count: usize) -> (d: SettlingDetector)
        ensures
            d.wf(),
            d@ == restarted(count as nat),
    {
        SettlingDetector { is_settled: false, stable_seen: 0, stable_required: 3 * (count as u128) }
    }

    /// Whether the snapshot may be rendered.
    pub fn is_settled(&self) -> (b: bool)
        ensures
            b == self@.settled,
    {
        self.is_settled
    }

    /// Accounts for one ingestion cycle: `grew` says whether it added an
    /// identity, `count` how many identities the store holds after it.
    pub fn observe(&mut self, grew: bool, count: usize)
        requires
            old(self).wf(),
        ensures
            final(self).wf(),
            final(self)@ == next(old(self)@, grew, count as nat),
    {
        if grew {
            self.is_settled = false;
            self.stable_seen = 0;
            self.stable_required = 3 * (count as u128);
        } else if !self.is_settled {
            self.stable_seen = self.stable_seen + 1;
            if self.stable_seen >= self.stable_required {
                self.is_settled = true;
            }
        }
    }
}

/// While fewer quiet cycles than asked for have passed, the detector is
/// unsettled and has counted each of them.
pub proof fn lemma_unsettled_before_target(count: nat, k: nat)
    requires
        k < 3 * count,
    ensures
        after_quiet(restarted(count), k) == (Settling {
            settled: false,
            seen: k,
            required: 3 * count,
        }),
    decreases k,
{
    if k > 0 {
        lemma_unsettled_before_target(count, (k - 1) as nat);
    }
}

/// After `count` identities have arrived, the detector becomes settled
/// exactly at the quiet cycle numbered three times `count`, and not before.
pub proof fn lemma_settles_at_target(count: nat)
    requires
        count > 0,
    ensures
        after_quiet(restarted(count), 3 * count).settled,
        after_quiet(restarted(count), 3 * count).seen == 3 * count,
        forall|k: nat| k < 3 * count ==> !(#[trigger] after_quiet(restarted(count), k)).settled,
{
    lemma_unsettled_before_target(count, (3 * count - 1) as nat);
    assert forall|k: nat| k < 3 * count implies !(#[trigger] after_quiet(
        restarted(count),
        k,
    )).settled by {
        lemma_unsettled_before_target(count, k);
    }
}

/// Quiet cycles add up.
pub proof fn lemma_quiet_cycles_add(m: Settling, j: nat, k: nat)
    ensures
        after_quiet(m, j + k) == after_quiet(after_quiet(m, j), k),
    decreases k,
{
    if k > 0 {
        lemma_quiet_cycles_add(m, j, (k - 1) as nat);
        assert((j + k - 1) as nat == j + (k - 1) as nat);
    }
}

/// Once settled, quiet cycles change nothing.
pub proof fn lemma_settled_stays(m: Settling, k: nat)
    requires
        m.settled,
    ensures
        after_quiet(m, k) == m,
    decreases k,
{
    if k > 0 {
        lemma_settled_stays(m, (k - 1) as nat);
    }
}

/// A cycle that adds an identity unsettles the detector, whatever state it
/// was in, and asks for three quiet cycles per identity now present.
pub proof fn lemma_growth_unsettles(m: Settling, count: nat)
    ensures
        !next(m, true, count).settled,
        next(m, true, count).seen == 0,
        next(m, true, count).required == 3 * count,
{
}

} // verus!
