//! Bookkeeping of the tether status indicator: which tethers the player has
//! attached, their display numbers, which have snapped, and whether the
//! player is still tethered. Each entry carries a gauge of the caller's
//! choosing (the indicator keeps tension and length there), which this
//! bookkeeping passes through untouched.

use vstd::prelude::*;

verus! {

/// Single tether display entry.
#[derive(Debug, Clone, Copy, PartialEq)]
pub struct TetherEntry<G> {
    /// Measurements shown for this tether.
    pub gauge: G,
    /// Whether the tether is broken.
    pub is_broken: bool,
    /// Tether number for display, counted from 1.
    pub id: u8,
}

/// Tether status indicator state.
#[derive(Debug, Clone, PartialEq)]
pub struct TetherStatus<G> {
    /// Currently attached tethers.
    pub tethers: Vec<TetherEntry<G>>,
    /// Whether the player is tethered to any anchor.
    pub is_tethered: bool,
    /// Total number of tether slots available.
    pub max_tethers: u8,
}

/// Some tether of the list is intact.
pub open spec fn any_intact<G>(tethers: Seq<TetherEntry<G>>) -> bool {
    exists|i: int| 0 <= i < tethers.len() && !(#[trigger] tethers[i]).is_broken
}

/// The number of intact tethers of the list.
pub open spec fn count_intact<G>(tethers: Seq<TetherEntry<G>>) -> nat
    decreases tethers.len(),
{
    if tethers.len() == 0 {
        0
    } else {
        count_intact(tethers.drop_last()) + if tethers.last().is_broken { 0nat } else { 1nat }
    }
}

/// The same tethers, numbered 1, 2, 3, ... in order.
pub open spec fn renumbered<G>(tethers: Seq<TetherEntry<G>>) -> Seq<TetherEntry<G>> {
    Seq::new(tethers.len(), |i: int| TetherEntry { id: (i + 1) as u8, ..tethers[i] })
}

/// The list with the tether at `index` marked broken.
pub open spec fn marked_broken<G>(tethers: Seq<TetherEntry<G>>, index: int) -> Seq<TetherEntry<G>> {
    tethers.update(index, TetherEntry { is_broken: true, ..tethers[index] })
}

impl<G> TetherStatus<G> {
    /// The indicator is consistent: no more tethers than slots, tethers
    /// numbered 1, 2, 3, ... in order, and the player counts as tethered
    /// exactly when some tether is intact.
    pub open spec fn well_formed(&self) -> bool {
        &&& self.tethers@.len() <= self.max_tethers
        &&& forall|i: int| 0 <= i < self.tethers@.len() ==> (#[trigger] self.tethers@[i]).id == i + 1
        &&& self.is_tethered == any_intact(self.tethers@)
    }

    /// Create a new tether status with the given number of slots.
    pub fn new(max_tethers: u8) -> (s: Self)
        ensures
            s.tethers@ == Seq::<TetherEntry<G>>::empty(),
            !s.is_tethered,
            s.max_tethers == max_tethers,
            s.well_formed(),
    {
        Self { tethers: Vec::new(), is_tethered: false, max_tethers }
    }

    /// Add a tether connection with the given gauge, if a slot is free. The
    /// new tether is intact and numbered after the others.
    pub fn add_entry(&mut self, gauge: G)
        ensures
            final(self).max_tethers == old(self).max_tethers,
            old(self).tethers@.len() < old(self).max_tethers ==> {
                &&& final(self).tethers@ == old(self).tethers@.push(
                    TetherEntry { gauge, is_broken: false, id: (old(self).tethers@.len() + 1) as u8 },
                )
                &&& final(self).is_tethered
            },
            old(self).tethers@.len() >= old(self).max_tethers ==> *final(self) == *old(self),
            old(self).well_formed() ==> final(self).well_formed(),
    {
        if self.tethers.len() < self.max_tethers as usize {
            let id = self.tethers.len() as u8 + 1;
            self.tethers.push(TetherEntry { gauge, is_broken: false, id });
            self.is_tethered = true;
            proof {
                let n = self.tethers@.len() - 1;
                assert(!self.tethers@[n].is_broken);
            }
        }
    }

    /// Mark a tether as broken; whether the player is still tethered is
    /// worked out again.
    pub fn break_tether(&mut self, index: usize)
        ensures
            final(self).max_tethers == old(self).max_tethers,
            final(self).tethers@ == if index < old(self).tethers@.len() {
                marked_broken(old(self).tethers@, index as int)
            } else {
                old(self).tethers@
            },
            final(self).is_tethered == any_intact(final(self).tethers@),
            old(self).well_formed() ==> final(self).well_formed(),
    {
        if index < self.tethers.len() {
            let mut entry = self.tethers.remove(index);
            entry.is_broken = true;
            self.tethers.insert(index, entry);
            proof {
                assert(self.tethers@ =~= marked_broken(old(self).tethers@, index as int));
            }
        }
        self.update_tethered_state();
    }

    /// Remove a tether; the remaining ones are numbered 1, 2, 3, ... again,
    /// and whether the player is still tethered is worked out again.
    pub fn remove_tether(&mut self, index: usize)
        requires
            index < old(self).tethers@.len() ==> old(self).tethers@.len() <= 256,
        ensures
            final(self).max_tethers == old(self).max_tethers,
            final(self).tethers@ == if index < old(self).tethers@.len() {
                renumbered(old(self).tethers@.remove(index as int))
            } else {
                old(self).tethers@
            },
            final(self).is_tethered == any_intact(final(self).tethers@),
            old(self).well_formed() ==> final(self).well_formed(),
    {
        if index < self.tethers.len() {
            self.tethers.remove(index);
            let ghost removed = self.tethers@;
            let n = self.tethers.len();
            let mut i: usize = 0;
            while i < n
                invariant
                    n == removed.len(),
                    n < 256,
                    i <= n,
                    self.tethers@.len() == n,
                    self.max_tethers == old(self).max_tethers,
                    forall|j: int| 0 <= j < i ==> #[trigger] self.tethers@[j] == renumbered(removed)[j],
                    forall|j: int| i <= j < n ==> #[trigger] self.tethers@[j] == removed[j],
                decreases n - i,
            {
                let mut entry = self.tethers.remove(i);
                entry.id = i as u8 + 1;
                self.tethers.insert(i, entry);
                i = i + 1;
            }
            proof {
                assert(self.tethers@ =~= renumbered(removed));
                if old(self).well_formed() {
                    assert(self.tethers@.len() <= self.max_tethers);
                }
            }
        }
        self.update_tethered_state();
        proof {
            if old(self).well_formed() && index >= old(self).tethers@.len() {
                assert(self.tethers@ == old(self).tethers@);
            }
        }
    }

    /// Clear all tethers.
    pub fn clear(&mut self)
        ensures
            final(self).tethers@ == Seq::<TetherEntry<G>>::empty(),
            !final(self).is_tethered,
            final(self).max_tethers == old(self).max_tethers,
            final(self).well_formed(),
    {
        self.tethers = Vec::new();
        self.is_tethered = false;
    }

    /// Get count of intact tethers.
    pub fn intact_count(&self) -> (n: usize)
        ensures
            n == count_intact(self.tethers@),
    {
        let mut count: usize = 0;
        let mut i: usize = 0;
        while i < self.tethers.len()
            invariant
                i <= self.tethers@.len(),
                count == count_intact(self.tethers@.subrange(0, i as int)),
                count <= i,
            decreases self.tethers@.len() - i,
        {
            proof {
                assert(self.tethers@.subrange(0, i + 1).drop_last() =~= self.tethers@.subrange(0, i as int));
            }
            if !self.tethers[i].is_broken {
                count = count + 1;
            }
            i = i + 1;
        }
        assert(self.tethers@.subrange(0, i as int) =~= self.tethers@);
        count
    }

    fn update_tethered_state(&mut self)
        ensures
            final(self).tethers == old(self).tethers,
            final(self).max_tethers == old(self).max_tethers,
            final(self).is_tethered == any_intact(final(self).tethers@),
    {
        let mut found = false;
        let mut i: usize = 0;
        while i < self.tethers.len()
            invariant
                i <= self.tethers@.len(),
                found == exists|j: int| 0 <= j < i && !(#[trigger] self.tethers@[j]).is_broken,
            decreases self.tethers@.len() - i,
        {
            if !self.tethers[i].is_broken {
                found = true;
            }
            i = i + 1;
        }
        self.is_tethered = found;
    }
}

impl<G> Default for TetherStatus<G> {
    fn default() -> (s: Self)
        ensures
            s.tethers@ == Seq::<TetherEntry<G>>::empty(),
            !s.is_tethered,
            s.max_tethers == 4,
    {
        Self::new(4)
    }
}

/// The intact count of a list is the number of its entries that are not
/// broken: appending an intact tether raises it by one, appending a broken
/// one leaves it, and a list with no broken tether counts all its entries.
pub proof fn lemma_intact_count_counts_unbroken<G>(tethers: Seq<TetherEntry<G>>, e: TetherEntry<G>)
    ensures
        count_intact(tethers) == tethers.filter(|t: TetherEntry<G>| !t.is_broken).len(),
        count_intact(tethers.push(e)) == count_intact(tethers) + if e.is_broken { 0int } else { 1int },
        (forall|i: int| 0 <= i < tethers.len() ==> !(#[trigger] tethers[i]).is_broken)
            ==> count_intact(tethers) == tethers.len(),
    decreases tethers.len(),
{
    reveal(Seq::filter);
    assert(tethers.push(e).drop_last() =~= tethers);
    if tethers.len() > 0 {
        let init = tethers.drop_last();
        lemma_intact_count_counts_unbroken(init, tethers.last());
        if forall|i: int| 0 <= i < tethers.len() ==> !(#[trigger] tethers[i]).is_broken {
            assert forall|i: int| 0 <= i < init.len() implies !(#[trigger] init[i]).is_broken by {
                assert(!tethers[i].is_broken);
            }
            assert(!tethers[tethers.len() - 1].is_broken);
        }
    }
}

/// The player counts as tethered exactly when the count of intact tethers is
/// positive, and that count never exceeds the number of tethers.
pub proof fn lemma_tethered_iff_intact<G>(tethers: Seq<TetherEntry<G>>)
    ensures
        any_intact(tethers) <==> count_intact(tethers) > 0,
        count_intact(tethers) <= tethers.len(),
    decreases tethers.len(),
{
    if tethers.len() > 0 {
        let init = tethers.drop_last();
        lemma_tethered_iff_intact(init);
        if any_intact(init) {
            let k = choose|k: int| 0 <= k < init.len() && !(#[trigger] init[k]).is_broken;
            assert(!tethers[k].is_broken);
        }
        if any_intact(tethers) && tethers.last().is_broken {
            let k = choose|k: int| 0 <= k < tethers.len() && !(#[trigger] tethers[k]).is_broken;
            assert(k < init.len());
            assert(!init[k].is_broken);
        }
        if !tethers.last().is_broken {
            assert(!tethers[tethers.len() - 1].is_broken);
        }
    }
}

} // verus!
