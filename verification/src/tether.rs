//! Tethers between anchor points: which connections may be made, how
//! anchors keep track of their tethers, and which tethers a chain of
//! anchors spans.

use vstd::prelude::*;

verus! {

/// Error type for tether operations.
#[derive(Debug, Clone, Copy, PartialEq, Eq, Structural)]
pub enum TetherError {
    /// Distance between anchors exceeds maximum tether length.
    TooLong,
    /// One or both anchors are in a vacuum breach zone.
    VacuumBreach,
    /// Connection between these anchors already exists.
    AlreadyConnected,
}

/// Whether a tether may join two anchors: never when either anchor lies in a
/// vacuum breach (this is reported first), and never across more than the
/// maximum tether length.
pub open spec fn spec_tether_check(a_in_breach: bool, b_in_breach: bool, too_long: bool) -> Result<(), TetherError> {
    if a_in_breach || b_in_breach {
        Err(TetherError::VacuumBreach)
    } else if too_long {
        Err(TetherError::TooLong)
    } else {
        Ok(())
    }
}

/// Decide whether a tether may join two anchors, given whether each anchor
/// lies in a vacuum breach and whether their distance exceeds the maximum
/// tether length.
pub fn check_tether(a_in_breach: bool, b_in_breach: bool, too_long: bool) -> (r: Result<(), TetherError>)
    ensures
        r == spec_tether_check(a_in_breach, b_in_breach, too_long),
{
    if a_in_breach || b_in_breach {
        return Err(TetherError::VacuumBreach);
    }
    if too_long {
        return Err(TetherError::TooLong);
    }
    Ok(())
}

/// A tether is refused with a vacuum breach whenever either anchor lies in
/// one, whatever the distance; it is refused as too long only when neither
/// anchor is in a breach; and it is allowed exactly when neither anchor is in
/// a breach and the distance is within the maximum.
pub proof fn lemma_tether_check_outcomes(a_in_breach: bool, b_in_breach: bool, too_long: bool)
    ensures
        (a_in_breach || b_in_breach) ==> spec_tether_check(a_in_breach, b_in_breach, too_long)
            == Err::<(), TetherError>(TetherError::VacuumBreach),
        spec_tether_check(a_in_breach, b_in_breach, too_long) == Err::<(), TetherError>(TetherError::TooLong)
            <==> (!a_in_breach && !b_in_breach && too_long),
        spec_tether_check(a_in_breach, b_in_breach, too_long) is Ok <==> (!a_in_breach && !b_in_breach
            && !too_long),
        spec_tether_check(a_in_breach, b_in_breach, too_long) != Err::<(), TetherError>(
            TetherError::AlreadyConnected,
        ),
{
}

/// The tether list of an anchor after attaching a tether: unchanged if the
/// tether is already attached, otherwise the tether is appended.
pub open spec fn spec_attach(attached: Seq<usize>, tether_index: usize) -> Seq<usize> {
    if attached.contains(tether_index) {
        attached
    } else {
        attached.push(tether_index)
    }
}

/// The tether list of an anchor after detaching a tether: every occurrence
/// is dropped, the other tethers keep their order.
pub open spec fn spec_detach(attached: Seq<usize>, tether_index: usize) -> Seq<usize>
    decreases attached.len(),
{
    if attached.len() == 0 {
        seq![]
    } else {
        let rest = spec_detach(attached.drop_last(), tether_index);
        if attached.last() == tether_index {
            rest
        } else {
            rest.push(attached.last())
        }
    }
}

/// Attach a tether to an anchor's list of tethers.
pub fn attach_tether(attached: &mut Vec<usize>, tether_index: usize)
    ensures
        final(attached)@ == spec_attach(old(attached)@, tether_index),
{
    let mut i: usize = 0;
    while i < attached.len()
        invariant
            i <= attached@.len(),
            forall|j: int| 0 <= j < i ==> attached@[j] != tether_index,
        decreases attached@.len() - i,
    {
        if attached[i] == tether_index {
            assert(attached@[i as int] == tether_index);
            return;
        }
        i = i + 1;
    }
    attached.push(tether_index);
}

/// Detach a tether from an anchor's list of tethers.
pub fn detach_tether(attached: &mut Vec<usize>, tether_index: usize)
    ensures
        final(attached)@ == spec_detach(old(attached)@, tether_index),
{
    let ghost before = attached@;
    let mut kept: Vec<usize> = Vec::new();
    let mut i: usize = 0;
    while i < attached.len()
        invariant
            attached@ == before,
            i <= before.len(),
            kept@ == spec_detach(before.subrange(0, i as int), tether_index),
        decreases before.len() - i,
    {
        let x = attached[i];
        proof {
            assert(before.subrange(0, i + 1).drop_last() =~= before.subrange(0, i as int));
        }
        if x != tether_index {
            kept.push(x);
        }
        i = i + 1;
    }
    assert(before.subrange(0, i as int) =~= before);
    *attached = kept;
}

/// After detaching, a tether is listed exactly when it was listed before and
/// is not the detached one; detaching a tether that is not listed changes
/// nothing.
proof fn lemma_detach_contents(attached: Seq<usize>, tether_index: usize, other: usize)
    ensures
        spec_detach(attached, tether_index).contains(other) <==> (attached.contains(other) && other != tether_index),
        !attached.contains(tether_index) ==> spec_detach(attached, tether_index) == attached,
    decreases attached.len(),
{
    if attached.len() > 0 {
        let init = attached.drop_last();
        let x = attached.last();
        let rest = spec_detach(init, tether_index);
        lemma_detach_contents(init, tether_index, other);
        assert(init.push(x) =~= attached);
        if attached.contains(other) && other != x {
            let k = choose|k: int| 0 <= k < attached.len() && attached[k] == other;
            assert(init[k] == other);
        }
        if init.contains(other) {
            let k = choose|k: int| 0 <= k < init.len() && init[k] == other;
            assert(attached[k] == other);
        }
        if x != tether_index {
            let n = rest.push(x);
            assert(n[rest.len() as int] == x);
            if rest.contains(other) {
                let k = choose|k: int| 0 <= k < rest.len() && rest[k] == other;
                assert(n[k] == other);
            }
            if n.contains(other) && other != x {
                let k = choose|k: int| 0 <= k < n.len() && n[k] == other;
                assert(rest[k] == other);
            }
        }
        if !attached.contains(tether_index) {
            assert(!init.contains(tether_index)) by {
                if init.contains(tether_index) {
                    let k = choose|k: int| 0 <= k < init.len() && init[k] == tether_index;
                    assert(attached[k] == tether_index);
                }
            }
            assert(attached[attached.len() - 1] == x);
        }
    }
}

/// Attaching keeps a list free of repeats, makes the tether attached, and
/// keeps every tether that was there; detaching removes the tether and only
/// it; and attaching a new tether then detaching it restores the list.
pub proof fn lemma_attach_detach(attached: Seq<usize>, tether_index: usize, other: usize)
    requires
        attached.no_duplicates(),
    ensures
        spec_attach(attached, tether_index).no_duplicates(),
        spec_attach(attached, tether_index).contains(tether_index),
        attached.contains(other) ==> spec_attach(attached, tether_index).contains(other),
        !spec_detach(attached, tether_index).contains(tether_index),
        other != tether_index ==> (spec_detach(attached, tether_index).contains(other) <==> attached.contains(other)),
        !attached.contains(tether_index) ==> spec_detach(spec_attach(attached, tether_index), tether_index) == attached,
{
    let pushed = attached.push(tether_index);
    assert(pushed[attached.len() as int] == tether_index);
    if attached.contains(other) {
        let k = choose|k: int| 0 <= k < attached.len() && attached[k] == other;
        assert(pushed[k] == other);
    }
    lemma_detach_contents(attached, tether_index, other);
    lemma_detach_contents(attached, tether_index, tether_index);
    if !attached.contains(tether_index) {
        assert(pushed.drop_last() =~= attached);
        assert(spec_detach(pushed, tether_index) == spec_detach(attached, tether_index));
    }
}

/// Whether a tether index names an intact tether.
pub open spec fn intact(broken: Seq<bool>, index: usize) -> bool {
    index < broken.len() && !broken[index as int]
}

/// The tethers a chain spans, in the order in which they are first met when
/// going through the anchors' tether lists: every index that names an intact
/// tether, each taken once.
pub open spec fn chain_order(attached: Seq<usize>, broken: Seq<bool>) -> Seq<usize>
    decreases attached.len(),
{
    if attached.len() == 0 {
        seq![]
    } else {
        let prev = chain_order(attached.drop_last(), broken);
        let x = attached.last();
        if intact(broken, x) && !prev.contains(x) {
            prev.push(x)
        } else {
            prev
        }
    }
}

/// Collect the tethers that a chain of anchors spans. `attached` lists the
/// tether indices of the anchors one anchor after another, `broken` says for
/// each tether whether it has snapped; indices out of range and broken
/// tethers are skipped, and each tether is taken once.
pub fn chain_tethers(attached: &[usize], broken: &[bool]) -> (r: Vec<usize>)
    ensures
        r@ == chain_order(attached@, broken@),
{
    let mut visited: Vec<bool> = Vec::new();
    let mut k: usize = 0;
    while k < broken.len()
        invariant
            k <= broken@.len(),
            visited@.len() == k,
            forall|j: int| 0 <= j < k ==> !visited@[j],
        decreases broken@.len() - k,
    {
        visited.push(false);
        k = k + 1;
    }
    let mut r: Vec<usize> = Vec::new();
    let mut i: usize = 0;
    while i < attached.len()
        invariant
            i <= attached@.len(),
            visited@.len() == broken@.len(),
            r@ == chain_order(attached@.subrange(0, i as int), broken@),
            forall|j: int| 0 <= j < visited@.len() ==> (visited@[j] <==> r@.contains(j as usize)),
        decreases attached@.len() - i,
    {
        let x = attached[i];
        proof {
            assert(attached@.subrange(0, i + 1).drop_last() =~= attached@.subrange(0, i as int));
        }
        if x < broken.len() && !visited[x] && !broken[x] {
            let ghost before = r@;
            r.push(x);
            visited.set(x, true);
            proof {
                assert forall|j: int| 0 <= j < visited@.len() implies (visited@[j] <==> r@.contains(j as usize)) by {
                    assert(r@[before.len() as int] == x);
                    if j != x {
                        if r@.contains(j as usize) {
                            let m = choose|m: int| 0 <= m < r@.len() && r@[m] == j as usize;
                            assert(m < before.len());
                            assert(before[m] == j as usize);
                        }
                        if before.contains(j as usize) {
                            let m = choose|m: int| 0 <= m < before.len() && before[m] == j as usize;
                            assert(r@[m] == j as usize);
                        }
                    }
                }
            }
        }
        i = i + 1;
    }
    assert(attached@.subrange(0, i as int) =~= attached@);
    r
}

/// A chain counts every intact tether that some anchor holds, exactly once,
/// and nothing else.
pub proof fn lemma_chain_spans_intact_tethers(attached: Seq<usize>, broken: Seq<bool>, t: usize)
    ensures
        chain_order(attached, broken).no_duplicates(),
        chain_order(attached, broken).contains(t) <==> (attached.contains(t) && intact(broken, t)),
    decreases attached.len(),
{
    if attached.len() > 0 {
        let prev = chain_order(attached.drop_last(), broken);
        let x = attached.last();
        lemma_chain_spans_intact_tethers(attached.drop_last(), broken, t);
        lemma_chain_spans_intact_tethers(attached.drop_last(), broken, x);
        assert(attached.drop_last().push(x) =~= attached);
        if attached.contains(t) && t != x {
            let k = choose|k: int| 0 <= k < attached.len() && attached[k] == t;
            assert(attached.drop_last()[k] == t);
        }
        if attached.drop_last().contains(t) {
            let k = choose|k: int| 0 <= k < attached.drop_last().len() && attached.drop_last()[k] == t;
            assert(attached[k] == t);
        }
        if intact(broken, x) && !prev.contains(x) {
            let n = prev.push(x);
            assert(n[prev.len() as int] == x);
            if prev.contains(t) {
                let k = choose|k: int| 0 <= k < prev.len() && prev[k] == t;
                assert(n[k] == t);
            }
            if n.contains(t) && t != x {
                let k = choose|k: int| 0 <= k < n.len() && n[k] == t;
                assert(k < prev.len());
                assert(prev[k] == t);
            }
        }
    }
}

} // verus!
