//! Multiplayer synchronization of sphere exploration: the records sent
//! between players, and the registry of explorers with the tethers that
//! link them. Each explorer carries a body of the caller's choosing (its
//! position, gravity and radiation), which the registry passes through
//! untouched.

use std::collections::HashMap;
use vstd::prelude::*;

verus! {

/// Radiation warning level of an explorer.
#[derive(Clone, Copy, Debug, PartialEq, Eq, Structural)]
pub enum RadiationWarning {
    /// Safe (< 25 rads).
    Safe,
    /// Caution (25-50 rads).
    Caution,
    /// Danger (50-75 rads).
    Danger,
    /// Lethal (> 75 rads).
    Lethal,
}

/// Tether link event between players.
#[derive(Clone, Debug, PartialEq, Eq, Structural)]
pub struct TetherLinkEvent {
    /// Player initiating the tether.
    pub initiator_id: u64,
    /// Player being tethered to.
    pub target_id: u64,
    /// Whether link is being established (true) or broken (false).
    pub linked: bool,
}

impl TetherLinkEvent {
    /// Create a new tether link event.
    pub fn new(initiator_id: u64, target_id: u64, linked: bool) -> (e: Self)
        ensures
            e.initiator_id == initiator_id,
            e.target_id == target_id,
            e.linked == linked,
    {
        Self { initiator_id, target_id, linked }
    }
}

/// Explorer state for network synchronization.
#[derive(Clone, Debug)]
pub struct ExplorerState<B> {
    /// Player ID.
    pub player_id: u64,
    /// Where the explorer is and what it undergoes: position, local gravity
    /// direction and radiation.
    pub body: B,
    /// Whether tether is deployed.
    pub tether_deployed: bool,
    /// Connected tether partner (if any).
    pub tethered_to: Option<u64>,
    /// Whether player is disoriented.
    pub disoriented: bool,
}

impl<B> ExplorerState<B> {
    /// Create a new explorer state with the given body: untethered and not
    /// disoriented.
    pub fn with_body(player_id: u64, body: B) -> (s: Self)
        ensures
            s.player_id == player_id,
            s.body == body,
            !s.tether_deployed,
            s.tethered_to is None,
            !s.disoriented,
    {
        Self { player_id, body, tether_deployed: false, tethered_to: None, disoriented: false }
    }
}

/// The explorer tethered to `partner`.
pub open spec fn tethered<B>(e: ExplorerState<B>, partner: u64) -> ExplorerState<B> {
    ExplorerState { tether_deployed: true, tethered_to: Some(partner), ..e }
}

/// The explorer with its tether taken in.
pub open spec fn untethered<B>(e: ExplorerState<B>) -> ExplorerState<B> {
    ExplorerState { tether_deployed: false, tethered_to: None, ..e }
}

/// The explorers after `a` and `b` are tethered to each other.
pub open spec fn spec_link<B>(m: Map<u64, ExplorerState<B>>, a: u64, b: u64) -> Map<u64, ExplorerState<B>> {
    let m1 = m.insert(a, tethered(m[a], b));
    m1.insert(b, tethered(m1[b], a))
}

/// The explorers after `player` breaks its tether: its partner, if it has
/// one that is registered, and then the player itself are untethered.
pub open spec fn spec_break<B>(m: Map<u64, ExplorerState<B>>, player: u64) -> Map<u64, ExplorerState<B>> {
    let m1 = if m.contains_key(player) && m[player].tethered_to is Some
        && m.contains_key(m[player].tethered_to->0) {
        let partner = m[player].tethered_to->0;
        m.insert(partner, untethered(m[partner]))
    } else {
        m
    };
    if m1.contains_key(player) {
        m1.insert(player, untethered(m1[player]))
    } else {
        m1
    }
}

/// Explorers of the sphere, by player ID.
#[derive(Clone, Debug)]
pub struct ExplorerRegistry<B> {
    explorers: HashMap<u64, ExplorerState<B>>,
}

impl<B> View for ExplorerRegistry<B> {
    type V = Map<u64, ExplorerState<B>>;

    closed spec fn view(&self) -> Map<u64, ExplorerState<B>> {
        self.explorers@
    }
}

impl<B> ExplorerRegistry<B> {
    /// Every explorer is filed under its own player ID.
    pub open spec fn well_formed(&self) -> bool {
        forall|id: u64| #[trigger] self@.contains_key(id) ==> self@[id].player_id == id
    }

    /// An empty registry.
    pub fn new() -> (r: Self)
        ensures
            r@ == Map::<u64, ExplorerState<B>>::empty(),
            r.well_formed(),
    {
        Self { explorers: HashMap::new() }
    }

    /// Register an explorer, replacing any earlier state of the same player.
    pub fn register(&mut self, state: ExplorerState<B>)
        ensures
            final(self)@ == old(self)@.insert(state.player_id, state),
            old(self).well_formed() ==> final(self).well_formed(),
    {
        let id = state.player_id;
        self.explorers.insert(id, state);
    }

    /// Update an explorer's state; the same as registering it again.
    pub fn update_explorer(&mut self, state: ExplorerState<B>)
        ensures
            final(self)@ == old(self)@.insert(state.player_id, state),
            old(self).well_formed() ==> final(self).well_formed(),
    {
        self.register(state);
    }

    /// Remove an explorer. Returns whether it was registered.
    pub fn remove(&mut self, player_id: u64) -> (removed: bool)
        ensures
            removed == old(self)@.contains_key(player_id),
            final(self)@ == old(self)@.remove(player_id),
            old(self).well_formed() ==> final(self).well_formed(),
    {
        self.explorers.remove(&player_id).is_some()
    }

    /// The state of an explorer, if registered.
    pub fn get(&self, player_id: u64) -> (r: Option<&ExplorerState<B>>)
        ensures
            match r {
                Some(e) => self@.contains_key(player_id) && *e == self@[player_id],
                None => !self@.contains_key(player_id),
            },
    {
        self.explorers.get(&player_id)
    }

    /// All registered explorers.
    pub fn explorers(&self) -> (m: &HashMap<u64, ExplorerState<B>>)
        ensures
            m@ == self@,
    {
        &self.explorers
    }

    /// Tether explorers `a` and `b` to each other, if both are registered.
    /// Returns whether they were linked.
    pub fn link_tether(&mut self, a_id: u64, b_id: u64) -> (linked: bool)
        ensures
            linked == (old(self)@.contains_key(a_id) && old(self)@.contains_key(b_id)),
            final(self)@ == if linked { spec_link(old(self)@, a_id, b_id) } else { old(self)@ },
            old(self).well_formed() ==> final(self).well_formed(),
    {
        if !self.explorers.contains_key(&a_id) || !self.explorers.contains_key(&b_id) {
            return false;
        }
        if let Some(mut a) = self.explorers.remove(&a_id) {
            a.tether_deployed = true;
            a.tethered_to = Some(b_id);
            self.explorers.insert(a_id, a);
        }
        if let Some(mut b) = self.explorers.remove(&b_id) {
            b.tether_deployed = true;
            b.tethered_to = Some(a_id);
            self.explorers.insert(b_id, b);
        }
        proof {
            assert(self@ =~= spec_link(old(self)@, a_id, b_id));
        }
        true
    }

    /// Break an explorer's tether: its partner and the explorer itself are
    /// untethered.
    pub fn break_tether(&mut self, player_id: u64)
        ensures
            final(self)@ == spec_break(old(self)@, player_id),
            old(self).well_formed() ==> final(self).well_formed(),
    {
        let partner = match self.explorers.get(&player_id) {
            Some(e) => e.tethered_to,
            None => None,
        };
        if let Some(pid) = partner {
            if let Some(mut p) = self.explorers.remove(&pid) {
                p.tether_deployed = false;
                p.tethered_to = None;
                self.explorers.insert(pid, p);
            }
        }
        if let Some(mut e) = self.explorers.remove(&player_id) {
            e.tether_deployed = false;
            e.tethered_to = None;
            self.explorers.insert(player_id, e);
        }
        proof {
            assert(self@ =~= spec_break(old(self)@, player_id));
        }
    }
}

impl<B> Default for ExplorerRegistry<B> {
    fn default() -> (r: Self)
        ensures
            r@ == Map::<u64, ExplorerState<B>>::empty(),
    {
        Self::new()
    }
}

/// Tethers link explorers both ways: once `a` and `b` are linked, each is
/// tethered to the other, and every other explorer is as it was.
pub proof fn lemma_link_is_mutual<B>(m: Map<u64, ExplorerState<B>>, a: u64, b: u64)
    requires
        m.contains_key(a),
        m.contains_key(b),
    ensures
        spec_link(m, a, b).dom() == m.dom(),
        spec_link(m, a, b)[a].tethered_to == Some(b),
        spec_link(m, a, b)[a].tether_deployed,
        spec_link(m, a, b)[b].tethered_to == Some(a),
        spec_link(m, a, b)[b].tether_deployed,
        forall|c: u64| c != a && c != b && m.contains_key(c) ==> #[trigger] spec_link(m, a, b)[c] == m[c],
{
    assert(spec_link(m, a, b).dom() =~= m.dom());
}

/// Breaking a tether frees both ends: after `a` and `b` are linked and
/// either of them breaks the tether, neither is tethered.
pub proof fn lemma_break_frees_both<B>(m: Map<u64, ExplorerState<B>>, a: u64, b: u64, breaker: u64)
    requires
        m.contains_key(a),
        m.contains_key(b),
        breaker == a || breaker == b,
    ensures
        spec_break(spec_link(m, a, b), breaker)[a].tethered_to is None,
        !spec_break(spec_link(m, a, b), breaker)[a].tether_deployed,
        spec_break(spec_link(m, a, b), breaker)[b].tethered_to is None,
        !spec_break(spec_link(m, a, b), breaker)[b].tether_deployed,
        spec_break(spec_link(m, a, b), breaker).dom() == m.dom(),
{
    let l = spec_link(m, a, b);
    assert(l.dom() =~= m.dom());
    assert(spec_break(l, breaker).dom() =~= m.dom());
}

} // verus!
