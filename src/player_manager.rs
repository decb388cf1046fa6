use vstd::prelude::*;
use crate::player::{Player, Point};

verus! {

/// No two participants share an id.
pub open spec fn ids_unique(s: Seq<Player>) -> bool {
    forall|i: int, j: int|
        0 <= i < s.len() && 0 <= j < s.len() && i != j ==> s[i].id@ != s[j].id@
}

/// Ids are unique and every participant is well formed.
pub open spec fn registry_wf(s: Seq<Player>) -> bool {
    &&& ids_unique(s)
    &&& forall|i: int| 0 <= i < s.len() ==> #[trigger] s[i].wf()
}

pub open spec fn has_player(s: Seq<Player>, id: Seq<char>) -> bool {
    exists|i: int| 0 <= i < s.len() && s[i].id@ == id
}

/// Position of the participant with `id`; meaningful when `has_player(s, id)`.
pub open spec fn index_of(s: Seq<Player>, id: Seq<char>) -> int {
    choose|i: int| 0 <= i < s.len() && s[i].id@ == id
}

/// The participant with `id`; meaningful when `has_player(s, id)`.
pub open spec fn player_of(s: Seq<Player>, id: Seq<char>) -> Player {
    s[index_of(s, id)]
}

/// The registry after `p` is inserted: it replaces the entry with the same
/// id, or is appended.
pub open spec fn inserted(s: Seq<Player>, p: Player) -> Seq<Player> {
    if has_player(s, p.id@) {
        s.update(index_of(s, p.id@), p)
    } else {
        s.push(p)
    }
}

/// The registry after the participant with `id`, if any, is removed.
pub open spec fn without(s: Seq<Player>, id: Seq<char>) -> Seq<Player> {
    if has_player(s, id) {
        s.remove(index_of(s, id))
    } else {
        s
    }
}

/// The registry after the participant with `id`, if any, is replaced by `p`.
pub open spec fn changed(s: Seq<Player>, id: Seq<char>, p: Player) -> Seq<Player> {
    if has_player(s, id) {
        s.update(index_of(s, id), p)
    } else {
        s
    }
}

pub proof fn lemma_index_of(s: Seq<Player>, id: Seq<char>, i: int)
    requires
        ids_unique(s),
        0 <= i < s.len(),
        s[i].id@ == id,
    ensures
        has_player(s, id),
        index_of(s, id) == i,
{
}

/// The registry of connected participants, keyed by id.
pub struct PlayerManager {
    players: Vec<Player>,
}

impl View for PlayerManager {
    type V = Seq<Player>;

    closed spec fn view(&self) -> Seq<Player> {
        self.players@
    }
}

impl PlayerManager {
    pub open spec fn wf(&self) -> bool {
        registry_wf(self@)
    }

    pub fn new() -> (r: PlayerManager)
        ensures
            r@ == Seq::<Player>::empty(),
            r.wf(),
    {
        PlayerManager { players: Vec::new() }
    }

    fn find(&self, player_id: &String) -> (r: Option<usize>)
        requires
            self.wf(),
        ensures
            match r {
                Some(i) => has_player(self@, player_id@) && i as int == index_of(self@, player_id@),
                None => !has_player(self@, player_id@),
            },
    {
        let mut i: usize = 0;
        while i < self.players.len()
            invariant
                i <= self.players@.len(),
                registry_wf(self@),
                forall|j: int| 0 <= j < i ==> self.players@[j].id@ != player_id@,
            decreases self.players@.len() - i,
        {
            if self.players[i].id == *player_id {
                proof {
                    lemma_index_of(self@, player_id@, i as int);
                }
                return Some(i);
            }
            i = i + 1;
        }
        None
    }

    /// Inserts `player` under its id, replacing an entry with the same id.
    pub fn add_player(&mut self, player: Player)
        requires
            old(self).wf(),
            player.wf(),
        ensures
            final(self)@ == inserted(old(self)@, player),
            final(self).wf(),
    {
        match self.find(&player.id) {
            Some(i) => {
                self.players.set(i, player);
            },
            None => {
                self.players.push(player);
            },
        }
        assert(registry_wf(self@));
    }

    /// Removes the participant with `player_id`; nothing happens if it is absent.
    pub fn remove_player(&mut self, player_id: &String)
        requires
            old(self).wf(),
        ensures
            final(self)@ == without(old(self)@, player_id@),
            final(self).wf(),
    {
        match self.find(player_id) {
            Some(i) => {
                self.players.remove(i);
                assert(registry_wf(self@)) by {
                    let s = old(self)@;
                    let t = self@;
                    assert forall|a: int| 0 <= a < t.len() implies t[a]
                        == s[if a < i { a } else { a + 1 }] by {}
                }
            },
            None => {},
        }
    }

    /// Moves the participant with `player_id`; nothing happens if it is absent.
    pub fn update_player_position(
        &mut self,
        player_id: &String,
        x: u32,
        y: u32,
        z: u32,
        rotation_x: u32,
        rotation_y: u32,
    )
        requires
            old(self).wf(),
        ensures
            final(self)@ == changed(
                old(self)@,
                player_id@,
                player_of(old(self)@, player_id@).moved(x, y, z, rotation_x, rotation_y),
            ),
            final(self).wf(),
    {
        match self.find(player_id) {
            Some(i) => {
                let mut p = self.players[i].snapshot();
                p.update_position(x, y, z, rotation_x, rotation_y);
                self.players.set(i, p);
                assert(registry_wf(self@));
            },
            None => {},
        }
    }

    /// A copy of every participant, in registry order.
    pub fn get_all_players(&self) -> (r: Vec<Player>)
        ensures
            r@ == self@,
    {
        let mut r: Vec<Player> = Vec::new();
        let mut i: usize = 0;
        while i < self.players.len()
            invariant
                i <= self.players@.len(),
                r@ == self.players@.subrange(0, i as int),
            decreases self.players@.len() - i,
        {
            r.push(self.players[i].snapshot());
            i = i + 1;
        }
        assert(r@ =~= self.players@);
        r
    }

    pub fn get_player(&self, player_id: &String) -> (r: Option<Player>)
        requires
            self.wf(),
        ensures
            match r {
                Some(p) => has_player(self@, player_id@) && p == player_of(self@, player_id@),
                None => !has_player(self@, player_id@),
            },
    {
        match self.find(player_id) {
            Some(i) => Some(self.players[i].snapshot()),
            None => None,
        }
    }

    pub fn get_player_count(&self) -> (r: usize)
        ensures
            r == self@.len(),
    {
        self.players.len()
    }

    /// Applies `damage` to the participant with `player_id`. Returns whether it
    /// died of it and its remaining health, or `None` if it is absent.
    pub fn damage_player(&mut self, player_id: &String, damage: i32) -> (r: Option<(bool, i32)>)
        requires
            old(self).wf(),
            damage >= 0,
        ensures
            final(self).wf(),
            ({
                let s = old(self)@;
                let p = player_of(s, player_id@);
                match r {
                    Some((died, health)) => {
                        &&& has_player(s, player_id@)
                        &&& final(self)@ == changed(s, player_id@, p.damaged(damage as int))
                        &&& died == p.is_lethal(damage as int)
                        &&& health == p.health_after(damage as int)
                    },
                    None => !has_player(s, player_id@) && final(self)@ == s,
                }
            }),
    {
        match self.find(player_id) {
            Some(i) => {
                let mut p = self.players[i].snapshot();
                let died = p.take_damage(damage);
                let health = p.health;
                self.players.set(i, p);
                assert(registry_wf(self@));
                Some((died, health))
            },
            None => None,
        }
    }

    /// Credits a kill to the participant with `player_id`; returns whether it
    /// was present.
    pub fn add_kill_to_player(&mut self, player_id: &String) -> (r: bool)
        requires
            old(self).wf(),
        ensures
            r == has_player(old(self)@, player_id@),
            final(self)@ == changed(
                old(self)@,
                player_id@,
                player_of(old(self)@, player_id@).with_kill(),
            ),
            final(self).wf(),
    {
        match self.find(player_id) {
            Some(i) => {
                let mut p = self.players[i].snapshot();
                p.add_kill();
                self.players.set(i, p);
                assert(registry_wf(self@));
                true
            },
            None => false,
        }
    }

    /// Respawns the participant with `player_id` at `spawn_pos` and returns
    /// its new state, or `None` if it is absent.
    pub fn respawn_player(&mut self, player_id: &String, spawn_pos: Point) -> (r: Option<Player>)
        requires
            old(self).wf(),
        ensures
            final(self).wf(),
            ({
                let s = old(self)@;
                let p = player_of(s, player_id@).respawned(spawn_pos);
                match r {
                    Some(q) => {
                        &&& has_player(s, player_id@)
                        &&& q == p
                        &&& final(self)@ == changed(s, player_id@, p)
                    },
                    None => !has_player(s, player_id@) && final(self)@ == s,
                }
            }),
    {
        match self.find(player_id) {
            Some(i) => {
                let mut p = self.players[i].snapshot();
                p.respawn(spawn_pos);
                let q = p.snapshot();
                self.players.set(i, p);
                assert(registry_wf(self@));
                Some(q)
            },
            None => None,
        }
    }
}

} // verus!
