use vstd::prelude::*;
use crate::message_broadcaster::{
    connection_index, connections_unique, excluding, disconnected, is_connected,
    lemma_excluding_none,
    MessageBroadcaster,
};
use crate::messages::{ClientMessage, Envelope, ServerMessage};
use crate::player::{Player, MAX_HEALTH};
use crate::player_manager::{
    changed, has_player, index_of, inserted, player_of, registry_wf, without, PlayerManager,
};
use crate::spawn_system::{spawn_point, SpawnSystem};

verus! {

/// Damage dealt by one confirmed hit.
pub const HIT_DAMAGE: i32 = 50;

/// The participant created when `id` joins as `name` while `count`
/// participants are registered.
pub open spec fn new_player(id: String, name: String, count: int) -> Player {
    Player {
        id,
        name,
        x: spawn_point(count).0,
        y: spawn_point(count).1,
        z: spawn_point(count).2,
        rotation_x: 0,
        rotation_y: 0,
        health: MAX_HEALTH,
        alive: true,
        kills: 0,
    }
}

/// The registry after `id` joins as `name`.
pub open spec fn after_join(s: Seq<Player>, id: String, name: String) -> Seq<Player> {
    inserted(s, new_player(id, name, s.len() as int))
}

/// The recipients of a unicast to `id`: its connection, if registered.
pub open spec fn unicast_to(c: Seq<String>, id: String) -> Seq<String> {
    if is_connected(c, id@) {
        seq![id]
    } else {
        Seq::empty()
    }
}

/// What a join does: the joining connection is sent one notice per
/// participant already registered, in registry order; the participant is
/// inserted; every other connection is told of it.
pub open spec fn join_result(
    s: Seq<Player>,
    c: Seq<String>,
    id: String,
    name: String,
    s2: Seq<Player>,
    r: Seq<Envelope>,
) -> bool {
    &&& s2 == after_join(s, id, name)
    &&& r.len() == s.len() + 1
    &&& forall|i: int|
        0 <= i < s.len() ==> (#[trigger] r[i]).message == (ServerMessage::PlayerJoined {
            player: s[i],
        }) && r[i].recipients@ == unicast_to(c, id)
    &&& r[s.len() as int].message == (ServerMessage::PlayerJoined {
        player: new_player(id, name, s.len() as int),
    })
    &&& r[s.len() as int].recipients@ == excluding(c, Some(id@))
}

/// What a move does: the participant, if registered, moves; everyone else
/// is told.
pub open spec fn move_result(
    s: Seq<Player>,
    c: Seq<String>,
    id: String,
    x: u32,
    y: u32,
    z: u32,
    rotation_x: u32,
    rotation_y: u32,
    s2: Seq<Player>,
    r: Seq<Envelope>,
) -> bool {
    &&& s2 == changed(s, id@, player_of(s, id@).moved(x, y, z, rotation_x, rotation_y))
    &&& r.len() == 1
    &&& r[0].message == (ServerMessage::PlayerMoved {
        player_id: id,
        x,
        y,
        z,
        rotation_x,
        rotation_y,
    })
    &&& r[0].recipients@ == excluding(c, Some(id@))
}

/// What a shot does: nothing changes; everyone else is told.
pub open spec fn shoot_result(
    s: Seq<Player>,
    c: Seq<String>,
    id: String,
    start: (u32, u32, u32),
    target: (u32, u32, u32),
    s2: Seq<Player>,
    r: Seq<Envelope>,
) -> bool {
    &&& s2 == s
    &&& r.len() == 1
    &&& r[0].message == (ServerMessage::PlayerShot {
        shooter_id: id,
        start_x: start.0,
        start_y: start.1,
        start_z: start.2,
        target_x: target.0,
        target_y: target.1,
        target_z: target.2,
    })
    &&& r[0].recipients@ == excluding(c, Some(id@))
}

/// What a confirmed hit does. An unknown target: nothing. Otherwise the
/// target takes `HIT_DAMAGE`; a lethal hit credits the shooter with a kill and
/// tells everyone of the death, any other hit tells everyone of the damage.
pub open spec fn hit_result(
    s: Seq<Player>,
    c: Seq<String>,
    shooter: String,
    target: String,
    s2: Seq<Player>,
    r: Seq<Envelope>,
) -> bool {
    let t = player_of(s, target@);
    let s1 = changed(s, target@, t.damaged(HIT_DAMAGE as int));
    if !has_player(s, target@) {
        s2 == s && r.len() == 0
    } else if t.is_lethal(HIT_DAMAGE as int) {
        &&& s2 == changed(s1, shooter@, player_of(s1, shooter@).with_kill())
        &&& r.len() == 1
        &&& r[0].message == (ServerMessage::PlayerDied { player_id: target, killer_id: shooter })
        &&& r[0].recipients@ == c
    } else {
        &&& s2 == s1
        &&& r.len() == 1
        &&& r[0].message == (ServerMessage::PlayerHit {
            player_id: target,
            damage: HIT_DAMAGE,
            health: t.health_after(HIT_DAMAGE as int) as i32,
        })
        &&& r[0].recipients@ == c
    }
}

/// What a respawn does. An unknown participant: nothing. Otherwise it is
/// reset at the spawn point for the current count and everyone is told.
pub open spec fn respawn_result(
    s: Seq<Player>,
    c: Seq<String>,
    id: String,
    s2: Seq<Player>,
    r: Seq<Envelope>,
) -> bool {
    let p = player_of(s, id@).respawned(spawn_point(s.len() as int));
    if !has_player(s, id@) {
        s2 == s && r.len() == 0
    } else {
        &&& s2 == changed(s, id@, p)
        &&& r.len() == 1
        &&& r[0].message == (ServerMessage::PlayerRespawned { player: p })
        &&& r[0].recipients@ == c
    }
}

/// Every registered participant has a registered connection.
pub open spec fn players_connected(s: Seq<Player>, c: Seq<String>) -> bool {
    forall|i: int| 0 <= i < s.len() ==> is_connected(c, (#[trigger] s[i]).id@)
}

proof fn lemma_changed_stays_connected(s: Seq<Player>, c: Seq<String>, id: Seq<char>, p: Player)
    requires
        players_connected(s, c),
        has_player(s, id) ==> p.id@ == id,
    ensures
        players_connected(changed(s, id, p), c),
{
    if has_player(s, id) {
        let k = index_of(s, id);
        let t = changed(s, id, p);
        assert forall|i: int| 0 <= i < t.len() implies is_connected(c, (#[trigger] t[i]).id@) by {
            if i != k {
                assert(t[i] == s[i]);
            } else {
                assert(is_connected(c, s[k].id@));
            }
        }
    }
}

proof fn lemma_inserted_stays_connected(s: Seq<Player>, c: Seq<String>, p: Player)
    requires
        players_connected(s, c),
        is_connected(c, p.id@),
    ensures
        players_connected(inserted(s, p), c),
{
    let t = inserted(s, p);
    assert forall|i: int| 0 <= i < t.len() implies is_connected(c, (#[trigger] t[i]).id@) by {
        if i < s.len() && t[i] != p {
            assert(t[i] == s[i]);
        }
    }
}

proof fn lemma_without_stays_connected(s: Seq<Player>, c: Seq<String>, id: Seq<char>)
    requires
        registry_wf(s),
        players_connected(s, c),
    ensures
        players_connected(without(s, id), disconnected(c, id)),
{
    let t = without(s, id);
    let d = disconnected(c, id);
    assert forall|i: int| 0 <= i < t.len() implies is_connected(d, (#[trigger] t[i]).id@) by {
        let x = t[i].id@;
        if has_player(s, id) {
            let k = index_of(s, id);
            let j = if i < k { i } else { i + 1 };
            assert(t[i] == s[j]);
            assert(j != k);
            assert(x != id);
        } else {
            assert(t[i] == s[i]);
            if is_connected(c, id) {
                assert(x != id);
            }
        }
        assert(is_connected(c, x));
        if is_connected(c, id) {
            let m = connection_index(c, id);
            let n = choose|n: int| 0 <= n < c.len() && c[n]@ == x;
            assert(n != m);
            assert(d == c.remove(m));
            let e = if n < m { n } else { n - 1 };
            assert(d[e] == c[n]);
            assert(d[e]@ == x);
        }
    }
}

/// The dispatcher and connection lifecycle: turns each event of a connection
/// into registry changes and the messages to enqueue. It performs no I/O.
pub struct MessageHandler {
    player_manager: PlayerManager,
    message_broadcaster: MessageBroadcaster,
    spawn_system: SpawnSystem,
}

impl MessageHandler {
    /// The participants registered.
    pub closed spec fn players(&self) -> Seq<Player> {
        self.player_manager@
    }

    /// The connections registered.
    pub closed spec fn connections(&self) -> Seq<String> {
        self.message_broadcaster@
    }

    pub closed spec fn spawn_ready(&self) -> bool {
        self.spawn_system.wf()
    }

    pub open spec fn wf(&self) -> bool {
        &&& registry_wf(self.players())
        &&& connections_unique(self.connections())
        &&& self.spawn_ready()
    }

    pub fn new(player_manager: PlayerManager, message_broadcaster: MessageBroadcaster) -> (r:
        MessageHandler)
        requires
            player_manager.wf(),
            message_broadcaster.wf(),
        ensures
            r.players() == player_manager@,
            r.connections() == message_broadcaster@,
            r.wf(),
    {
        MessageHandler { player_manager, message_broadcaster, spawn_system: SpawnSystem::new() }
    }

    pub fn player_count(&self) -> (r: usize)
        ensures
            r == self.players().len(),
    {
        self.player_manager.get_player_count()
    }

    pub fn get_player(&self, player_id: &String) -> (r: Option<Player>)
        requires
            self.wf(),
        ensures
            match r {
                Some(p) => has_player(self.players(), player_id@) && p == player_of(
                    self.players(),
                    player_id@,
                ),
                None => !has_player(self.players(), player_id@),
            },
    {
        self.player_manager.get_player(player_id)
    }

    pub fn get_all_players(&self) -> (r: Vec<Player>)
        ensures
            r@ == self.players(),
    {
        self.player_manager.get_all_players()
    }

    /// Registers a new connection and addresses the welcome to it.
    pub fn connect(&mut self, player_id: String) -> (r: Envelope)
        requires
            old(self).wf(),
        ensures
            final(self).wf(),
            final(self).players() == old(self).players(),
            final(self).connections() == if is_connected(old(self).connections(), player_id@) {
                old(self).connections()
            } else {
                old(self).connections().push(player_id)
            },
            players_connected(old(self).players(), old(self).connections()) ==> players_connected(
                final(self).players(),
                final(self).connections(),
            ),
            r.message == (ServerMessage::Welcome { player_id }),
            r.recipients@ == seq![player_id],
    {
        let ghost c0 = self.connections();
        self.message_broadcaster.add_connection(player_id.clone());
        assert forall|x: Seq<char>| is_connected(c0, x) implies is_connected(
            self.connections(),
            x,
        ) by {
            let k = choose|k: int| 0 <= k < c0.len() && c0[k]@ == x;
            assert(self.connections()[k] == c0[k]);
        }
        assert(is_connected(self.connections(), player_id@)) by {
            if !is_connected(old(self).connections(), player_id@) {
                assert(self.connections()[self.connections().len() - 1]@ == player_id@);
            }
        }
        let welcome = ServerMessage::Welcome { player_id: player_id.clone() };
        self.message_broadcaster.send_to_player(&player_id, welcome)
    }

    /// Tears down a connection: it is unregistered, its participant removed,
    /// and every remaining connection told of the departure.
    pub fn disconnect(&mut self, player_id: &String) -> (r: Envelope)
        requires
            old(self).wf(),
        ensures
            final(self).wf(),
            final(self).players() == without(old(self).players(), player_id@),
            final(self).connections() == disconnected(old(self).connections(), player_id@),
            players_connected(old(self).players(), old(self).connections()) ==> players_connected(
                final(self).players(),
                final(self).connections(),
            ),
            r.message == (ServerMessage::PlayerLeft { player_id: *player_id }),
            r.recipients@ == final(self).connections(),
    {
        let ghost s0 = self.players();
        let ghost c0 = self.connections();
        self.message_broadcaster.remove_connection(player_id);
        self.player_manager.remove_player(player_id);
        proof {
            lemma_excluding_none(self.message_broadcaster@);
            if players_connected(s0, c0) {
                lemma_without_stays_connected(s0, c0, player_id@);
            }
        }
        self.message_broadcaster.broadcast_message(
            ServerMessage::PlayerLeft { player_id: player_id.clone() },
            None,
        )
    }

    /// Dispatches one decoded request from the connection of `player_id`.
    pub fn handle_message(&mut self, player_id: &String, message: ClientMessage) -> (r: Vec<
        Envelope,
    >)
        requires
            old(self).wf(),
        ensures
            final(self).wf(),
            players_connected(old(self).players(), old(self).connections()) && is_connected(
                old(self).connections(),
                player_id@,
            ) ==> players_connected(final(self).players(), final(self).connections()),
            forall|i: int|
                0 <= i < r@.len() ==> !((#[trigger] r@[i]).message is PlayerLeft),
            final(self).connections() == old(self).connections(),
            ({
                let s = old(self).players();
                let c = old(self).connections();
                let s2 = final(self).players();
                match message {
                    ClientMessage::Join { name } => join_result(s, c, *player_id, name, s2, r@),
                    ClientMessage::Move { x, y, z, rotation_x, rotation_y } => move_result(
                        s,
                        c,
                        *player_id,
                        x,
                        y,
                        z,
                        rotation_x,
                        rotation_y,
                        s2,
                        r@,
                    ),
                    ClientMessage::Shoot {
                        start_x,
                        start_y,
                        start_z,
                        target_x,
                        target_y,
                        target_z,
                    } => shoot_result(
                        s,
                        c,
                        *player_id,
                        (start_x, start_y, start_z),
                        (target_x, target_y, target_z),
                        s2,
                        r@,
                    ),
                    ClientMessage::Hit { target_player_id, killed } => hit_result(
                        s,
                        c,
                        *player_id,
                        target_player_id,
                        s2,
                        r@,
                    ),
                    ClientMessage::Respawn => respawn_result(s, c, *player_id, s2, r@),
                }
            }),
    {
        match message {
            ClientMessage::Join { name } => self.handle_join(player_id, name),
            ClientMessage::Move { x, y, z, rotation_x, rotation_y } => self.handle_move(
                player_id,
                x,
                y,
                z,
                rotation_x,
                rotation_y,
            ),
            ClientMessage::Shoot { start_x, start_y, start_z, target_x, target_y, target_z } => {
                self.handle_shoot(
                    player_id,
                    (start_x, start_y, start_z),
                    (target_x, target_y, target_z),
                )
            },
            ClientMessage::Hit { target_player_id, killed } => self.handle_hit(
                player_id,
                target_player_id,
                killed,
            ),
            ClientMessage::Respawn => self.handle_respawn(player_id),
        }
    }

    /// Spawn point from the count before insertion; the roster goes to the
    /// joiner before the participant is inserted and announced to the others.
    pub fn handle_join(&mut self, player_id: &String, name: String) -> (r: Vec<Envelope>)
        requires
            old(self).wf(),
        ensures
            final(self).wf(),
            players_connected(old(self).players(), old(self).connections()) && is_connected(
                old(self).connections(),
                player_id@,
            ) ==> players_connected(final(self).players(), final(self).connections()),
            final(self).connections() == old(self).connections(),
            join_result(
                old(self).players(),
                old(self).connections(),
                *player_id,
                name,
                final(self).players(),
                r@,
            ),
    {
        let ghost s0 = self.players();
        let ghost c0 = self.connections();
        let ghost joiner = new_player(*player_id, name, s0.len() as int);
        let player_count = self.player_manager.get_player_count();
        let spawn_pos = self.spawn_system.get_spawn_position(player_count);
        let player = Player::new(player_id.clone(), name, spawn_pos);
        let existing = self.player_manager.get_all_players();
        let mut r: Vec<Envelope> = Vec::new();
        let mut i: usize = 0;
        while i < existing.len()
            invariant
                i <= existing@.len(),
                existing@ == self.player_manager@,
                self.message_broadcaster.wf(),
                r@.len() == i,
                forall|j: int|
                    0 <= j < i ==> (#[trigger] r@[j]).message == (ServerMessage::PlayerJoined {
                        player: existing@[j],
                    }) && r@[j].recipients@ == unicast_to(self.message_broadcaster@, *player_id),
            decreases existing@.len() - i,
        {
            let notice = ServerMessage::PlayerJoined { player: existing[i].snapshot() };
            r.push(self.message_broadcaster.send_to_player(player_id, notice));
            i = i + 1;
        }
        self.player_manager.add_player(player.snapshot());
        let ghost roster = r@;
        r.push(self.message_broadcaster.broadcast_message(
            ServerMessage::PlayerJoined { player },
            Some(player_id),
        ));
        assert(forall|j: int| 0 <= j < player_count ==> r@[j] == roster[j]);
        proof {
            if players_connected(s0, c0) && is_connected(c0, player_id@) {
                lemma_inserted_stays_connected(s0, c0, joiner);
            }
        }
        r
    }

    /// Moves the sender, if registered, and tells everyone else.
    pub fn handle_move(
        &mut self,
        player_id: &String,
        x: u32,
        y: u32,
        z: u32,
        rotation_x: u32,
        rotation_y: u32,
    ) -> (r: Vec<Envelope>)
        requires
            old(self).wf(),
        ensures
            final(self).wf(),
            players_connected(old(self).players(), old(self).connections()) && is_connected(
                old(self).connections(),
                player_id@,
            ) ==> players_connected(final(self).players(), final(self).connections()),
            final(self).connections() == old(self).connections(),
            move_result(
                old(self).players(),
                old(self).connections(),
                *player_id,
                x,
                y,
                z,
                rotation_x,
                rotation_y,
                final(self).players(),
                r@,
            ),
    {
        let ghost s0 = self.players();
        let ghost c0 = self.connections();
        self.player_manager.update_player_position(player_id, x, y, z, rotation_x, rotation_y);
        proof {
            if players_connected(s0, c0) {
                lemma_changed_stays_connected(
                    s0,
                    c0,
                    player_id@,
                    player_of(s0, player_id@).moved(x, y, z, rotation_x, rotation_y),
                );
            }
        }
        let notice = ServerMessage::PlayerMoved {
            player_id: player_id.clone(),
            x,
            y,
            z,
            rotation_x,
            rotation_y,
        };
        let mut r: Vec<Envelope> = Vec::new();
        r.push(self.message_broadcaster.broadcast_message(notice, Some(player_id)));
        r
    }

    /// Passes a shot on to everyone else; no state changes.
    pub fn handle_shoot(&mut self, player_id: &String, start: (u32, u32, u32), target: (
        u32,
        u32,
        u32,
    )) -> (r: Vec<Envelope>)
        requires
            old(self).wf(),
        ensures
            final(self).wf(),
            players_connected(old(self).players(), old(self).connections()) && is_connected(
                old(self).connections(),
                player_id@,
            ) ==> players_connected(final(self).players(), final(self).connections()),
            final(self).connections() == old(self).connections(),
            shoot_result(
                old(self).players(),
                old(self).connections(),
                *player_id,
                start,
                target,
                final(self).players(),
                r@,
            ),
    {
        let notice = ServerMessage::PlayerShot {
            shooter_id: player_id.clone(),
            start_x: start.0,
            start_y: start.1,
            start_z: start.2,
            target_x: target.0,
            target_y: target.1,
            target_z: target.2,
        };
        let mut r: Vec<Envelope> = Vec::new();
        r.push(self.message_broadcaster.broadcast_message(notice, Some(player_id)));
        r
    }

    /// Applies a hit reported by `shooter_id`. The client's `killed` claim is
    /// not trusted: lethality follows from the target's health.
    pub fn handle_hit(&mut self, shooter_id: &String, target_player_id: String, _killed: bool) -> (r:
        Vec<Envelope>)
        requires
            old(self).wf(),
        ensures
            final(self).wf(),
            players_connected(old(self).players(), old(self).connections()) ==> players_connected(
                final(self).players(),
                final(self).connections(),
            ),
            final(self).connections() == old(self).connections(),
            hit_result(
                old(self).players(),
                old(self).connections(),
                *shooter_id,
                target_player_id,
                final(self).players(),
                r@,
            ),
    {
        let ghost s0 = self.players();
        let ghost c0 = self.connections();
        let ghost t = player_of(s0, target_player_id@);
        let ghost s1 = changed(s0, target_player_id@, t.damaged(HIT_DAMAGE as int));
        let mut r: Vec<Envelope> = Vec::new();
        proof {
            lemma_excluding_none(self.message_broadcaster@);
            if players_connected(s0, c0) {
                lemma_changed_stays_connected(
                    s0,
                    c0,
                    target_player_id@,
                    t.damaged(HIT_DAMAGE as int),
                );
                lemma_changed_stays_connected(
                    s1,
                    c0,
                    shooter_id@,
                    player_of(s1, shooter_id@).with_kill(),
                );
            }
        }
        match self.player_manager.damage_player(&target_player_id, HIT_DAMAGE) {
            None => {},
            Some((died, health)) => {
                if died {
                    self.player_manager.add_kill_to_player(shooter_id);
                    let notice = ServerMessage::PlayerDied {
                        player_id: target_player_id,
                        killer_id: shooter_id.clone(),
                    };
                    r.push(self.message_broadcaster.broadcast_message(notice, None));
                } else {
                    let notice = ServerMessage::PlayerHit {
                        player_id: target_player_id,
                        damage: HIT_DAMAGE,
                        health,
                    };
                    r.push(self.message_broadcaster.broadcast_message(notice, None));
                }
            },
        }
        r
    }

    /// Resets the sender, if registered, at the spawn point for the current
    /// count, and tells everyone.
    pub fn handle_respawn(&mut self, player_id: &String) -> (r: Vec<Envelope>)
        requires
            old(self).wf(),
        ensures
            final(self).wf(),
            players_connected(old(self).players(), old(self).connections()) && is_connected(
                old(self).connections(),
                player_id@,
            ) ==> players_connected(final(self).players(), final(self).connections()),
            final(self).connections() == old(self).connections(),
            respawn_result(
                old(self).players(),
                old(self).connections(),
                *player_id,
                final(self).players(),
                r@,
            ),
    {
        let player_count = self.player_manager.get_player_count();
        let spawn_pos = self.spawn_system.get_spawn_position(player_count);
        let ghost s0 = self.players();
        let ghost c0 = self.connections();
        let mut r: Vec<Envelope> = Vec::new();
        proof {
            lemma_excluding_none(self.message_broadcaster@);
            if players_connected(s0, c0) {
                lemma_changed_stays_connected(
                    s0,
                    c0,
                    player_id@,
                    player_of(s0, player_id@).respawned(spawn_pos),
                );
            }
        }
        match self.player_manager.respawn_player(player_id, spawn_pos) {
            None => {},
            Some(p) => {
                r.push(
                    self.message_broadcaster.broadcast_message(
                        ServerMessage::PlayerRespawned { player: p },
                        None,
                    ),
                );
            },
        }
        r
    }
}

} // verus!
