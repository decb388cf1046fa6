use vstd::prelude::*;
use crate::message_broadcaster::{is_connected, lemma_excluding_members};
use crate::message_handler::{
    after_join, hit_result, join_result, move_result, new_player, respawn_result, shoot_result,
    HIT_DAMAGE,
};
use crate::messages::{Envelope, ServerMessage};
use crate::player::{Player, Point, MAX_HEALTH};
use crate::player_manager::{
    changed, has_player, ids_unique, index_of, lemma_index_of, player_of, registry_wf, without,
};
use crate::spawn_system::{spawn_point, spawn_table};

verus! {

/// The state of `p` after taking each damage amount of `ds` in turn.
pub open spec fn after_hits(p: Player, ds: Seq<int>) -> Player
    decreases ds.len(),
{
    if ds.len() == 0 {
        p
    } else {
        after_hits(p, ds.drop_last()).damaged(ds.last())
    }
}

/// Whatever non-negative damage a well-formed participant takes, in any
/// number of steps, its health stays within `[0, MAX_HEALTH]` and it is alive
/// exactly when its health is positive.
pub proof fn lemma_damage_keeps_health_in_range(p: Player, ds: Seq<int>)
    requires
        p.wf(),
        forall|i: int| 0 <= i < ds.len() ==> ds[i] >= 0,
    ensures
        0 <= after_hits(p, ds).health <= MAX_HEALTH,
        after_hits(p, ds).alive == (after_hits(p, ds).health > 0),
        after_hits(p, ds).wf(),
    decreases ds.len(),
{
    if ds.len() > 0 {
        lemma_damage_keeps_health_in_range(p, ds.drop_last());
    }
}

/// The registry after each `ids[i]` joins as `names[i]`, in order, starting empty.
pub open spec fn joined_all(ids: Seq<String>, names: Seq<String>) -> Seq<Player>
    decreases ids.len(),
{
    if ids.len() == 0 || names.len() != ids.len() {
        Seq::empty()
    } else {
        after_join(joined_all(ids.drop_last(), names.drop_last()), ids.last(), names.last())
    }
}

/// When participants with distinct ids join one after another, the i-th of
/// them (counting from zero) is placed at spawn point `i mod 5`.
pub proof fn lemma_sequential_joins(ids: Seq<String>, names: Seq<String>)
    requires
        ids.len() == names.len(),
        forall|i: int, j: int| 0 <= i < j < ids.len() ==> ids[i]@ != ids[j]@,
    ensures
        joined_all(ids, names).len() == ids.len(),
        forall|i: int|
            0 <= i < ids.len() ==> {
                let p = #[trigger] joined_all(ids, names)[i];
                &&& p.id == ids[i]
                &&& p.name == names[i]
                &&& (p.x, p.y, p.z) == spawn_table()[i % 5]
                &&& (p.x, p.y, p.z) == spawn_point(i)
            },
    decreases ids.len(),
{
    if ids.len() > 0 {
        let n = ids.len() - 1;
        let pids = ids.drop_last();
        let pnames = names.drop_last();
        lemma_sequential_joins(pids, pnames);
        let prev = joined_all(pids, pnames);
        assert(!has_player(prev, ids.last()@)) by {
            if has_player(prev, ids.last()@) {
                let k = choose|k: int| 0 <= k < prev.len() && prev[k].id@ == ids.last()@;
                assert(prev[k].id == ids[k]);
            }
        }
        let cur = joined_all(ids, names);
        assert(cur == prev.push(new_player(ids.last(), names.last(), n)));
        assert forall|i: int| 0 <= i < ids.len() implies {
            let p = #[trigger] cur[i];
            &&& p.id == ids[i]
            &&& p.name == names[i]
            &&& (p.x, p.y, p.z) == spawn_table()[i % 5]
            &&& (p.x, p.y, p.z) == spawn_point(i)
        } by {
            if i < n {
                assert(cur[i] == prev[i]);
                assert(pids[i] == ids[i]);
                assert(pnames[i] == names[i]);
            }
        }
    }
}

/// A participant that joins while not registered is sent only notices of the
/// others, never of itself, and its own arrival is announced to exactly the
/// other registered connections; those receive nothing else from the join.
pub proof fn lemma_join_roster_and_notice(
    s: Seq<Player>,
    c: Seq<String>,
    id: String,
    name: String,
    s2: Seq<Player>,
    r: Seq<Envelope>,
    other: Seq<char>,
)
    requires
        join_result(s, c, id, name, s2, r),
        !has_player(s, id@),
    ensures
        forall|i: int|
            0 <= i < s.len() ==> (#[trigger] r[i]).message == (ServerMessage::PlayerJoined {
                player: s[i],
            }) && s[i].id@ != id@,
        r[s.len() as int].message == (ServerMessage::PlayerJoined {
            player: new_player(id, name, s.len() as int),
        }),
        is_connected(r[s.len() as int].recipients@, other) <==> (is_connected(c, other) && other
            != id@),
        other != id@ ==> forall|i: int|
            0 <= i < s.len() ==> !is_connected((#[trigger] r[i]).recipients@, other),
{
    assert forall|i: int| 0 <= i < s.len() && other != id@ implies !is_connected(
        (#[trigger] r[i]).recipients@,
        other,
    ) by {
        if is_connected(r[i].recipients@, other) {
            let k = choose|k: int| 0 <= k < r[i].recipients@.len() && r[i].recipients@[k]@ == other;
            assert(r[i].recipients@[k] == id);
        }
    }
    assert forall|i: int| 0 <= i < s.len() implies s[i].id@ != id@ by {
        if s[i].id@ == id@ {
            assert(has_player(s, id@));
        }
    }
    lemma_excluding_members(c, Some(id@), other);
}

/// A move notice reaches every registered connection but the mover's.
pub proof fn lemma_move_excludes_sender(
    s: Seq<Player>,
    c: Seq<String>,
    id: String,
    x: u32,
    y: u32,
    z: u32,
    rotation_x: u32,
    rotation_y: u32,
    s2: Seq<Player>,
    r: Seq<Envelope>,
    other: Seq<char>,
)
    requires
        move_result(s, c, id, x, y, z, rotation_x, rotation_y, s2, r),
    ensures
        !is_connected(r[0].recipients@, id@),
        is_connected(r[0].recipients@, other) <==> (is_connected(c, other) && other != id@),
{
    lemma_excluding_members(c, Some(id@), id@);
    lemma_excluding_members(c, Some(id@), other);
}

/// A shot notice reaches every registered connection but the shooter's.
pub proof fn lemma_shoot_excludes_sender(
    s: Seq<Player>,
    c: Seq<String>,
    id: String,
    start: Point,
    target: Point,
    s2: Seq<Player>,
    r: Seq<Envelope>,
    other: Seq<char>,
)
    requires
        shoot_result(s, c, id, start, target, s2, r),
    ensures
        !is_connected(r[0].recipients@, id@),
        is_connected(r[0].recipients@, other) <==> (is_connected(c, other) && other != id@),
{
    lemma_excluding_members(c, Some(id@), id@);
    lemma_excluding_members(c, Some(id@), other);
}

/// Every notice that a hit or a respawn produces goes to every registered
/// connection, the sender's included.
pub proof fn lemma_hit_and_respawn_reach_everyone(
    s: Seq<Player>,
    c: Seq<String>,
    shooter: String,
    target: String,
    s2: Seq<Player>,
    r: Seq<Envelope>,
    s3: Seq<Player>,
    r3: Seq<Envelope>,
)
    requires
        hit_result(s, c, shooter, target, s2, r),
        respawn_result(s, c, shooter, s3, r3),
    ensures
        forall|i: int| 0 <= i < r.len() ==> (#[trigger] r[i]).recipients@ == c,
        forall|i: int| 0 <= i < r3.len() ==> (#[trigger] r3[i]).recipients@ == c,
{
}

/// Replacing a participant by a state with the same id keeps the ids unique,
/// and the participant found under that id is then the new state.
pub proof fn lemma_changed_lookup(s: Seq<Player>, id: Seq<char>, p: Player)
    requires
        ids_unique(s),
        has_player(s, id),
        p.id@ == id,
    ensures
        ids_unique(changed(s, id, p)),
        has_player(changed(s, id, p), id),
        player_of(changed(s, id, p), id) == p,
{
    let i = index_of(s, id);
    let t = changed(s, id, p);
    assert(ids_unique(t));
    lemma_index_of(t, id, i);
}

/// Two confirmed hits take a participant at full health to death: after the
/// first it has half its health and lives, after the second it is dead with
/// no health left, and only the second is lethal.
pub proof fn lemma_two_hits_kill(p: Player)
    requires
        p.wf(),
        p.health == MAX_HEALTH,
    ensures
        !p.is_lethal(HIT_DAMAGE as int),
        p.damaged(HIT_DAMAGE as int).health == 50,
        p.damaged(HIT_DAMAGE as int).alive,
        p.damaged(HIT_DAMAGE as int).is_lethal(HIT_DAMAGE as int),
        p.damaged(HIT_DAMAGE as int).damaged(HIT_DAMAGE as int).health == 0,
        !p.damaged(HIT_DAMAGE as int).damaged(HIT_DAMAGE as int).alive,
{
}

/// Respawning a registered participant, dead or alive, restores full health
/// and life and keeps its kill count.
pub proof fn lemma_respawn_restores(
    s: Seq<Player>,
    c: Seq<String>,
    id: String,
    s2: Seq<Player>,
    r: Seq<Envelope>,
)
    requires
        registry_wf(s),
        has_player(s, id@),
        respawn_result(s, c, id, s2, r),
    ensures
        has_player(s2, id@),
        player_of(s2, id@).health == MAX_HEALTH,
        player_of(s2, id@).alive,
        player_of(s2, id@).kills == player_of(s, id@).kills,
        player_of(s2, id@).wf(),
{
    let old_p = player_of(s, id@);
    let i = index_of(s, id@);
    let p = old_p.respawned(spawn_point(s.len() as int));
    assert(s[i].wf());
    lemma_changed_lookup(s, id@, p);
}

/// After a participant leaves, no participant with its id remains, so no
/// later roster mentions it; every other participant stays.
pub proof fn lemma_left_is_gone(s: Seq<Player>, id: Seq<char>, other: Seq<char>)
    requires
        registry_wf(s),
    ensures
        !has_player(without(s, id), id),
        other != id ==> (has_player(without(s, id), other) <==> has_player(s, other)),
        registry_wf(without(s, id)),
{
    if has_player(s, id) {
        let k = index_of(s, id);
        let t = without(s, id);
        assert forall|a: int| 0 <= a < t.len() implies t[a] == s[if a < k { a } else { a + 1 }] by {}
        if has_player(t, id) {
            let j = choose|j: int| 0 <= j < t.len() && t[j].id@ == id;
            assert(s[if j < k { j } else { j + 1 }].id@ == id);
        }
        if other != id && has_player(s, other) {
            let j = choose|j: int| 0 <= j < s.len() && s[j].id@ == other;
            assert(j != k);
            assert(t[if j < k { j } else { j - 1 }].id@ == other);
        }
        if has_player(t, other) {
            let j = choose|j: int| 0 <= j < t.len() && t[j].id@ == other;
            assert(s[if j < k { j } else { j + 1 }].id@ == other);
        }
    }
}

} // verus!
