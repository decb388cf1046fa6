use game_server::{
    ClientMessage, Envelope, MessageBroadcaster, MessageHandler, Player, PlayerManager,
    ServerMessage, SpawnSystem,
};

fn s(v: &str) -> String {
    v.to_string()
}

fn bits(v: f32) -> u32 {
    v.to_bits()
}

fn hub() -> MessageHandler {
    MessageHandler::new(PlayerManager::new(), MessageBroadcaster::new())
}

fn join(h: &mut MessageHandler, id: &str, name: &str) -> (Envelope, Vec<Envelope>) {
    let welcome = h.connect(s(id));
    let out = h.handle_message(&s(id), ClientMessage::Join { name: s(name) });
    (welcome, out)
}

fn sorted(mut v: Vec<String>) -> Vec<String> {
    v.sort();
    v
}

#[test]
fn spawn_table_round_robin() {
    let sp = SpawnSystem::new();
    let table = [
        (20.0f32, 10.0f32, 20.0f32),
        (-100.0, 10.0, -80.0),
        (120.0, 10.0, 80.0),
        (-180.0, 10.0, 20.0),
        (130.0, 10.0, -130.0),
    ];
    for i in 0..12usize {
        let (x, y, z) = table[i % 5];
        assert_eq!(sp.get_spawn_position(i), (bits(x), bits(y), bits(z)));
    }
}

#[test]
fn sequential_joins_take_spawn_points_in_turn() {
    let mut h = hub();
    let ids = ["q9", "a1", "zz", "m4", "b7", "c3", "k0"];
    let sp = SpawnSystem::new();
    for (i, id) in ids.iter().enumerate() {
        join(&mut h, id, "p");
        let p = h.get_player(&s(id)).unwrap();
        assert_eq!((p.x, p.y, p.z), sp.get_spawn_position(i));
    }
    let sixth = h.get_player(&s("c3")).unwrap();
    assert_eq!((sixth.x, sixth.y, sixth.z), (bits(20.0), bits(10.0), bits(20.0)));
}

#[test]
fn two_hits_kill_and_credit_once() {
    let mut pm = PlayerManager::new();
    pm.add_player(Player::new(s("a"), s("A"), (0, 0, 0)));
    pm.add_player(Player::new(s("b"), s("B"), (0, 0, 0)));
    assert_eq!(pm.damage_player(&s("b"), 50), Some((false, 50)));
    assert_eq!(pm.damage_player(&s("b"), 50), Some((true, 0)));
    assert!(pm.add_kill_to_player(&s("a")));
    assert_eq!(pm.get_player(&s("a")).unwrap().kills, 1);
    let b = pm.get_player(&s("b")).unwrap();
    assert!(!b.alive);
    assert_eq!(b.health, 0);
}

#[test]
fn damage_never_leaves_range() {
    let mut p = Player::new(s("a"), s("A"), (1, 2, 3));
    for d in [0, 7, 30, 1000, 5, 0] {
        p.take_damage(d);
        assert!(p.health >= 0 && p.health <= 100);
        assert_eq!(p.alive, p.health > 0);
    }
    assert_eq!(p.health, 0);
}

#[test]
fn damage_to_dead_is_not_a_second_death() {
    let mut p = Player::new(s("a"), s("A"), (0, 0, 0));
    assert!(p.take_damage(100));
    assert!(!p.take_damage(50));
    assert_eq!(p.health, 0);
    assert!(!p.alive);
}

#[test]
fn respawn_after_death_keeps_kills() {
    let mut p = Player::new(s("a"), s("A"), (0, 0, 0));
    p.add_kill();
    p.add_kill();
    p.update_position(5, 6, 7, 8, 9);
    p.take_damage(100);
    p.respawn((11, 12, 13));
    assert_eq!(p.health, 100);
    assert!(p.alive);
    assert_eq!(p.kills, 2);
    assert_eq!((p.x, p.y, p.z, p.rotation_x, p.rotation_y), (11, 12, 13, 0, 0));
}

#[test]
fn kill_counter_saturates() {
    let mut p = Player::new(s("a"), s("A"), (0, 0, 0));
    p.kills = i32::MAX;
    p.add_kill();
    assert_eq!(p.kills, i32::MAX);
}

#[test]
fn registry_operations_on_absent_ids_do_nothing() {
    let mut pm = PlayerManager::new();
    pm.add_player(Player::new(s("a"), s("A"), (0, 0, 0)));
    pm.remove_player(&s("x"));
    pm.update_player_position(&s("x"), 1, 1, 1, 1, 1);
    assert_eq!(pm.damage_player(&s("x"), 50), None);
    assert!(!pm.add_kill_to_player(&s("x")));
    assert_eq!(pm.respawn_player(&s("x"), (1, 1, 1)), None);
    assert_eq!(pm.get_player(&s("x")), None);
    assert_eq!(pm.get_player_count(), 1);
    assert_eq!(pm.get_all_players(), vec![Player::new(s("a"), s("A"), (0, 0, 0))]);
}

#[test]
fn add_player_with_same_id_replaces() {
    let mut pm = PlayerManager::new();
    pm.add_player(Player::new(s("a"), s("A"), (0, 0, 0)));
    pm.add_player(Player::new(s("a"), s("A2"), (1, 1, 1)));
    assert_eq!(pm.get_player_count(), 1);
    assert_eq!(pm.get_player(&s("a")).unwrap().name, s("A2"));
}

#[test]
fn broadcast_skips_only_the_excluded() {
    let mut mb = MessageBroadcaster::new();
    mb.add_connection(s("a"));
    mb.add_connection(s("b"));
    mb.add_connection(s("c"));
    mb.add_connection(s("b"));
    let msg = ServerMessage::PlayerLeft { player_id: s("z") };
    let all = mb.broadcast_message(msg.clone(), None);
    assert_eq!(all.recipients, vec![s("a"), s("b"), s("c")]);
    assert_eq!(all.message, msg);
    let some = mb.broadcast_message(msg.clone(), Some(&s("b")));
    assert_eq!(some.recipients, vec![s("a"), s("c")]);
    let other = mb.broadcast_message(msg.clone(), Some(&s("nobody")));
    assert_eq!(other.recipients, vec![s("a"), s("b"), s("c")]);
    mb.remove_connection(&s("a"));
    mb.remove_connection(&s("a"));
    assert_eq!(mb.broadcast_message(msg, None).recipients, vec![s("b"), s("c")]);
}

#[test]
fn unicast_to_unknown_is_empty() {
    let mut mb = MessageBroadcaster::new();
    mb.add_connection(s("a"));
    let msg = ServerMessage::Welcome { player_id: s("a") };
    assert_eq!(mb.send_to_player(&s("a"), msg.clone()).recipients, vec![s("a")]);
    assert!(mb.send_to_player(&s("b"), msg).recipients.is_empty());
    let empty = MessageBroadcaster::new();
    let none = empty.broadcast_message(ServerMessage::PlayerLeft { player_id: s("a") }, None);
    assert!(none.recipients.is_empty());
}

#[test]
fn alice_bob_session() {
    let mut h = hub();
    let (welcome_a, out_a) = join(&mut h, "A", "Alice");
    assert_eq!(welcome_a.message, ServerMessage::Welcome { player_id: s("A") });
    assert_eq!(welcome_a.recipients, vec![s("A")]);
    assert_eq!(out_a.len(), 1);
    let alice = h.get_player(&s("A")).unwrap();
    assert_eq!(out_a[0].message, ServerMessage::PlayerJoined { player: alice.clone() });
    assert!(out_a[0].recipients.is_empty());

    let (welcome_b, out_b) = join(&mut h, "B", "Bob");
    assert_eq!(welcome_b.recipients, vec![s("B")]);
    assert_eq!(out_b.len(), 2);
    assert_eq!(out_b[0].message, ServerMessage::PlayerJoined { player: alice });
    assert_eq!(out_b[0].recipients, vec![s("B")]);
    let bob = h.get_player(&s("B")).unwrap();
    assert_eq!(out_b[1].message, ServerMessage::PlayerJoined { player: bob });
    assert_eq!(out_b[1].recipients, vec![s("A")]);

    let hit = ClientMessage::Hit { target_player_id: s("B"), killed: false };
    let first = h.handle_message(&s("A"), hit.clone());
    assert_eq!(first.len(), 1);
    assert_eq!(
        first[0].message,
        ServerMessage::PlayerHit { player_id: s("B"), damage: 50, health: 50 }
    );
    assert_eq!(sorted(first[0].recipients.clone()), vec![s("A"), s("B")]);
    let second = h.handle_message(&s("A"), hit);
    assert_eq!(second[0].message, ServerMessage::PlayerDied { player_id: s("B"), killer_id: s("A") });
    assert_eq!(sorted(second[0].recipients.clone()), vec![s("A"), s("B")]);
    assert_eq!(h.get_player(&s("A")).unwrap().kills, 1);

    let back = h.handle_message(&s("B"), ClientMessage::Respawn);
    assert_eq!(back.len(), 1);
    assert_eq!(sorted(back[0].recipients.clone()), vec![s("A"), s("B")]);
    match &back[0].message {
        ServerMessage::PlayerRespawned { player } => {
            assert_eq!(player.id, s("B"));
            assert_eq!(player.health, 100);
            assert!(player.alive);
        },
        other => panic!("unexpected {:?}", other),
    }
}

#[test]
fn hit_claim_of_kill_is_not_trusted() {
    let mut h = hub();
    join(&mut h, "A", "Alice");
    join(&mut h, "B", "Bob");
    let out = h.handle_message(&s("A"), ClientMessage::Hit { target_player_id: s("B"), killed: true });
    assert_eq!(out[0].message, ServerMessage::PlayerHit { player_id: s("B"), damage: 50, health: 50 });
    assert_eq!(h.get_player(&s("A")).unwrap().kills, 0);
}

#[test]
fn hit_on_unknown_target_is_silent() {
    let mut h = hub();
    join(&mut h, "A", "Alice");
    let out = h.handle_message(&s("A"), ClientMessage::Hit { target_player_id: s("X"), killed: true });
    assert!(out.is_empty());
    assert!(h.handle_message(&s("X"), ClientMessage::Respawn).is_empty());
}

#[test]
fn move_and_shoot_exclude_sender() {
    let mut h = hub();
    join(&mut h, "A", "Alice");
    join(&mut h, "B", "Bob");
    join(&mut h, "C", "Carol");
    let out = h.handle_message(
        &s("B"),
        ClientMessage::Move { x: 1, y: 2, z: 3, rotation_x: 4, rotation_y: 5 },
    );
    assert_eq!(out.len(), 1);
    assert_eq!(sorted(out[0].recipients.clone()), vec![s("A"), s("C")]);
    assert_eq!(
        out[0].message,
        ServerMessage::PlayerMoved { player_id: s("B"), x: 1, y: 2, z: 3, rotation_x: 4, rotation_y: 5 }
    );
    let b = h.get_player(&s("B")).unwrap();
    assert_eq!((b.x, b.y, b.z, b.rotation_x, b.rotation_y), (1, 2, 3, 4, 5));
    let shot = h.handle_message(
        &s("C"),
        ClientMessage::Shoot { start_x: 1, start_y: 2, start_z: 3, target_x: 4, target_y: 5, target_z: 6 },
    );
    assert_eq!(sorted(shot[0].recipients.clone()), vec![s("A"), s("B")]);
    assert_eq!(
        shot[0].message,
        ServerMessage::PlayerShot {
            shooter_id: s("C"),
            start_x: 1,
            start_y: 2,
            start_z: 3,
            target_x: 4,
            target_y: 5,
            target_z: 6,
        }
    );
}

#[test]
fn later_joiners_are_announced_to_earlier_ones() {
    let mut h = hub();
    join(&mut h, "A", "Alice");
    let (_, out_b) = join(&mut h, "B", "Bob");
    let (_, out_c) = join(&mut h, "C", "Carol");
    assert_eq!(out_b.last().unwrap().recipients, vec![s("A")]);
    assert_eq!(sorted(out_c.last().unwrap().recipients.clone()), vec![s("A"), s("B")]);
    for e in &out_c[..out_c.len() - 1] {
        assert_eq!(e.recipients, vec![s("C")]);
        match &e.message {
            ServerMessage::PlayerJoined { player } => assert_ne!(player.id, s("C")),
            other => panic!("unexpected {:?}", other),
        }
    }
}

#[test]
fn disconnect_removes_from_later_rosters() {
    let mut h = hub();
    join(&mut h, "A", "Alice");
    join(&mut h, "B", "Bob");
    let left = h.disconnect(&s("A"));
    assert_eq!(left.message, ServerMessage::PlayerLeft { player_id: s("A") });
    assert_eq!(left.recipients, vec![s("B")]);
    assert_eq!(h.get_player(&s("A")), None);
    let (_, out_c) = join(&mut h, "C", "Carol");
    assert_eq!(out_c.len(), 2);
    match &out_c[0].message {
        ServerMessage::PlayerJoined { player } => assert_eq!(player.id, s("B")),
        other => panic!("unexpected {:?}", other),
    }
    assert_eq!(out_c[1].recipients, vec![s("B")]);
}

#[test]
fn disconnect_before_join_announces_departure_only() {
    let mut h = hub();
    join(&mut h, "A", "Alice");
    h.connect(s("B"));
    let left = h.disconnect(&s("B"));
    assert_eq!(left.recipients, vec![s("A")]);
    assert_eq!(h.player_count(), 1);
    assert_eq!(h.get_all_players().len(), 1);
}

#[test]
fn respawn_uses_current_count() {
    let mut h = hub();
    join(&mut h, "A", "Alice");
    join(&mut h, "B", "Bob");
    let out = h.handle_message(&s("A"), ClientMessage::Respawn);
    match &out[0].message {
        ServerMessage::PlayerRespawned { player } => {
            assert_eq!((player.x, player.y, player.z), (bits(120.0), bits(10.0), bits(80.0)));
        },
        other => panic!("unexpected {:?}", other),
    }
}
