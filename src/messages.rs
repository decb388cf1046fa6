use vstd::prelude::*;
use crate::player::Player;

verus! {

/// A request from a client. Coordinates are single-precision bit patterns.
#[derive(Clone, Debug, PartialEq)]
pub enum ClientMessage {
    Join { name: String },
    Move { x: u32, y: u32, z: u32, rotation_x: u32, rotation_y: u32 },
    Shoot {
        start_x: u32,
        start_y: u32,
        start_z: u32,
        target_x: u32,
        target_y: u32,
        target_z: u32,
    },
    /// `killed` is the client's claim; lethality is decided from health.
    Hit { target_player_id: String, killed: bool },
    Respawn,
}

/// A notice sent by the server. Coordinates are single-precision bit patterns.
#[derive(Clone, Debug, PartialEq)]
pub enum ServerMessage {
    Welcome { player_id: String },
    PlayerJoined { player: Player },
    PlayerLeft { player_id: String },
    PlayerMoved { player_id: String, x: u32, y: u32, z: u32, rotation_x: u32, rotation_y: u32 },
    PlayerShot {
        shooter_id: String,
        start_x: u32,
        start_y: u32,
        start_z: u32,
        target_x: u32,
        target_y: u32,
        target_z: u32,
    },
    PlayerHit { player_id: String, damage: i32, health: i32 },
    PlayerDied { player_id: String, killer_id: String },
    PlayerRespawned { player: Player },
}

/// One message and the connections it is to be enqueued on, in order.
#[derive(Clone, Debug, PartialEq)]
pub struct Envelope {
    pub recipients: Vec<String>,
    pub message: ServerMessage,
}

} // verus!
