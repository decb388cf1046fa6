pub mod lemmas;
pub mod message_broadcaster;
pub mod message_handler;
pub mod messages;
pub mod player;
pub mod player_manager;
pub mod spawn_system;

pub use message_broadcaster::MessageBroadcaster;
pub use message_handler::MessageHandler;
pub use messages::{ClientMessage, Envelope, ServerMessage};
pub use player::Player;
pub use player_manager::PlayerManager;
pub use spawn_system::SpawnSystem;
