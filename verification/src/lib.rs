pub mod address;
pub mod certificate;
pub mod cycle;
pub mod foreign;
pub mod monitor;
pub mod restart;
pub mod server;
pub mod sources;
pub mod system;
pub mod telegram;
pub mod text;
pub mod types;
pub mod weather;

pub use telegram::Bot;
pub use types::{BotConfig, Config, ServerConfig};
