//! Web-based admin panel logic for a game server: a live roster of connected
//! players, a persisted ban list, and the HTML fragments an operator sees.
//!
//! The data model and every rule (which ban submissions are accepted, which
//! record an unban removes, which roster entries a page shows) live here with
//! verified contracts. The web server, the entity store and the persistence
//! layer are the host application's business and sit outside this crate.

pub mod bans;
pub mod escape;
pub mod handlers;
pub mod pages;
pub mod player;
pub mod template;

pub use bans::BanStore;
pub use bans::DbRconBannedPlayer;
pub use escape::escape_html;
pub use handlers::ban_player;
pub use handlers::unban_player;
pub use pages::player_item;
pub use pages::render_ban_list;
pub use pages::render_index;
pub use pages::render_players;
pub use pages::visible_on_roster;
pub use player::RconPlayer;
pub use player::RconPlayerBanned;
pub use player::RconPlayerKicked;
pub use player::RconPlayers;
pub use template::TemplateParams;
pub use template::base_template;
