use bevy_rcon::BanStore;
use bevy_rcon::DbRconBannedPlayer;
use bevy_rcon::RconPlayer;
use bevy_rcon::RconPlayers;
use bevy_rcon::TemplateParams;
use bevy_rcon::base_template;
use bevy_rcon::escape_html;
use bevy_rcon::player_item;
use bevy_rcon::render_ban_list;
use bevy_rcon::render_index;
use bevy_rcon::render_players;
use bevy_rcon::visible_on_roster;

fn player(id: &str, name: &str) -> RconPlayer {
    RconPlayer { unique_id: id.to_string(), name: name.to_string() }
}

fn banned(id: &str, name: &str) -> DbRconBannedPlayer {
    DbRconBannedPlayer { unique_id: id.to_string(), name: name.to_string() }
}

#[test]
fn escape_html_replaces_markup_characters() {
    assert_eq!(escape_html("a<b>&\"c"), "a&lt;b&gt;&amp;&quot;c");
    assert_eq!(escape_html(""), "");
    assert_eq!(escape_html("Player1"), "Player1");
    assert_eq!(escape_html("&&"), "&amp;&amp;");
}

#[test]
fn base_template_wraps_content_and_escapes_headings() {
    let page = base_template(TemplateParams {
        tab_title: "Tab <Title>".to_string(),
        game_name: "Game & Co".to_string(),
        server_name: "\"Main\"".to_string(),
        content: "<p>inner</p>".to_string(),
    });
    assert_eq!(
        page,
        "<!DOCTYPE html><html><head><title>Tab &lt;Title&gt;</title><script src=\"https://unpkg.com/htmx.org@1.9.10\"></script><link href=\"https://fonts.googleapis.com/css2?family=Poppins:wght@400;600&amp;display=swap\" rel=\"stylesheet\"></link></head><body><h1>Game &amp; Co</h1><h2>&quot;Main&quot;</h2><p>inner</p></body></html>"
    );
}

#[test]
fn index_page_loads_both_fragments() {
    assert_eq!(
        render_index(),
        "<!DOCTYPE html><html><head><title>RCON Player Management</title><script src=\"https://unpkg.com/htmx.org@1.9.10\"></script><link href=\"https://fonts.googleapis.com/css2?family=Poppins:wght@400;600&amp;display=swap\" rel=\"stylesheet\"></link></head><body><h1>Game Name</h1><h2>Server Name</h2><h3>Connected Players</h3><div id=\"player-list\" hx-get=\"/players\" hx-trigger=\"load\"></div><h3>Banned Players</h3><div id=\"banned-player-list\" hx-get=\"/ban_list\" hx-trigger=\"load\"></div></body></html>"
    );
}

#[test]
fn player_list_renders_each_entry_with_a_ban_form() {
    let roster = RconPlayers { players: vec![player("steam_123", "Player1")] };
    let bans = BanStore::new();
    assert_eq!(
        render_players(&roster, &bans),
        "<div class=\"player-list\"><div class=\"player-item\"><span>Player1 (ID: steam_123)</span><form hx-post=\"/ban_player\" hx-target=\"body\" hx-swap=\"innerHTML\"><input type=\"hidden\" name=\"unique_id\" value=\"steam_123\"><input type=\"hidden\" name=\"name\" value=\"Player1\"><button type=\"submit\">Ban</button></form></div></div>"
    );
}

#[test]
fn player_list_omits_entries_whose_id_is_banned() {
    let roster = RconPlayers {
        players: vec![player("steam_123", "Player1"), player("steam_456", "Player2")],
    };
    let mut bans = BanStore::new();
    bans.ban(banned("steam_123", "Player1"));

    let fragment = render_players(&roster, &bans);
    assert!(!fragment.contains("steam_123"));
    assert!(fragment.contains("steam_456"));
    // The omitted entry is what the host should be warned about.
    assert!(!visible_on_roster(&roster.players[0], &bans));
    assert!(visible_on_roster(&roster.players[1], &bans));
}

#[test]
fn player_item_escapes_player_supplied_text() {
    let p = player("id<1>", "A&B");
    let bans = BanStore::new();
    assert_eq!(
        player_item(&p, &bans),
        "<div class=\"player-item\"><span>A&amp;B (ID: id&lt;1&gt;)</span><form hx-post=\"/ban_player\" hx-target=\"body\" hx-swap=\"innerHTML\"><input type=\"hidden\" name=\"unique_id\" value=\"id&lt;1&gt;\"><input type=\"hidden\" name=\"name\" value=\"A&amp;B\"><button type=\"submit\">Ban</button></form></div>"
    );
}

#[test]
fn player_item_is_empty_for_a_banned_id() {
    let p = player("steam_123", "Player1");
    let mut bans = BanStore::new();
    bans.ban(banned("steam_123", "Player1"));
    assert_eq!(player_item(&p, &bans), "");
}

#[test]
fn ban_list_renders_each_record_with_an_unban_button() {
    let mut bans = BanStore::new();
    bans.ban(banned("steam_123", "Player1"));
    assert_eq!(
        render_ban_list(&bans),
        "<div class=\"ban-list\"><div class=\"banned-player\"><span>Player1 (ID: steam_123)</span><button hx-post=\"/unban_player/steam_123\" hx-target=\"body\" hx-swap=\"innerHTML\">Unban</button></div></div>"
    );
}

#[test]
fn empty_stores_render_empty_lists() {
    let roster = RconPlayers { players: vec![] };
    let bans = BanStore::new();
    assert_eq!(render_players(&roster, &bans), "<div class=\"player-list\"></div>");
    assert_eq!(render_ban_list(&bans), "<div class=\"ban-list\"></div>");
}
