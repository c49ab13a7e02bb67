use bevy_rcon::BanStore;
use bevy_rcon::DbRconBannedPlayer;
use bevy_rcon::RconPlayer;
use bevy_rcon::RconPlayerBanned;
use bevy_rcon::RconPlayerKicked;
use bevy_rcon::RconPlayers;
use bevy_rcon::ban_player;
use bevy_rcon::unban_player;

fn player(id: &str, name: &str) -> RconPlayer {
    RconPlayer { unique_id: id.to_string(), name: name.to_string() }
}

fn banned(id: &str, name: &str) -> DbRconBannedPlayer {
    DbRconBannedPlayer { unique_id: id.to_string(), name: name.to_string() }
}

#[test]
fn ban_moves_player_from_roster_to_ban_store() {
    let mut roster = RconPlayers { players: vec![player("steam_123", "Player1")] };
    let mut bans = BanStore::new();

    let accepted = ban_player(
        &mut roster,
        &mut bans,
        "steam_123".to_string(),
        "Player1".to_string(),
    );

    assert!(accepted);
    assert!(roster.list().is_empty());
    let records = bans.list_banned();
    assert_eq!(records.len(), 1);
    assert_eq!(records[0].unique_id, "steam_123");
    assert_eq!(records[0].name, "Player1");
}

#[test]
fn ban_keeps_other_players_on_roster() {
    let mut roster = RconPlayers {
        players: vec![
            player("steam_123", "Player1"),
            player("steam_456", "Player2"),
            player("steam_123", "Player1"),
        ],
    };
    let mut bans = BanStore::new();

    let accepted = ban_player(
        &mut roster,
        &mut bans,
        "steam_123".to_string(),
        "Player1".to_string(),
    );

    assert!(accepted);
    assert_eq!(roster.list().len(), 1);
    assert_eq!(roster.list()[0].unique_id, "steam_456");
    assert_eq!(roster.list()[0].name, "Player2");
}

#[test]
fn ban_with_empty_id_changes_nothing() {
    let mut roster = RconPlayers { players: vec![player("steam_123", "Player1")] };
    let mut bans = BanStore::new();

    let accepted = ban_player(&mut roster, &mut bans, "".to_string(), "Player1".to_string());

    assert!(!accepted);
    assert_eq!(roster.list().len(), 1);
    assert!(bans.list_banned().is_empty());
}

#[test]
fn ban_with_empty_name_changes_nothing() {
    let mut roster = RconPlayers { players: vec![player("steam_123", "Player1")] };
    let mut bans = BanStore::new();

    let accepted = ban_player(&mut roster, &mut bans, "steam_123".to_string(), "".to_string());

    assert!(!accepted);
    assert_eq!(roster.list().len(), 1);
    assert!(bans.list_banned().is_empty());
}

#[test]
fn banning_same_id_twice_keeps_two_records() {
    let mut roster = RconPlayers { players: vec![player("steam_123", "Player1")] };
    let mut bans = BanStore::new();

    assert!(ban_player(
        &mut roster,
        &mut bans,
        "steam_123".to_string(),
        "Player1".to_string(),
    ));
    assert!(ban_player(
        &mut roster,
        &mut bans,
        "steam_123".to_string(),
        "Player1".to_string(),
    ));

    let records = bans.list_banned();
    assert_eq!(records.len(), 2);
    assert_eq!(records[0].unique_id, "steam_123");
    assert_eq!(records[1].unique_id, "steam_123");
}

#[test]
fn unban_removes_the_banned_record() {
    let mut roster = RconPlayers { players: vec![] };
    let mut bans = BanStore::new();
    bans.ban(banned("steam_123", "Player1"));

    unban_player(&mut roster, &mut bans, &"steam_123".to_string());

    assert!(bans.list_banned().is_empty());
}

#[test]
fn unban_removes_only_the_first_matching_record() {
    let mut roster = RconPlayers { players: vec![player("steam_456", "Player2")] };
    let mut bans = BanStore::new();
    bans.ban(banned("steam_123", "Old Name"));
    bans.ban(banned("steam_999", "Player9"));
    bans.ban(banned("steam_123", "New Name"));

    unban_player(&mut roster, &mut bans, &"steam_123".to_string());

    let records = bans.list_banned();
    assert_eq!(records.len(), 2);
    assert_eq!(records[0].unique_id, "steam_999");
    assert_eq!(records[1].unique_id, "steam_123");
    assert_eq!(records[1].name, "New Name");
    // The roster is untouched by an unban.
    assert_eq!(roster.list().len(), 1);
    assert_eq!(roster.list()[0].unique_id, "steam_456");
}

#[test]
fn unban_of_unknown_id_is_a_silent_no_op() {
    let mut roster = RconPlayers { players: vec![player("steam_456", "Player2")] };
    let mut bans = BanStore::new();
    bans.ban(banned("steam_123", "Player1"));

    unban_player(&mut roster, &mut bans, &"steam_000".to_string());

    assert_eq!(bans.list_banned().len(), 1);
    assert_eq!(bans.list_banned()[0].unique_id, "steam_123");
    assert_eq!(roster.list().len(), 1);
}

#[test]
fn roster_remove_is_a_no_op_for_unknown_id() {
    let mut roster = RconPlayers {
        players: vec![player("steam_123", "Player1"), player("steam_456", "Player2")],
    };

    roster.remove(&"steam_000".to_string());

    assert_eq!(roster.list().len(), 2);
}

#[test]
fn ban_store_find_first_and_contains() {
    let mut bans = BanStore::new();
    assert!(!bans.contains_id(&"steam_123".to_string()));
    assert_eq!(bans.find_first(&"steam_123".to_string()), None);

    bans.ban(banned("steam_999", "Player9"));
    bans.ban(banned("steam_123", "Player1"));
    bans.ban(banned("steam_123", "Player1"));

    assert!(bans.contains_id(&"steam_123".to_string()));
    assert_eq!(bans.find_first(&"steam_123".to_string()), Some(1));
    assert_eq!(bans.find_first(&"steam_999".to_string()), Some(0));
}

#[test]
fn notification_values_carry_the_affected_player() {
    let b = RconPlayerBanned { player: player("steam_123", "Player1") };
    let k = RconPlayerKicked { player: player("steam_456", "Player2") };
    assert_eq!(b.player.unique_id, "steam_123");
    assert_eq!(b.player.name, "Player1");
    assert_eq!(k.player.unique_id, "steam_456");
    assert_eq!(k.player.name, "Player2");
}

#[test]
fn display_string_shows_name_and_id() {
    let p = player("steam_123", "Player1");
    assert_eq!(p.display_string(), "Player1 (ID: steam_123)");
}
