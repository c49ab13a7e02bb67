//! The three HTML views the admin panel serves: the index page, the roster
//! fragment and the ban-list fragment.
//!
//! Fragments are rendered against the current store contents and replace
//! parts of an already-loaded page on the client. A roster entry whose id is
//! also in the ban store is omitted from the roster fragment: such an entry
//! means the host failed to keep the roster in sync, and the host is told so
//! through the return value of [`visible_on_roster`].

use vstd::prelude::*;

use crate::bans::BanStore;
use crate::bans::DbRconBannedPlayer;
use crate::bans::contains_ban_id;
use crate::escape::escape_html;
use crate::escape::escape_seq;
use crate::player::RconPlayer;
use crate::player::RconPlayers;
use crate::template::TemplateParams;
use crate::template::base_template;
use crate::template::spec_base_template;

verus! {

/// One roster entry as shown to the operator: the player's name and id and
/// a form that submits a ban for them.
pub open spec fn spec_player_item(name: Seq<char>, unique_id: Seq<char>) -> Seq<char> {
    "<div class=\"player-item\"><span>"@ + escape_seq(name) + " (ID: "@ + escape_seq(unique_id)
        + ")</span><form hx-post=\"/ban_player\" hx-target=\"body\" hx-swap=\"innerHTML\"><input type=\"hidden\" name=\"unique_id\" value=\""@
        + escape_seq(unique_id) + "\"><input type=\"hidden\" name=\"name\" value=\""@ + escape_seq(
        name,
    ) + "\"><button type=\"submit\">Ban</button></form></div>"@
}

/// What one roster entry contributes to the roster fragment: nothing when
/// its id is in the ban store, its item markup otherwise.
pub open spec fn spec_visible_player_item(p: RconPlayer, bans: Seq<DbRconBannedPlayer>) -> Seq<
    char,
> {
    if contains_ban_id(bans, p.unique_id@) {
        Seq::empty()
    } else {
        spec_player_item(p.name@, p.unique_id@)
    }
}

/// The roster entries' markup, in roster order, with banned ids omitted.
pub open spec fn spec_player_entries(
    players: Seq<RconPlayer>,
    bans: Seq<DbRconBannedPlayer>,
) -> Seq<char>
    decreases players.len(),
{
    if players.len() == 0 {
        Seq::empty()
    } else {
        spec_visible_player_item(players[0], bans) + spec_player_entries(
            players.drop_first(),
            bans,
        )
    }
}

/// The whole roster fragment.
pub open spec fn spec_player_list(
    players: Seq<RconPlayer>,
    bans: Seq<DbRconBannedPlayer>,
) -> Seq<char> {
    "<div class=\"player-list\">"@ + spec_player_entries(players, bans) + "</div>"@
}

/// One ban record as shown to the operator, with a button that submits the
/// matching unban.
pub open spec fn spec_ban_item(name: Seq<char>, unique_id: Seq<char>) -> Seq<char> {
    "<div class=\"banned-player\"><span>"@ + escape_seq(name) + " (ID: "@ + escape_seq(unique_id)
        + ")</span><button hx-post=\"/unban_player/"@ + escape_seq(unique_id)
        + "\" hx-target=\"body\" hx-swap=\"innerHTML\">Unban</button></div>"@
}

/// The ban records' markup, in store order.
pub open spec fn spec_ban_entries(bans: Seq<DbRconBannedPlayer>) -> Seq<char>
    decreases bans.len(),
{
    if bans.len() == 0 {
        Seq::empty()
    } else {
        spec_ban_item(bans[0].name@, bans[0].unique_id@) + spec_ban_entries(bans.drop_first())
    }
}

/// The whole ban-list fragment.
pub open spec fn spec_ban_list(bans: Seq<DbRconBannedPlayer>) -> Seq<char> {
    "<div class=\"ban-list\">"@ + spec_ban_entries(bans) + "</div>"@
}

/// The index page's inner content: two placeholders that load the roster
/// fragment and the ban-list fragment once the page is shown.
pub open spec fn spec_index_content() -> Seq<char> {
    "<h3>Connected Players</h3><div id=\"player-list\" hx-get=\"/players\" hx-trigger=\"load\"></div><h3>Banned Players</h3><div id=\"banned-player-list\" hx-get=\"/ban_list\" hx-trigger=\"load\"></div>"@
}

/// The full index page.
pub open spec fn spec_index_page() -> Seq<char> {
    spec_base_template(
        "RCON Player Management"@,
        "Game Name"@,
        "Server Name"@,
        spec_index_content(),
    )
}

/// Whether a roster entry is shown on the roster fragment: it is omitted
/// exactly when its id is in the ban store. A `false` here means the host
/// put a banned player on the roster, which deserves a warning in the
/// host's log.
pub fn visible_on_roster(player: &RconPlayer, bans: &BanStore) -> (visible: bool)
    ensures
        visible == !contains_ban_id(bans@, player.unique_id@),
{
    !bans.contains_id(&player.unique_id)
}

/// Render one roster entry: empty markup when the player's id is banned,
/// the item with its ban form otherwise.
pub fn player_item(player: &RconPlayer, bans: &BanStore) -> (r: String)
    ensures
        r@ == spec_visible_player_item(*player, bans@),
{
    if bans.contains_id(&player.unique_id) {
        String::new()
    } else {
        let name = escape_html(player.name.as_str());
        let id = escape_html(player.unique_id.as_str());
        let mut r = String::new();
        r.append("<div class=\"player-item\"><span>");
        r.append(name.as_str());
        r.append(" (ID: ");
        r.append(id.as_str());
        r.append(
            ")</span><form hx-post=\"/ban_player\" hx-target=\"body\" hx-swap=\"innerHTML\"><input type=\"hidden\" name=\"unique_id\" value=\"",
        );
        r.append(id.as_str());
        r.append("\"><input type=\"hidden\" name=\"name\" value=\"");
        r.append(name.as_str());
        r.append("\"><button type=\"submit\">Ban</button></form></div>");
        proof {
            assert(r@ =~= spec_player_item(player.name@, player.unique_id@));
        }
        r
    }
}

/// Render the roster fragment for the current roster and ban store.
pub fn render_players(roster: &RconPlayers, bans: &BanStore) -> (r: String)
    ensures
        r@ == spec_player_list(roster.players@, bans@),
{
    let mut items = String::new();
    let mut i: usize = 0;
    proof {
        assert(roster.players@.skip(0) =~= roster.players@);
        assert(items@ + spec_player_entries(roster.players@, bans@) =~= spec_player_entries(
            roster.players@,
            bans@,
        ));
    }
    while i < roster.players.len()
        invariant
            i <= roster.players@.len(),
            spec_player_entries(roster.players@, bans@) == items@ + spec_player_entries(
                roster.players@.skip(i as int),
                bans@,
            ),
        decreases roster.players@.len() - i,
    {
        proof {
            assert(roster.players@.skip(i as int)[0] == roster.players@[i as int]);
            assert(roster.players@.skip(i as int).drop_first() =~= roster.players@.skip(
                i as int + 1,
            ));
        }
        let item = player_item(&roster.players[i], bans);
        items.append(item.as_str());
        proof {
            assert(spec_player_entries(roster.players@, bans@) =~= items@ + spec_player_entries(
                roster.players@.skip(i as int + 1),
                bans@,
            ));
        }
        i = i + 1;
    }
    proof {
        assert(roster.players@.skip(roster.players@.len() as int) =~= Seq::<RconPlayer>::empty());
        assert(items@ + spec_player_entries(Seq::<RconPlayer>::empty(), bans@) =~= items@);
    }
    let mut r = String::new();
    r.append("<div class=\"player-list\">");
    r.append(items.as_str());
    r.append("</div>");
    proof {
        assert(r@ =~= spec_player_list(roster.players@, bans@));
    }
    r
}

/// Render the ban-list fragment for the current ban store.
pub fn render_ban_list(bans: &BanStore) -> (r: String)
    ensures
        r@ == spec_ban_list(bans@),
{
    let records = bans.list_banned();
    let mut items = String::new();
    let mut i: usize = 0;
    proof {
        assert(bans@.skip(0) =~= bans@);
        assert(items@ + spec_ban_entries(bans@) =~= spec_ban_entries(bans@));
    }
    while i < records.len()
        invariant
            records@ == bans@,
            i <= bans@.len(),
            spec_ban_entries(bans@) == items@ + spec_ban_entries(bans@.skip(i as int)),
        decreases bans@.len() - i,
    {
        proof {
            assert(bans@.skip(i as int)[0] == bans@[i as int]);
            assert(bans@.skip(i as int).drop_first() =~= bans@.skip(i as int + 1));
        }
        let name = escape_html(records[i].name.as_str());
        let id = escape_html(records[i].unique_id.as_str());
        items.append("<div class=\"banned-player\"><span>");
        items.append(name.as_str());
        items.append(" (ID: ");
        items.append(id.as_str());
        items.append(")</span><button hx-post=\"/unban_player/");
        items.append(id.as_str());
        items.append("\" hx-target=\"body\" hx-swap=\"innerHTML\">Unban</button></div>");
        proof {
            assert(spec_ban_entries(bans@) =~= items@ + spec_ban_entries(bans@.skip(i as int + 1)));
        }
        i = i + 1;
    }
    proof {
        assert(bans@.skip(bans@.len() as int) =~= Seq::<DbRconBannedPlayer>::empty());
        assert(items@ + spec_ban_entries(Seq::<DbRconBannedPlayer>::empty()) =~= items@);
    }
    let mut r = String::new();
    r.append("<div class=\"ban-list\">");
    r.append(items.as_str());
    r.append("</div>");
    proof {
        assert(r@ =~= spec_ban_list(bans@));
    }
    r
}

/// Render the index page: the page shell around the two lazily loading
/// fragments.
pub fn render_index() -> (r: String)
    ensures
        r@ == spec_index_page(),
{
    let params = TemplateParams {
        tab_title: String::from_str("RCON Player Management"),
        game_name: String::from_str("Game Name"),
        server_name: String::from_str("Server Name"),
        content: String::from_str(
            "<h3>Connected Players</h3><div id=\"player-list\" hx-get=\"/players\" hx-trigger=\"load\"></div><h3>Banned Players</h3><div id=\"banned-player-list\" hx-get=\"/ban_list\" hx-trigger=\"load\"></div>",
        ),
    };
    base_template(params)
}

} // verus!
