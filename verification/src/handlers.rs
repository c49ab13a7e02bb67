//! What the admin form submissions do to the two stores.
//!
//! These are the decision parts of the ban and unban endpoints: they take the
//! submitted fields and the two stores as plain values and perform the store
//! changes. The surrounding web plumbing (form decoding, re-rendering the
//! index page as the response) is the host application's business.

use vstd::prelude::*;

use crate::bans::BanStore;
use crate::bans::DbRconBannedPlayer;
use crate::bans::contains_ban_id;
use crate::bans::count_bans_with_id;
use crate::bans::lemma_unban_removes_exactly_one;
use crate::bans::lemma_unban_seq_no_match;
use crate::bans::unban_seq;
use crate::player::RconPlayers;
use crate::player::contains_player_id;
use crate::player::kick;
use crate::player::lemma_kick_removes_id;

verus! {

/// Handle a ban submission. A submission with an empty id or an empty name
/// is rejected and both stores are left unchanged; otherwise a snapshot of
/// the submitted id and name is appended to the ban store and every roster
/// entry with that id is removed.
pub fn ban_player(
    roster: &mut RconPlayers,
    bans: &mut BanStore,
    unique_id: String,
    name: String,
) -> (accepted: bool)
    ensures
        accepted == (unique_id@.len() > 0 && name@.len() > 0),
        accepted ==> final(bans)@ == old(bans)@.push(
            (DbRconBannedPlayer { unique_id: unique_id, name: name }),
        ),
        accepted ==> final(roster).players@ == kick(old(roster).players@, unique_id@),
        accepted ==> contains_ban_id(final(bans)@, unique_id@),
        accepted ==> !contains_player_id(final(roster).players@, unique_id@),
        !accepted ==> final(bans)@ == old(bans)@,
        !accepted ==> final(roster).players@ == old(roster).players@,
{
    if unique_id.as_str().is_empty() || name.as_str().is_empty() {
        return false;
    }
    let id_for_roster = unique_id.clone();
    bans.ban(DbRconBannedPlayer { unique_id, name });
    roster.remove(&id_for_roster);
    proof {
        lemma_kick_removes_id(old(roster).players@, id_for_roster@);
        assert(bans@[bans@.len() - 1].unique_id@ == id_for_roster@);
    }
    true
}

/// Handle an unban submission. The first ban record with the given id is
/// removed; an id with no record is a silent no-op, not an error. The roster
/// is never touched.
pub fn unban_player(roster: &mut RconPlayers, bans: &mut BanStore, unique_id: &String)
    ensures
        final(bans)@ == unban_seq(old(bans)@, unique_id@),
        final(roster).players@ == old(roster).players@,
        !contains_ban_id(old(bans)@, unique_id@) ==> final(bans)@ == old(bans)@,
        contains_ban_id(old(bans)@, unique_id@) ==> final(bans)@.len() == old(bans)@.len() - 1,
        contains_ban_id(old(bans)@, unique_id@) ==> count_bans_with_id(final(bans)@, unique_id@)
            == count_bans_with_id(old(bans)@, unique_id@) - 1,
{
    bans.unban(unique_id);
    proof {
        if contains_ban_id(old(bans)@, unique_id@) {
            lemma_unban_removes_exactly_one(old(bans)@, unique_id@);
        } else {
            lemma_unban_seq_no_match(old(bans)@, unique_id@);
        }
    }
}

} // verus!
