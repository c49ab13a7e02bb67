//! The live roster: players currently connected to the server.
//!
//! The host application owns the roster and adds or removes entries as
//! players connect and disconnect; this crate removes an entry itself when
//! the operator bans the player. The notification types below carry the
//! affected player so the host can drop the real network connection;
//! emitting them is left to the host integration.

use vstd::prelude::*;

verus! {

/// A player currently connected to the server.
pub struct RconPlayer {
    /// Stable identifier, e.g. a platform account id.
    pub unique_id: String,
    /// Name shown to the operator.
    pub name: String,
}

impl RconPlayer {
    /// One-line description of the player: `Name (ID: id)`.
    pub fn display_string(&self) -> (r: String)
        ensures
            r@ == self.name@ + " (ID: "@ + self.unique_id@ + ")"@,
    {
        let mut r = String::new();
        r.append(self.name.as_str());
        r.append(" (ID: ");
        r.append(self.unique_id.as_str());
        r.append(")");
        proof {
            assert(r@ =~= self.name@ + " (ID: "@ + self.unique_id@ + ")"@);
        }
        r
    }
}

/// Notification to the host that a player was banned; the host is expected
/// to disconnect the live session.
pub struct RconPlayerBanned {
    pub player: RconPlayer,
}

/// Notification to the host that a player was kicked; the host is expected
/// to disconnect the live session.
pub struct RconPlayerKicked {
    pub player: RconPlayer,
}

/// Whether some roster entry carries the given id.
pub open spec fn contains_player_id(s: Seq<RconPlayer>, id: Seq<char>) -> bool {
    exists|k: int| 0 <= k < s.len() && s[k].unique_id@ == id
}

/// The roster after every entry with the given id is removed; the order of
/// the remaining entries is kept.
pub open spec fn kick(s: Seq<RconPlayer>, id: Seq<char>) -> Seq<RconPlayer>
    decreases s.len(),
{
    if s.len() == 0 {
        s
    } else if s[0].unique_id@ == id {
        kick(s.drop_first(), id)
    } else {
        seq![s[0]] + kick(s.drop_first(), id)
    }
}

/// After a kick, no entry with the kicked id is left on the roster.
pub proof fn lemma_kick_removes_id(s: Seq<RconPlayer>, id: Seq<char>)
    ensures
        !contains_player_id(kick(s, id), id),
    decreases s.len(),
{
    if s.len() == 0 {
    } else {
        lemma_kick_removes_id(s.drop_first(), id);
        if s[0].unique_id@ == id {
        } else {
            let r = kick(s, id);
            assert forall|k: int| 0 <= k < r.len() implies r[k].unique_id@ != id by {
                if k > 0 {
                    assert(r[k] == kick(s.drop_first(), id)[k - 1]);
                }
            }
        }
    }
}

/// Kicking an id that is not on the roster is a no-op.
pub proof fn lemma_kick_no_match(s: Seq<RconPlayer>, id: Seq<char>)
    requires
        !contains_player_id(s, id),
    ensures
        kick(s, id) == s,
    decreases s.len(),
{
    if s.len() == 0 {
    } else {
        assert forall|k: int| 0 <= k < s.drop_first().len() implies s.drop_first()[
            k
        ].unique_id@ != id by {
            assert(s.drop_first()[k] == s[k + 1]);
        }
        lemma_kick_no_match(s.drop_first(), id);
        assert(seq![s[0]] + s.drop_first() =~= s);
    }
}

/// An entry whose id was not kicked is still on the roster afterwards.
pub proof fn lemma_kick_keeps_other_ids(s: Seq<RconPlayer>, id: Seq<char>, other: Seq<char>)
    requires
        other != id,
        contains_player_id(s, other),
    ensures
        contains_player_id(kick(s, id), other),
    decreases s.len(),
{
    if s.len() == 0 {
    } else {
        let r = kick(s, id);
        if s[0].unique_id@ == other {
            if s[0].unique_id@ == id {
            } else {
                assert(r[0] == s[0]);
            }
        } else {
            let k = choose|k: int| 0 <= k < s.len() && s[k].unique_id@ == other;
            assert(s.drop_first()[k - 1] == s[k]);
            lemma_kick_keeps_other_ids(s.drop_first(), id, other);
            if s[0].unique_id@ == id {
            } else {
                let rest = kick(s.drop_first(), id);
                let j = choose|j: int| 0 <= j < rest.len() && rest[j].unique_id@ == other;
                assert(r[j + 1] == rest[j]);
            }
        }
    }
}

/// The live roster. The host application maintains it as players connect and
/// disconnect; banning a player removes the matching entries here as well.
pub struct RconPlayers {
    pub players: Vec<RconPlayer>,
}

impl RconPlayers {
    /// An empty roster.
    pub fn new() -> (r: Self)
        ensures
            r.players@ == Seq::<RconPlayer>::empty(),
    {
        RconPlayers { players: Vec::new() }
    }

    /// The current entries, in connection order.
    pub fn list(&self) -> (r: &Vec<RconPlayer>)
        ensures
            r@ == self.players@,
    {
        &self.players
    }

    /// Remove every entry with the given id. Removing an id that is not on
    /// the roster leaves it unchanged.
    pub fn remove(&mut self, unique_id: &String)
        ensures
            final(self).players@ == kick(old(self).players@, unique_id@),
    {
        let ghost orig = self.players@;
        let mut i: usize = 0;
        proof {
            assert(orig.skip(0) =~= orig);
            assert(orig.take(0) + kick(orig, unique_id@) =~= kick(orig, unique_id@));
        }
        while i < self.players.len()
            invariant
                i <= self.players.len(),
                forall|k: int| 0 <= k < i ==> self.players@[k].unique_id@ != unique_id@,
                kick(orig, unique_id@) == self.players@.take(i as int) + kick(
                    self.players@.skip(i as int),
                    unique_id@,
                ),
            decreases self.players.len() - i,
        {
            let ghost before = self.players@;
            proof {
                assert(before.skip(i as int)[0] == before[i as int]);
                assert(before.skip(i as int).drop_first() =~= before.skip(i as int + 1));
            }
            if self.players[i].unique_id == *unique_id {
                self.players.remove(i);
                proof {
                    assert(self.players@ =~= before.remove(i as int));
                    assert(self.players@.take(i as int) =~= before.take(i as int));
                    assert(self.players@.skip(i as int) =~= before.skip(i as int + 1));
                }
            } else {
                proof {
                    assert(before.take(i as int + 1) =~= before.take(i as int) + seq![
                        before[i as int],
                    ]);
                    assert(kick(orig, unique_id@) =~= before.take(i as int + 1) + kick(
                        before.skip(i as int + 1),
                        unique_id@,
                    ));
                }
                i = i + 1;
            }
        }
        proof {
            assert(self.players@.take(self.players@.len() as int) =~= self.players@);
            assert(self.players@.skip(self.players@.len() as int) =~= Seq::<
                RconPlayer,
            >::empty());
            assert(self.players@ + kick(Seq::<RconPlayer>::empty(), unique_id@)
                =~= self.players@);
        }
    }
}

} // verus!
