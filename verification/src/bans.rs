//! The ban store: persisted snapshots of players taken at ban time.
//!
//! The store keeps records in insertion order. Banning appends a record
//! without checking for an existing one with the same id, so duplicate bans
//! can coexist; this mirrors the admitted gap in the design rather than
//! silently de-duplicating. Unbanning removes the first matching record only.

use vstd::prelude::*;

verus! {

/// A banned player: a snapshot of the player's identity at ban time,
/// persisted independently of the live roster.
pub struct DbRconBannedPlayer {
    /// Stable identifier, e.g. a platform account id.
    pub unique_id: String,
    /// Name the player had when banned.
    pub name: String,
}

/// Whether some record of the ban list carries the given id.
pub open spec fn contains_ban_id(s: Seq<DbRconBannedPlayer>, id: Seq<char>) -> bool {
    exists|k: int| 0 <= k < s.len() && s[k].unique_id@ == id
}

/// How many records of the ban list carry the given id.
pub open spec fn count_bans_with_id(s: Seq<DbRconBannedPlayer>, id: Seq<char>) -> nat
    decreases s.len(),
{
    if s.len() == 0 {
        0
    } else {
        (if s[0].unique_id@ == id {
            1nat
        } else {
            0nat
        }) + count_bans_with_id(s.drop_first(), id)
    }
}

/// The ban list after one unban: the first record with the given id is
/// removed and nothing else changes; without a match the list stays as it is.
pub open spec fn unban_seq(s: Seq<DbRconBannedPlayer>, id: Seq<char>) -> Seq<DbRconBannedPlayer>
    decreases s.len(),
{
    if s.len() == 0 {
        s
    } else if s[0].unique_id@ == id {
        s.drop_first()
    } else {
        seq![s[0]] + unban_seq(s.drop_first(), id)
    }
}

/// A ban list contains a given id exactly when at least one of its records
/// carries it.
pub proof fn lemma_count_positive_iff_contains(s: Seq<DbRconBannedPlayer>, id: Seq<char>)
    ensures
        contains_ban_id(s, id) <==> count_bans_with_id(s, id) > 0,
    decreases s.len(),
{
    if s.len() == 0 {
    } else {
        lemma_count_positive_iff_contains(s.drop_first(), id);
        if s[0].unique_id@ == id {
        } else {
            if contains_ban_id(s, id) {
                let k = choose|k: int| 0 <= k < s.len() && s[k].unique_id@ == id;
                assert(s.drop_first()[k - 1] == s[k]);
            }
            if contains_ban_id(s.drop_first(), id) {
                let k = choose|k: int|
                    0 <= k < s.drop_first().len() && s.drop_first()[k].unique_id@ == id;
                assert(s[k + 1] == s.drop_first()[k]);
            }
        }
    }
}

/// Appending a record changes the count for an id by one when the record
/// carries that id, and not at all otherwise.
pub proof fn lemma_count_push(s: Seq<DbRconBannedPlayer>, r: DbRconBannedPlayer, id: Seq<char>)
    ensures
        count_bans_with_id(s.push(r), id) == count_bans_with_id(s, id) + (if r.unique_id@ == id {
            1nat
        } else {
            0nat
        }),
    decreases s.len(),
{
    if s.len() == 0 {
        assert(s.push(r)[0] == r);
        assert(s.push(r).drop_first() =~= Seq::<DbRconBannedPlayer>::empty());
        assert(count_bans_with_id(s.push(r), id) == (if r.unique_id@ == id {
            1nat
        } else {
            0nat
        }) + count_bans_with_id(s.push(r).drop_first(), id));
        assert(count_bans_with_id(s.push(r).drop_first(), id) == 0);
        assert(count_bans_with_id(s, id) == 0);
    } else {
        assert(s.push(r)[0] == s[0]);
        assert(s.push(r).drop_first() =~= s.drop_first().push(r));
        lemma_count_push(s.drop_first(), r, id);
        assert(count_bans_with_id(s.push(r), id) == (if s[0].unique_id@ == id {
            1nat
        } else {
            0nat
        }) + count_bans_with_id(s.drop_first().push(r), id));
        assert(count_bans_with_id(s, id) == (if s[0].unique_id@ == id {
            1nat
        } else {
            0nat
        }) + count_bans_with_id(s.drop_first(), id));
    }
}

/// Banning the same id twice yields two records for it: the count for that
/// id grows by exactly two. The design keeps duplicates; it does not
/// de-duplicate bans.
pub proof fn lemma_double_ban_counts_twice(
    s: Seq<DbRconBannedPlayer>,
    r1: DbRconBannedPlayer,
    r2: DbRconBannedPlayer,
    id: Seq<char>,
)
    requires
        r1.unique_id@ == id,
        r2.unique_id@ == id,
    ensures
        count_bans_with_id(s.push(r1).push(r2), id) == count_bans_with_id(s, id) + 2,
{
    lemma_count_push(s, r1, id);
    lemma_count_push(s.push(r1), r2, id);
}

/// Unban of an id that no record carries leaves the ban list unchanged.
pub proof fn lemma_unban_seq_no_match(s: Seq<DbRconBannedPlayer>, id: Seq<char>)
    requires
        !contains_ban_id(s, id),
    ensures
        unban_seq(s, id) == s,
    decreases s.len(),
{
    if s.len() == 0 {
    } else {
        assert forall|k: int| 0 <= k < s.drop_first().len() implies s.drop_first()[
            k
        ].unique_id@ != id by {
            assert(s.drop_first()[k] == s[k + 1]);
        }
        lemma_unban_seq_no_match(s.drop_first(), id);
        assert(seq![s[0]] + s.drop_first() =~= s);
    }
}

/// Unbanning removes the first matching record: the list after the unban is
/// the old list with the record at the first matching position taken out.
pub proof fn lemma_unban_seq_at(s: Seq<DbRconBannedPlayer>, id: Seq<char>, j: int)
    requires
        0 <= j < s.len(),
        s[j].unique_id@ == id,
        forall|k: int| 0 <= k < j ==> s[k].unique_id@ != id,
    ensures
        unban_seq(s, id) == s.remove(j),
    decreases j,
{
    if j == 0 {
        assert(s.drop_first() =~= s.remove(0));
    } else {
        assert(s.drop_first()[j - 1] == s[j]);
        assert forall|k: int| 0 <= k < j - 1 implies s.drop_first()[k].unique_id@ != id by {
            assert(s.drop_first()[k] == s[k + 1]);
        }
        lemma_unban_seq_at(s.drop_first(), id, j - 1);
        assert(seq![s[0]] + s.drop_first().remove(j - 1) =~= s.remove(j));
    }
}

/// Unban of a present id removes exactly one matching record: the list
/// shrinks by one and the count for that id drops by one.
pub proof fn lemma_unban_removes_exactly_one(s: Seq<DbRconBannedPlayer>, id: Seq<char>)
    requires
        contains_ban_id(s, id),
    ensures
        unban_seq(s, id).len() == s.len() - 1,
        count_bans_with_id(unban_seq(s, id), id) == count_bans_with_id(s, id) - 1,
    decreases s.len(),
{
    lemma_count_positive_iff_contains(s, id);
    if s[0].unique_id@ == id {
    } else {
        let k = choose|k: int| 0 <= k < s.len() && s[k].unique_id@ == id;
        assert(s.drop_first()[k - 1] == s[k]);
        lemma_unban_removes_exactly_one(s.drop_first(), id);
        let r = seq![s[0]] + unban_seq(s.drop_first(), id);
        assert(r[0] == s[0]);
        assert(r.drop_first() =~= unban_seq(s.drop_first(), id));
    }
}

/// An unban touches no record of any other id: for every id other than the
/// unbanned one, the count of its records is unchanged.
pub proof fn lemma_unban_keeps_other_ids(
    s: Seq<DbRconBannedPlayer>,
    id: Seq<char>,
    other: Seq<char>,
)
    requires
        other != id,
    ensures
        count_bans_with_id(unban_seq(s, id), other) == count_bans_with_id(s, other),
    decreases s.len(),
{
    if s.len() == 0 {
    } else if s[0].unique_id@ == id {
        assert(s[0].unique_id@ != other);
    } else {
        lemma_unban_keeps_other_ids(s.drop_first(), id, other);
        let r = seq![s[0]] + unban_seq(s.drop_first(), id);
        assert(r[0] == s[0]);
        assert(r.drop_first() =~= unban_seq(s.drop_first(), id));
        assert(count_bans_with_id(r, other) == (if s[0].unique_id@ == other {
            1nat
        } else {
            0nat
        }) + count_bans_with_id(r.drop_first(), other));
    }
}

/// The persisted collection of banned players, in insertion order.
pub struct BanStore {
    banned: Vec<DbRconBannedPlayer>,
}

impl View for BanStore {
    type V = Seq<DbRconBannedPlayer>;

    closed spec fn view(&self) -> Seq<DbRconBannedPlayer> {
        self.banned@
    }
}

impl BanStore {
    /// An empty ban store.
    pub fn new() -> (store: Self)
        ensures
            store@ == Seq::<DbRconBannedPlayer>::empty(),
    {
        BanStore { banned: Vec::new() }
    }

    /// The current records, in insertion order (a full scan).
    pub fn list_banned(&self) -> (r: &Vec<DbRconBannedPlayer>)
        ensures
            r@ == self@,
    {
        &self.banned
    }

    /// Whether some record carries the given id.
    pub fn contains_id(&self, unique_id: &String) -> (r: bool)
        ensures
            r == contains_ban_id(self@, unique_id@),
    {
        let mut i: usize = 0;
        while i < self.banned.len()
            invariant
                i <= self.banned.len(),
                forall|k: int| 0 <= k < i ==> self.banned@[k].unique_id@ != unique_id@,
            decreases self.banned.len() - i,
        {
            if self.banned[i].unique_id == *unique_id {
                return true;
            }
            i = i + 1;
        }
        false
    }

    /// The position of the first record with the given id, if any.
    pub fn find_first(&self, unique_id: &String) -> (r: Option<usize>)
        ensures
            match r {
                Option::Some(j) => j < self@.len() && self@[j as int].unique_id@ == unique_id@
                    && (forall|k: int| 0 <= k < j ==> self@[k].unique_id@ != unique_id@),
                Option::None => !contains_ban_id(self@, unique_id@),
            },
    {
        let mut i: usize = 0;
        while i < self.banned.len()
            invariant
                i <= self.banned.len(),
                forall|k: int| 0 <= k < i ==> self.banned@[k].unique_id@ != unique_id@,
            decreases self.banned.len() - i,
        {
            if self.banned[i].unique_id == *unique_id {
                return Option::Some(i);
            }
            i = i + 1;
        }
        Option::None
    }

    /// Insert a new record. No uniqueness check is made: banning an id that
    /// is already banned leaves two records for it.
    pub fn ban(&mut self, record: DbRconBannedPlayer)
        ensures
            final(self)@ == old(self)@.push(record),
    {
        self.banned.push(record);
    }

    /// Remove the first record with the given id; with no match the store is
    /// left unchanged, a silent no-op.
    pub fn unban(&mut self, unique_id: &String)
        ensures
            final(self)@ == unban_seq(old(self)@, unique_id@),
    {
        match self.find_first(unique_id) {
            Option::Some(j) => {
                proof {
                    lemma_unban_seq_at(self@, unique_id@, j as int);
                }
                self.banned.remove(j);
            },
            Option::None => {
                proof {
                    lemma_unban_seq_no_match(self@, unique_id@);
                }
            },
        }
    }
}

} // verus!
