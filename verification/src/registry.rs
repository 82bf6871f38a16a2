use vstd::prelude::*;

use crate::player::{Player, PlayerV, Playerbook};

verus! {

/// Mathematical state of the registry: the stored records, keyed by the
/// id their key is tagged with, and the watermark count. The count is not
/// a live count of records: it increments on add and decrements on
/// delete, so it can drift from the set of keys actually present.
#[verifier::ext_equal]
pub ghost struct RegistryView {
    pub players: Map<u64, PlayerV>,
    pub count: u64,
}

impl RegistryView {
    /// The state before any operation: no records, count zero.
    pub open spec fn initial() -> RegistryView {
        RegistryView { players: Map::empty(), count: 0 }
    }

    /// What a lookup of `id` observes: the stored record verbatim, or the
    /// sentinel when no record is present under that id.
    pub open spec fn lookup(self, id: u64) -> PlayerV {
        if self.players.contains_key(id) {
            self.players[id]
        } else {
            PlayerV::sentinel()
        }
    }
}

/// The state after adding one player: the count is incremented, and a
/// record carrying the new count as its id is stored under that id.
pub open spec fn add_step(v: RegistryView, name: Seq<char>, public_key: Seq<char>, score: u64) -> RegistryView
    recommends
        v.count < u64::MAX,
{
    let id = (v.count + 1) as u64;
    RegistryView {
        players: v.players.insert(id, PlayerV { id, name, public_key, score }),
        count: id,
    }
}

/// The state after an update of `id`'s score: whatever a lookup of `id`
/// observes — the stored record, or the sentinel on a miss — is rescored
/// and written back under `id`. On a miss this materializes a record
/// with id 0 and the sentinel text under the key.
pub open spec fn update_step(v: RegistryView, id: u64, new_score: u64) -> RegistryView {
    RegistryView { players: v.players.insert(id, v.lookup(id).with_score(new_score)), count: v.count }
}

/// The state after a delete of `id`: when a record is present under `id`
/// it is removed and the count, only when positive, is decremented; when
/// no record is present nothing changes.
pub open spec fn delete_step(v: RegistryView, id: u64) -> RegistryView {
    if v.players.contains_key(id) {
        RegistryView {
            players: v.players.remove(id),
            count: if v.count > 0 { (v.count - 1) as u64 } else { 0 },
        }
    } else {
        v
    }
}

/// The records of an executable store, as mathematical values.
spec fn views_of(m: Map<u64, Player>) -> Map<u64, PlayerV> {
    Map::new(|id: u64| m.contains_key(id), |id: u64| m[id]@)
}

proof fn lemma_views_of_insert(m: Map<u64, Player>, k: u64, p: Player)
    ensures
        views_of(m.insert(k, p)) == views_of(m).insert(k, p@),
{
    assert(views_of(m.insert(k, p)) =~= views_of(m).insert(k, p@));
}

proof fn lemma_views_of_remove(m: Map<u64, Player>, k: u64)
    ensures
        views_of(m.remove(k)) == views_of(m).remove(k),
{
    assert(views_of(m.remove(k)) =~= views_of(m).remove(k));
}

/// The registry itself: the stored records and the watermark count.
pub struct SnakeGameContract {
    players: std::collections::HashMap<u64, Player>,
    count: u64,
}

impl View for SnakeGameContract {
    type V = RegistryView;

    closed spec fn view(&self) -> RegistryView {
        RegistryView { players: views_of(self.players@), count: self.count }
    }
}

impl SnakeGameContract {
    /// A fresh registry with no records and count zero.
    pub fn new() -> (r: SnakeGameContract)
        ensures
            r@ == RegistryView::initial(),
    {
        let r = SnakeGameContract { players: std::collections::HashMap::new(), count: 0 };
        proof {
            assert(views_of(r.players@) =~= Map::<u64, PlayerV>::empty());
            assert(r@ =~= RegistryView::initial());
        }
        r
    }

    /// Registers a new player: increments the count, stores a record
    /// carrying the new count as its id under that id, and returns the id.
    /// Ids issued this way are not unique over the registry's history:
    /// deletes decrement the count, so a later add can reuse the number of
    /// a deleted record — or overwrite a surviving one.
    pub fn add_player(&mut self, name: String, public_key: String, score: u64) -> (id: u64)
        requires
            old(self)@.count < u64::MAX,
        ensures
            id == old(self)@.count + 1,
            final(self)@ == add_step(old(self)@, name@, public_key@, score),
    {
        let (id, new_player) = issue_player(self.count, name, public_key, score);
        self.count = id;
        let key = Playerbook::Player(id);
        let ghost gp = new_player;
        self.players.insert(key.id(), new_player);
        proof {
            lemma_views_of_insert(old(self).players@, id, gp);
            assert(self@ =~= add_step(old(self)@, gp@.name, gp@.public_key, score));
        }
        id
    }

    /// Looks a player up by id: the stored record verbatim when one is
    /// present, the sentinel otherwise. Absence is signalled only through
    /// the sentinel value, never through an error.
    pub fn get_player_by_id(&self, player_id: u64) -> (p: Player)
        ensures
            p@ == self@.lookup(player_id),
    {
        let key = Playerbook::Player(player_id);
        let found = match self.players.get(&key.id()) {
            Some(stored) => Some(stored.clone()),
            None => None,
        };
        resolve_lookup(found)
    }

    /// Overwrites the score of whatever a lookup of `player_id` observes
    /// and writes the result back under `player_id`. On an id with no
    /// record this silently materializes a record with id 0 and the
    /// sentinel text fields, carrying `new_score`.
    pub fn update_score(&mut self, player_id: u64, new_score: u64)
        ensures
            final(self)@ == update_step(old(self)@, player_id, new_score),
    {
        let key = Playerbook::Player(player_id);
        let found = match self.players.get(&key.id()) {
            Some(stored) => Some(stored.clone()),
            None => None,
        };
        let updated = rescored(found, new_score);
        let ghost gp = updated;
        self.players.insert(key.id(), updated);
        proof {
            lemma_views_of_insert(old(self).players@, player_id, gp);
            assert(self@ =~= update_step(old(self)@, player_id, new_score));
        }
    }

    /// Enumerates the id range `1..=count` in ascending order, appending
    /// what a lookup of each id observes: the sequence always has `count`
    /// entries, and entries whose id holds no record are sentinels.
    pub fn get_all_players(&self) -> (r: Vec<Player>)
        ensures
            r@.len() == self@.count,
            forall|j: int| 0 <= j < r@.len() ==> (#[trigger] r@[j])@ == self@.lookup((j + 1) as u64),
    {
        let mut players: Vec<Player> = Vec::new();
        let mut i: u64 = 0;
        while i < self.count
            invariant
                i <= self@.count,
                players@.len() == i,
                forall|j: int| 0 <= j < i ==> (#[trigger] players@[j])@ == self@.lookup((j + 1) as u64),
            decreases self@.count - i,
        {
            let p = self.get_player_by_id(i + 1);
            players.push(p);
            i = i + 1;
        }
        players
    }

    /// Deletes the record under `player_id` when one is present, and then,
    /// only when the count is positive, decrements it. When no record is
    /// present nothing changes.
    pub fn delete_player(&mut self, player_id: u64)
        ensures
            final(self)@ == delete_step(old(self)@, player_id),
    {
        let key = Playerbook::Player(player_id);
        if self.players.contains_key(&key.id()) {
            self.players.remove(&key.id());
            proof {
                lemma_views_of_remove(old(self).players@, player_id);
            }
            match count_after_delete(self.count) {
                Some(new_count) => {
                    self.count = new_count;
                },
                None => {},
            }
            proof {
                assert(self@ =~= delete_step(old(self)@, player_id));
            }
        }
    }
}

/// The id and record an add issues from a given count: the count plus
/// one, and a record carrying it as id together with the caller's fields.
pub fn issue_player(count: u64, name: String, public_key: String, score: u64) -> (r: (u64, Player))
    requires
        count < u64::MAX,
    ensures
        r.0 == count + 1,
        r.1@ == (PlayerV { id: (count + 1) as u64, name: name@, public_key: public_key@, score }),
{
    let id: u64 = count + 1;
    (id, Player { id, name, public_key, score })
}

/// What a lookup hands back once the store has answered: the record found,
/// or the sentinel when the store found none.
pub fn resolve_lookup(found: Option<Player>) -> (p: Player)
    ensures
        p@ == match found {
            Some(stored) => stored@,
            None => PlayerV::sentinel(),
        },
{
    match found {
        Some(stored) => stored,
        None => Player::sentinel(),
    }
}

/// The record an update writes back once the store has answered: what the
/// lookup observed — found record or sentinel — with its score overwritten.
pub fn rescored(found: Option<Player>, new_score: u64) -> (p: Player)
    ensures
        p@ == (match found {
            Some(stored) => stored@,
            None => PlayerV::sentinel(),
        }).with_score(new_score),
{
    let mut p = resolve_lookup(found);
    p.score = new_score;
    p
}

/// The count a delete of a present record leaves behind: decremented when
/// positive, and `None` — write nothing — when it is already zero.
pub fn count_after_delete(count: u64) -> (r: Option<u64>)
    ensures
        r == if count > 0 {
            Some((count - 1) as u64)
        } else {
            None::<u64>
        },
{
    if count > 0 {
        Some(count - 1)
    } else {
        None
    }
}

} // verus!
