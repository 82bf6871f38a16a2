use vstd::prelude::*;

verus! {

/// Mathematical value of a player record: the four fields, with the text
/// fields abstracted to character sequences.
#[verifier::ext_equal]
pub ghost struct PlayerV {
    pub id: u64,
    pub name: Seq<char>,
    pub public_key: Seq<char>,
    pub score: u64,
}

impl PlayerV {
    /// The fixed fallback record returned when a lookup misses: id 0 is
    /// reserved for it and is never assigned by the registry.
    pub open spec fn sentinel() -> PlayerV {
        PlayerV { id: 0, name: "Not Found"@, public_key: "Not Found"@, score: 0 }
    }

    /// The same record with the score overwritten.
    pub open spec fn with_score(self, score: u64) -> PlayerV {
        PlayerV { score, ..self }
    }
}

/// One registered participant. The registry assigns `id`; callers never
/// choose it. `name` and `public_key` are opaque text, accepted without
/// validation; `score` is the single mutable field.
pub struct Player {
    pub id: u64,
    pub name: String,
    pub public_key: String,
    pub score: u64,
}

impl View for Player {
    type V = PlayerV;

    open spec fn view(&self) -> PlayerV {
        PlayerV { id: self.id, name: self.name@, public_key: self.public_key@, score: self.score }
    }
}

impl Clone for Player {
    fn clone(&self) -> (r: Self)
        ensures
            r@ == self@,
    {
        Player {
            id: self.id,
            name: self.name.clone(),
            public_key: self.public_key.clone(),
            score: self.score,
        }
    }
}

impl Player {
    /// The sentinel record that stands for "not found".
    pub fn sentinel() -> (p: Player)
        ensures
            p@ == PlayerV::sentinel(),
    {
        Player {
            id: 0,
            name: String::from_str("Not Found"),
            public_key: String::from_str("Not Found"),
            score: 0,
        }
    }
}

/// The key class under which a player record is persisted: a key tagged
/// with the record's assigned id.
pub enum Playerbook {
    Player(u64),
}

impl Playerbook {
    /// The id a key is tagged with.
    pub open spec fn spec_id(self) -> u64 {
        match self {
            Playerbook::Player(i) => i,
        }
    }

    /// The id a key is tagged with.
    pub fn id(&self) -> (i: u64)
        ensures
            i == self.spec_id(),
    {
        match self {
            Playerbook::Player(i) => *i,
        }
    }
}

} // verus!
