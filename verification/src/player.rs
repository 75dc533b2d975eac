use vstd::prelude::*;

verus! {

/// One seat in an active game: a player identity together with the
/// score accumulated by that player's rolls.
///
/// Equality between two players, or between a player and a bare
/// identity, goes by the identity alone; scores are never compared.
#[derive(Clone, Copy, Debug)]
pub struct Player {
    pub name: u128,
    pub score: u8,
}

impl Player {
    /// A freshly seated player: the given identity with a score of zero.
    pub fn new(name: u128) -> (p: Self)
        ensures
            p == (Player { name, score: 0u8 }),
    {
        Self { name, score: 0 }
    }
}

impl PartialEq for Player {
    fn eq(&self, other: &Self) -> (r: bool) {
        self.name == other.name
    }
}

impl vstd::std_specs::cmp::PartialEqSpecImpl for Player {
    open spec fn obeys_eq_spec() -> bool {
        true
    }

    open spec fn eq_spec(&self, other: &Self) -> bool {
        self.name == other.name
    }
}

impl PartialEq<u128> for Player {
    fn eq(&self, other: &u128) -> (r: bool) {
        self.name == *other
    }
}

impl vstd::std_specs::cmp::PartialEqSpecImpl<u128> for Player {
    open spec fn obeys_eq_spec() -> bool {
        true
    }

    open spec fn eq_spec(&self, other: &u128) -> bool {
        self.name == *other
    }
}

/// Relies on `ulid::Ulid::new` for a freshly generated 128-bit
/// identifier. The value depends on the clock and on randomness, so
/// nothing is promised of it.
#[verifier::external_body]
fn fresh_identity() -> u128 {
    ulid::Ulid::new().0
}

impl Default for Player {
    /// The fallback player: a freshly generated identity with a score
    /// of zero.
    fn default() -> (p: Self)
        ensures
            p.score == 0,
    {
        Player { name: fresh_identity(), score: 0 }
    }
}

} // verus!
