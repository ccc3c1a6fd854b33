use vstd::prelude::*;
use crate::positions::{belongs, Position};

verus! {

/// One entry of the player catalog. The name is the key; the catalog never
/// changes once loaded.
pub struct Player {
    pub name: String,
    pub team: String,
    pub position: Vec<Position>,
    pub draft_percent: String,
}

/// A player with these concrete positions satisfies `group` through at least
/// one of them.
pub open spec fn eligible(positions: Seq<Position>, group: Position) -> bool {
    exists|i: int| 0 <= i < positions.len() && belongs(#[trigger] positions[i], group)
}

/// The names held by a list of strings.
pub open spec fn names_of(v: Seq<String>) -> Seq<Seq<char>> {
    v.map_values(|s: String| s@)
}

impl Player {
    /// Whether one of this player's positions satisfies `group`.
    pub fn is_eligible(&self, group: Position) -> (r: bool)
        ensures
            r == eligible(self.position@, group),
    {
        let mut i: usize = 0;
        while i < self.position.len()
            invariant
                i <= self.position@.len(),
                forall|j: int| 0 <= j < i ==> !belongs(#[trigger] self.position@[j], group),
            decreases self.position@.len() - i,
        {
            if self.position[i].does_position_belong(&group) {
                return true;
            }
            i += 1;
        }
        false
    }
}

/// Whether `name` is one of the names in `list`.
pub fn contains_name(list: &Vec<String>, name: &String) -> (r: bool)
    ensures
        r == names_of(list@).contains(name@),
{
    let mut i: usize = 0;
    while i < list.len()
        invariant
            i <= list@.len(),
            forall|j: int| 0 <= j < i ==> list@[j]@ != name@,
        decreases list@.len() - i,
    {
        if list[i] == *name {
            assert(names_of(list@)[i as int] == name@);
            return true;
        }
        i += 1;
    }
    assert(!names_of(list@).contains(name@)) by {
        if names_of(list@).contains(name@) {
            let k = choose|k: int| 0 <= k < names_of(list@).len() && names_of(list@)[k] == name@;
            assert(list@[k]@ == name@);
        }
    }
    false
}

/// The first player of `catalog` with this name, if any.
pub open spec fn lookup(catalog: Seq<Player>, name: Seq<char>) -> Option<Player>
    decreases catalog.len(),
{
    if catalog.len() == 0 {
        None
    } else if catalog[0].name@ == name {
        Some(catalog[0])
    } else {
        lookup(catalog.drop_first(), name)
    }
}

/// Finds the first player of `catalog` named `name`.
pub fn get_player<'a>(catalog: &'a Vec<Player>, name: &String) -> (r: Option<&'a Player>)
    ensures
        match r {
            Some(p) => lookup(catalog@, name@) == Some(*p) && p.name@ == name@,
            None => lookup(catalog@, name@) is None,
        },
{
    let mut i: usize = 0;
    assert(catalog@.skip(0) =~= catalog@);
    while i < catalog.len()
        invariant
            i <= catalog@.len(),
            lookup(catalog@, name@) == lookup(catalog@.skip(i as int), name@),
        decreases catalog@.len() - i,
    {
        assert(catalog@.skip(i as int).drop_first() =~= catalog@.skip(i + 1));
        if catalog[i].name == *name {
            assert(catalog@.skip(i as int)[0] == catalog@[i as int]);
            return Some(&catalog[i]);
        }
        i += 1;
    }
    None
}

} // verus!
