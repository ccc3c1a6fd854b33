use vstd::prelude::*;
use crate::draft::App;
use crate::player::{eligible, get_player, lookup, names_of, Player};
use crate::positions::Position;

verus! {

/// One line of the roster report: the slot's group, the player who fills it
/// (or the empty marker) and that player's positions.
pub struct SlotFill {
    pub position: Position,
    pub name: String,
    pub positions: Vec<Position>,
}

/// A report line as plain values.
pub type FillView = (Position, Seq<char>, Seq<Position>);

/// The report lines as plain values.
pub open spec fn fills_of(r: Seq<SlotFill>) -> Seq<FillView> {
    r.map_values(|f: SlotFill| (f.position, f.name@, f.positions@))
}

/// The name written in a slot that nobody fills.
pub open spec fn empty_marker() -> Seq<char> {
    seq!['E', 'm', 'p', 't', 'y']
}

/// The default roster template: C×3, PF, PG, SG, SF, G, F, ANY×7.
pub open spec fn default_slots() -> Seq<(Position, u16)> {
    seq![
        (Position::C, 3u16),
        (Position::PF, 1u16),
        (Position::PG, 1u16),
        (Position::SG, 1u16),
        (Position::SF, 1u16),
        (Position::G, 1u16),
        (Position::F, 1u16),
        (Position::ANY, 7u16),
    ]
}

/// The positions the catalog gives a name; none for a name it lacks.
pub open spec fn positions_of(catalog: Seq<Player>, name: Seq<char>) -> Seq<Position> {
    match lookup(catalog, name) {
        Some(p) => p.position@,
        None => Seq::empty(),
    }
}

/// Whether a report line already holds `name`.
pub open spec fn taken(acc: Seq<FillView>, name: Seq<char>) -> bool {
    exists|i: int| 0 <= i < acc.len() && (#[trigger] acc[i]).1 == name
}

/// One slot of capacity `left` for `group`, offered to the first `j` drafted
/// names in order: each name that no line holds yet and that is eligible for
/// the group takes a place while places are left. Gives the lines so far and
/// the places still open.
pub open spec fn slot_pass(
    acc: Seq<FillView>,
    group: Position,
    left: nat,
    drafted: Seq<Seq<char>>,
    catalog: Seq<Player>,
    j: nat,
) -> (Seq<FillView>, nat)
    decreases j,
{
    if j == 0 {
        (acc, left)
    } else {
        let (a, l) = slot_pass(acc, group, left, drafted, catalog, (j - 1) as nat);
        let name = drafted[j - 1];
        if l > 0 && !taken(a, name) && eligible(positions_of(catalog, name), group) {
            (a.push((group, name, positions_of(catalog, name))), (l - 1) as nat)
        } else {
            (a, l)
        }
    }
}

/// `n` empty-marker lines for `group`.
pub open spec fn empties(group: Position, n: nat) -> Seq<FillView> {
    Seq::new(n, |i: int| (group, empty_marker(), Seq::<Position>::empty()))
}

/// The report for the first `i` slots: each slot in order is filled from the
/// drafted names, and its open places become empty-marker lines.
pub open spec fn assignment(
    slots: Seq<(Position, u16)>,
    drafted: Seq<Seq<char>>,
    catalog: Seq<Player>,
    i: nat,
) -> Seq<FillView>
    decreases i,
{
    if i == 0 || i > slots.len() {
        Seq::empty()
    } else {
        let prev = assignment(slots, drafted, catalog, (i - 1) as nat);
        let (group, cap) = slots[i - 1];
        let (a, l) = slot_pass(prev, group, cap as nat, drafted, catalog, drafted.len());
        a + empties(group, l)
    }
}

/// Whether some line of `r` holds `name`.
fn is_taken(r: &Vec<SlotFill>, name: &String) -> (b: bool)
    ensures
        b == taken(fills_of(r@), name@),
{
    let mut i: usize = 0;
    while i < r.len()
        invariant
            i <= r@.len(),
            forall|k: int| 0 <= k < i ==> r@[k].name@ != name@,
        decreases r@.len() - i,
    {
        if r[i].name == *name {
            assert(fills_of(r@)[i as int].1 == name@);
            return true;
        }
        i += 1;
    }
    assert(!taken(fills_of(r@), name@)) by {
        if taken(fills_of(r@), name@) {
            let k = choose|k: int| 0 <= k < fills_of(r@).len() && (#[trigger] fills_of(r@)[k]).1 == name@;
            assert(r@[k].name@ == name@);
        }
    }
    false
}

/// A copy of a list of positions.
fn copy_positions(v: &Vec<Position>) -> (r: Vec<Position>)
    ensures
        r@ == v@,
{
    let mut r: Vec<Position> = Vec::new();
    let mut i: usize = 0;
    while i < v.len()
        invariant
            i <= v@.len(),
            r@ == v@.take(i as int),
        decreases v@.len() - i,
    {
        r.push(v[i]);
        i += 1;
        assert(r@ =~= v@.take(i as int));
    }
    assert(v@.take(v@.len() as int) =~= v@);
    r
}

/// Fills the slots of `slots`, in order, from the drafted names, looking each
/// one up in the catalog; open places are reported as empty-marker lines.
pub fn assign_slots(slots: &Vec<(Position, u16)>, drafted: &Vec<String>, catalog: &Vec<Player>) -> (r: Vec<SlotFill>)
    ensures
        fills_of(r@) == assignment(slots@, names_of(drafted@), catalog@, slots@.len()),
{
    let ghost names = names_of(drafted@);
    let mut r: Vec<SlotFill> = Vec::new();
    let mut i: usize = 0;
    assert(fills_of(r@) =~= Seq::<FillView>::empty());
    while i < slots.len()
        invariant
            i <= slots@.len(),
            names == names_of(drafted@),
            fills_of(r@) == assignment(slots@, names, catalog@, i as nat),
        decreases slots@.len() - i,
    {
        let (group, cap) = slots[i];
        let ghost prev = fills_of(r@);
        let mut left: u16 = cap;
        let mut j: usize = 0;
        while j < drafted.len()
            invariant
                i < slots@.len(),
                j <= drafted@.len(),
                names == names_of(drafted@),
                (group, cap) == slots@[i as int],
                (fills_of(r@), left as nat) == slot_pass(prev, group, cap as nat, names, catalog@, j as nat),
            decreases drafted@.len() - j,
        {
            let ghost before = r@;
            assert(names[j as int] == drafted@[j as int]@);
            if left > 0 {
                if let Some(p) = get_player(catalog, &drafted[j]) {
                    if !is_taken(&r, &p.name) && p.is_eligible(group) {
                        let fill = SlotFill {
                            position: group,
                            name: p.name.clone(),
                            positions: copy_positions(&p.position),
                        };
                        r.push(fill);
                        left -= 1;
                        assert(fills_of(r@) =~= fills_of(before).push(
                            (group, names[j as int], positions_of(catalog@, names[j as int])),
                        ));
                    }
                }
            }
            j += 1;
        }
        let ghost filled = fills_of(r@);
        let ghost open = left as nat;
        while left > 0
            invariant
                left <= open,
                fills_of(r@) == filled + empties(group, (open - left) as nat),
            decreases left,
        {
            let ghost before = r@;
            let marker = String::from_str("Empty");
            proof {
                reveal_strlit("Empty");
                assert(marker@ =~= empty_marker());
            }
            let fill = SlotFill { position: group, name: marker, positions: Vec::new() };
            assert(fill.positions@ =~= Seq::<Position>::empty());
            r.push(fill);
            left -= 1;
            assert(fills_of(r@) =~= fills_of(before).push(
                (group, empty_marker(), Seq::<Position>::empty()),
            ));
            assert(empties(group, (open - left) as nat) =~= empties(
                group,
                (open - left - 1) as nat,
            ).push((group, empty_marker(), Seq::<Position>::empty())));
            assert(fills_of(r@) =~= filled + empties(group, (open - left) as nat));
        }
        i += 1;
        assert(fills_of(r@) =~= assignment(slots@, names, catalog@, i as nat));
    }
    r
}

impl App {
    /// The default roster template, in the order slots are filled.
    pub fn slots() -> (r: Vec<(Position, u16)>)
        ensures
            r@ == default_slots(),
    {
        let r = vec![
            (Position::C, 3),
            (Position::PF, 1),
            (Position::PG, 1),
            (Position::SG, 1),
            (Position::SF, 1),
            (Position::G, 1),
            (Position::F, 1),
            (Position::ANY, 7),
        ];
        assert(r@ =~= default_slots());
        r
    }

    /// The report of my roster against the default template.
    pub fn roster_report(&self) -> (r: Vec<SlotFill>)
        ensures
            fills_of(r@) == assignment(
                default_slots(),
                names_of(self.my_players@),
                self.all_players@,
                default_slots().len(),
            ),
    {
        let slots = App::slots();
        assign_slots(&slots, &self.my_players, &self.all_players)
    }
}

} // verus!
