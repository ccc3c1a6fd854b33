use vstd::prelude::*;

verus! {

/// A basketball position: the five concrete positions a player plays, plus the
/// broader groups (`F`, `G`, `TALL`, `SHORT`, `ANY`) used only as query filters.
#[derive(Clone, Copy, Debug, PartialEq, Eq, Structural)]
pub enum Position {
    ANY,
    PG,
    SG,
    SF,
    PF,
    C,
    F,
    G,
    TALL,
    SHORT,
}

/// The eligibility table: does a player at concrete position `p` satisfy the
/// query group `g`? Only the five concrete positions satisfy any group.
pub open spec fn belongs(p: Position, g: Position) -> bool {
    match p {
        Position::PG => g == Position::PG || g == Position::G || g == Position::SHORT || g
            == Position::ANY,
        Position::SG => g == Position::SG || g == Position::G || g == Position::SHORT || g
            == Position::ANY,
        Position::SF => g == Position::SF || g == Position::F || g == Position::TALL || g
            == Position::ANY,
        Position::PF => g == Position::PF || g == Position::F || g == Position::TALL || g
            == Position::ANY,
        Position::C => g == Position::C || g == Position::TALL || g == Position::ANY,
        _ => false,
    }
}

/// Every group, in the order of the navigation ring.
pub open spec fn ring() -> Seq<Position> {
    seq![
        Position::ANY,
        Position::PG,
        Position::SG,
        Position::SF,
        Position::PF,
        Position::C,
        Position::F,
        Position::G,
        Position::TALL,
        Position::SHORT,
    ]
}

/// Where a group stands in the navigation ring.
pub open spec fn ring_index(g: Position) -> int {
    match g {
        Position::ANY => 0,
        Position::PG => 1,
        Position::SG => 2,
        Position::SF => 3,
        Position::PF => 4,
        Position::C => 5,
        Position::F => 6,
        Position::G => 7,
        Position::TALL => 8,
        Position::SHORT => 9,
    }
}

/// The group one step to the right in the ring, wrapping around.
pub open spec fn right_of(g: Position) -> Position {
    ring()[(ring_index(g) + 1) % 10]
}

/// The group one step to the left in the ring, wrapping around.
pub open spec fn left_of(g: Position) -> Position {
    ring()[(ring_index(g) + 9) % 10]
}

/// The group reached after `n` steps to the right.
pub open spec fn right_steps(g: Position, n: nat) -> Position
    decreases n,
{
    if n == 0 {
        g
    } else {
        right_of(right_steps(g, (n - 1) as nat))
    }
}

/// The group reached after `n` steps to the left.
pub open spec fn left_steps(g: Position, n: nat) -> Position
    decreases n,
{
    if n == 0 {
        g
    } else {
        left_of(left_steps(g, (n - 1) as nat))
    }
}

impl Position {
    /// Whether a player at this concrete position is eligible for `group`.
    pub fn does_position_belong(&self, group: &Self) -> (r: bool)
        ensures
            r == belongs(*self, *group),
    {
        let g = *group;
        match self {
            Position::PG => g == Position::PG || g == Position::G || g == Position::SHORT || g
                == Position::ANY,
            Position::SG => g == Position::SG || g == Position::G || g == Position::SHORT || g
                == Position::ANY,
            Position::SF => g == Position::SF || g == Position::F || g == Position::TALL || g
                == Position::ANY,
            Position::PF => g == Position::PF || g == Position::F || g == Position::TALL || g
                == Position::ANY,
            Position::C => g == Position::C || g == Position::TALL || g == Position::ANY,
            _ => false,
        }
    }

    /// All groups, in ring order starting at `ANY`.
    pub fn get_all_positions() -> (r: Vec<Position>)
        ensures
            r@ == ring(),
    {
        let r = vec![
            Position::ANY,
            Position::PG,
            Position::SG,
            Position::SF,
            Position::PF,
            Position::C,
            Position::F,
            Position::G,
            Position::TALL,
            Position::SHORT,
        ];
        assert(r@ =~= ring());
        r
    }

    /// The next group to the right in the ring.
    pub fn next_group(self) -> (r: Position)
        ensures
            r == right_of(self),
    {
        match self {
            Position::ANY => Position::PG,
            Position::PG => Position::SG,
            Position::SG => Position::SF,
            Position::SF => Position::PF,
            Position::PF => Position::C,
            Position::C => Position::F,
            Position::F => Position::G,
            Position::G => Position::TALL,
            Position::TALL => Position::SHORT,
            Position::SHORT => Position::ANY,
        }
    }

    /// The next group to the left in the ring.
    pub fn prev_group(self) -> (r: Position)
        ensures
            r == left_of(self),
    {
        match self {
            Position::ANY => Position::SHORT,
            Position::PG => Position::ANY,
            Position::SG => Position::PG,
            Position::SF => Position::SG,
            Position::PF => Position::SF,
            Position::C => Position::PF,
            Position::F => Position::C,
            Position::G => Position::F,
            Position::TALL => Position::G,
            Position::SHORT => Position::TALL,
        }
    }
}

/// A step right undoes a step left and a step left undoes a step right, from
/// any group.
pub proof fn lemma_left_right_inverse(g: Position)
    ensures
        left_of(right_of(g)) == g,
        right_of(left_of(g)) == g,
{
}

proof fn lemma_right_steps_index(g: Position, n: nat)
    ensures
        ring_index(right_steps(g, n)) == (ring_index(g) + n) % 10,
    decreases n,
{
    if n > 0 {
        lemma_right_steps_index(g, (n - 1) as nat);
        let x = right_steps(g, (n - 1) as nat);
        assert(ring_index(right_of(x)) == (ring_index(x) + 1) % 10);
    }
}

proof fn lemma_left_steps_index(g: Position, n: nat)
    ensures
        ring_index(left_steps(g, n)) == (ring_index(g) + 9 * n) % 10,
    decreases n,
{
    if n > 0 {
        lemma_left_steps_index(g, (n - 1) as nat);
        let x = left_steps(g, (n - 1) as nat);
        assert(ring_index(left_of(x)) == (ring_index(x) + 9) % 10);
    }
}

/// Ten steps in either direction lead back to the starting group.
pub proof fn lemma_ring_cycle(g: Position)
    ensures
        right_steps(g, 10) == g,
        left_steps(g, 10) == g,
{
    lemma_right_steps_index(g, 10);
    lemma_left_steps_index(g, 10);
    assert(forall|x: Position, y: Position| ring_index(x) == ring_index(y) ==> x == y);
}

/// No position outside the five concrete ones satisfies any group.
pub proof fn lemma_groups_hold_no_one(p: Position, g: Position)
    requires
        p == Position::ANY || p == Position::F || p == Position::G || p == Position::TALL || p
            == Position::SHORT,
    ensures
        !belongs(p, g),
{
}

} // verus!
