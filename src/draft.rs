use vstd::prelude::*;
use crate::filter::{
    filter_players, filter_view, is_candidate, lemma_candidate_is_shown,
    lemma_filter_excludes_drafted, lemma_name_matches_itself, lemma_shown_is_candidate,
};
use crate::player::{names_of, Player};
use crate::positions::{left_of, right_of, Position};
use crate::text::{encode_names, json_of_names, pop_char, push_char};

verus! {

/// The mode of the draft screen.
#[derive(Clone, Copy, Debug, PartialEq, Eq, Structural)]
pub enum InputMode {
    Idle,
    Searching,
    Picking,
    Listing,
}

/// An input event, independent of how the terminal delivers it.
#[derive(Clone, Copy, Debug, PartialEq, Eq, Structural)]
pub enum Key {
    Char(char),
    Enter,
    Tab,
    Up,
    Down,
    Left,
    Right,
    Backspace,
    Esc,
    Other,
}

/// The two drafted lists.
#[derive(Clone, Copy, Debug, PartialEq, Eq, Structural)]
pub enum Roster {
    Mine,
    Other,
}

/// What the host must do after an event.
#[derive(Debug, PartialEq, Eq)]
pub enum Action {
    /// Nothing beyond drawing the new state.
    Nothing,
    /// Stop reading events.
    Quit,
    /// Overwrite the stored copy of a roster with this JSON text.
    Save(Roster, String),
    /// The roster could not be encoded; the pick was not made.
    SaveFailed(Roster),
}

/// The whole draft state, read by the renderer after each event.
pub struct App {
    /// Current value of the input box.
    pub input: String,
    /// Current input mode.
    pub input_mode: InputMode,
    /// The player catalog.
    pub all_players: Vec<Player>,
    /// Names drafted to my team.
    pub my_players: Vec<String>,
    /// Names drafted to the other teams.
    pub other_players: Vec<String>,
    /// The candidates shown for the current query.
    pub filtered_players: Vec<String>,
    /// The highlighted row of `filtered_players`, if any.
    pub selected_player: Option<usize>,
    /// The player waiting for a my/other decision.
    pub candidate_player: String,
    /// The position group the list is filtered by.
    pub selected_position: Position,
}

/// The digit a character stands for, if it is one of `0`..=`9`.
pub open spec fn digit_of(c: char) -> Option<int> {
    if 48 <= c as u32 && c as u32 <= 57 {
        Some(c as u32 - 48)
    } else {
        None
    }
}

/// Whether no name is in both lists.
pub open spec fn disjoint(a: Seq<Seq<char>>, b: Seq<Seq<char>>) -> bool {
    forall|n: Seq<char>| a.contains(n) ==> !b.contains(n)
}

impl App {
    /// The list the filter gives for the current query, group and rosters.
    pub open spec fn shown(&self) -> Seq<Seq<char>> {
        filter_view(
            self.all_players@,
            self.input@,
            self.selected_position,
            names_of(self.my_players@),
            names_of(self.other_players@),
        )
    }

    /// The state's invariant: the selection points into the shown list, the
    /// list is current while searching or picking, and the candidate being
    /// picked is in neither roster.
    pub open spec fn wf(&self) -> bool {
        &&& self.selected_player matches Some(k) ==> k < self.filtered_players@.len()
        &&& (self.input_mode == InputMode::Searching || self.input_mode == InputMode::Picking)
            ==> names_of(self.filtered_players@) == self.shown()
        &&& self.input_mode == InputMode::Picking ==> !names_of(self.my_players@).contains(
            self.candidate_player@,
        ) && !names_of(self.other_players@).contains(self.candidate_player@)
    }

    /// A new state over `players`, idle, with empty rosters and query, and
    /// the group `ANY`.
    pub fn new(players: Vec<Player>) -> (r: App)
        ensures
            r.wf(),
            r.all_players@ == players@,
            r.input@.len() == 0,
            r.input_mode == InputMode::Idle,
            r.my_players@.len() == 0,
            r.other_players@.len() == 0,
            r.filtered_players@.len() == 0,
            r.selected_player is None,
            r.candidate_player@.len() == 0,
            r.selected_position == Position::ANY,
    {
        App {
            input: String::new(),
            input_mode: InputMode::Idle,
            all_players: players,
            my_players: Vec::new(),
            other_players: Vec::new(),
            filtered_players: Vec::new(),
            selected_player: None,
            candidate_player: String::new(),
            selected_position: Position::ANY,
        }
    }

    /// Replaces both rosters, as when picks are restored from storage.
    pub fn set_rosters(&mut self, mine: Vec<String>, other: Vec<String>)
        requires
            old(self).wf(),
            old(self).input_mode == InputMode::Idle || old(self).input_mode == InputMode::Listing,
        ensures
            final(self).wf(),
            final(self).my_players@ == mine@,
            final(self).other_players@ == other@,
            final(self).input@ == old(self).input@,
            final(self).input_mode == old(self).input_mode,
            final(self).all_players@ == old(self).all_players@,
            final(self).filtered_players@ == old(self).filtered_players@,
            final(self).selected_player == old(self).selected_player,
            final(self).candidate_player@ == old(self).candidate_player@,
            final(self).selected_position == old(self).selected_position,
    {
        self.my_players = mine;
        self.other_players = other;
    }

    /// Recomputes the shown list and drops the selection.
    fn refilter(&mut self)
        ensures
            names_of(final(self).filtered_players@) == final(self).shown(),
            final(self).selected_player is None,
            final(self).input@ == old(self).input@,
            final(self).input_mode == old(self).input_mode,
            final(self).all_players@ == old(self).all_players@,
            final(self).my_players@ == old(self).my_players@,
            final(self).other_players@ == old(self).other_players@,
            final(self).candidate_player@ == old(self).candidate_player@,
            final(self).selected_position == old(self).selected_position,
    {
        self.filtered_players = filter_players(
            &self.all_players,
            &self.input,
            self.selected_position,
            &self.my_players,
            &self.other_players,
        );
        self.selected_player = None;
    }

    /// Makes row `k` of the shown list the literal query, recomputes the list
    /// and selects its first row.
    fn lock_in(&mut self, k: usize)
        requires
            old(self).wf(),
            old(self).input_mode == InputMode::Searching,
            k < old(self).filtered_players@.len(),
        ensures
            final(self).wf(),
            final(self).input@ == old(self).filtered_players@[k as int]@,
            final(self).selected_player == Some(0usize),
            final(self).input_mode == old(self).input_mode,
            final(self).all_players@ == old(self).all_players@,
            final(self).my_players@ == old(self).my_players@,
            final(self).other_players@ == old(self).other_players@,
            final(self).candidate_player@ == old(self).candidate_player@,
            final(self).selected_position == old(self).selected_position,
    {
        let ghost mine = names_of(self.my_players@);
        let ghost other = names_of(self.other_players@);
        let ghost q = self.input@;
        let ghost g = self.selected_position;
        let ghost cat = self.all_players@;
        let name = self.filtered_players[k].clone();
        proof {
            assert(names_of(self.filtered_players@)[k as int] == name@);
            lemma_shown_is_candidate(cat, q, g, mine, other, k as int);
            let j = choose|j: int|
                0 <= j < cat.len() && #[trigger] cat[j].name@ == filter_view(
                    cat,
                    q,
                    g,
                    mine,
                    other,
                )[k as int] && is_candidate(cat[j], q, g, mine, other);
            lemma_name_matches_itself(name@);
            assert(is_candidate(cat[j], name@, g, mine, other));
            lemma_candidate_is_shown(cat, name@, g, mine, other, j);
        }
        self.input = name;
        self.refilter();
        self.selected_player = Some(0);
    }

    /// Adds the candidate to `roster`, as long as the new roster can be
    /// encoded for storage; the state is left as it was when it cannot.
    fn commit(&mut self, roster: Roster) -> (act: Action)
        requires
            old(self).wf(),
            old(self).input_mode == InputMode::Picking,
        ensures
            final(self).wf(),
            commit_ok(*old(self), *final(self), roster, act),
            disjoint(names_of(old(self).my_players@), names_of(old(self).other_players@))
                ==> disjoint(names_of(final(self).my_players@), names_of(final(self).other_players@)),
    {
        let ghost o = *self;
        let mut list = match roster {
            Roster::Mine => self.my_players.clone(),
            Roster::Other => self.other_players.clone(),
        };
        list.push(self.candidate_player.clone());
        match encode_names(&list) {
            None => Action::SaveFailed(roster),
            Some(json) => {
                proof {
                    assert(names_of(list@) =~= list.deep_view());
                    let old_list = match roster {
                        Roster::Mine => o.my_players@,
                        Roster::Other => o.other_players@,
                    };
                    assert(names_of(list@) =~= names_of(old_list).push(o.candidate_player@));
                    assert forall|n: Seq<char>| #[trigger] names_of(list@).contains(n) implies n
                        == o.candidate_player@ || names_of(old_list).contains(n) by {
                        let i = choose|i: int|
                            0 <= i < names_of(list@).len() && names_of(list@)[i] == n;
                        if i < old_list.len() {
                            assert(names_of(old_list)[i] == n);
                        }
                    }
                }
                match roster {
                    Roster::Mine => {
                        self.my_players = list;
                    },
                    Roster::Other => {
                        self.other_players = list;
                    },
                }
                self.candidate_player = String::new();
                self.input = String::new();
                self.refilter();
                self.input_mode = InputMode::Searching;
                Action::Save(roster, json)
            },
        }
    }
}

/// The names of one roster of a state.
pub open spec fn roster_names(s: App, roster: Roster) -> Seq<Seq<char>> {
    match roster {
        Roster::Mine => names_of(s.my_players@),
        Roster::Other => names_of(s.other_players@),
    }
}

/// `n` is `o` after the query, mode and group were set and the list was
/// recomputed; rosters and candidate are kept and the selection is dropped.
pub open spec fn requeried(o: App, n: App, input: Seq<char>, mode: InputMode, group: Position) -> bool {
    &&& n.all_players@ == o.all_players@
    &&& n.my_players@ == o.my_players@
    &&& n.other_players@ == o.other_players@
    &&& n.candidate_player@ == o.candidate_player@
    &&& n.input@ == input
    &&& n.input_mode == mode
    &&& n.selected_position == group
    &&& n.selected_player is None
    &&& names_of(n.filtered_players@) == n.shown()
}

/// `n` is `o` after the query was emptied, the candidate dropped, the list
/// recomputed and the mode set.
pub open spec fn reset(o: App, n: App, mode: InputMode) -> bool {
    &&& requeried(
        App { candidate_player: n.candidate_player, ..o },
        n,
        Seq::empty(),
        mode,
        o.selected_position,
    )
    &&& n.candidate_player@.len() == 0
}

/// `n` is `o` after row `k` of its list became the literal query: the list
/// is recomputed and its first row selected.
pub open spec fn locked(o: App, n: App, k: int) -> bool {
    &&& n.all_players@ == o.all_players@
    &&& n.my_players@ == o.my_players@
    &&& n.other_players@ == o.other_players@
    &&& n.candidate_player@ == o.candidate_player@
    &&& n.input@ == o.filtered_players@[k]@
    &&& n.input_mode == o.input_mode
    &&& n.selected_position == o.selected_position
    &&& n.selected_player == Some(0usize)
    &&& names_of(n.filtered_players@) == n.shown()
}

/// The outcome of assigning the candidate of `o` to `roster`: either the pick
/// is made and the new roster is handed out as JSON for storage, or nothing
/// changes and the failure is reported.
pub open spec fn commit_ok(o: App, n: App, roster: Roster, act: Action) -> bool {
    match act {
        Action::Save(r, json) => {
            &&& r == roster
            &&& roster == Roster::Mine ==> n.my_players@ == o.my_players@.push(o.candidate_player)
                && n.other_players@ == o.other_players@
            &&& roster == Roster::Other ==> n.other_players@ == o.other_players@.push(
                o.candidate_player,
            ) && n.my_players@ == o.my_players@
            &&& json@ == json_of_names(roster_names(n, roster))
            &&& reset(
                App { my_players: n.my_players, other_players: n.other_players, ..o },
                n,
                InputMode::Searching,
            )
        },
        Action::SaveFailed(r) => r == roster && n == o,
        _ => false,
    }
}

/// `n` is `o` with only the mode changed.
pub open spec fn with_mode(o: App, n: App, mode: InputMode) -> bool {
    n == (App { input_mode: mode, ..o })
}

/// What one event does to the state, and which action it asks of the host.
/// Left and right move the group in every mode; the other keys act by mode.
pub open spec fn step_ok(o: App, n: App, key: Key, act: Action) -> bool {
    match key {
        Key::Left => act == Action::Nothing && requeried(
            o,
            n,
            o.input@,
            o.input_mode,
            left_of(o.selected_position),
        ),
        Key::Right => act == Action::Nothing && requeried(
            o,
            n,
            o.input@,
            o.input_mode,
            right_of(o.selected_position),
        ),
        _ => match o.input_mode {
            InputMode::Idle => match key {
                Key::Char(c) => if c == 's' {
                    act == Action::Nothing && requeried(
                        o,
                        n,
                        o.input@,
                        InputMode::Searching,
                        o.selected_position,
                    )
                } else if c == 'q' {
                    act == Action::Quit && n == o
                } else if c == 'l' {
                    act == Action::Nothing && with_mode(o, n, InputMode::Listing)
                } else {
                    act == Action::Nothing && n == o
                },
                Key::Enter | Key::Up | Key::Down => act == Action::Nothing && requeried(
                    o,
                    n,
                    o.input@,
                    InputMode::Searching,
                    o.selected_position,
                ),
                _ => act == Action::Nothing && n == o,
            },
            InputMode::Searching => act == Action::Nothing && match key {
                Key::Enter => match o.selected_player {
                    Some(k) => n == (App {
                        input_mode: InputMode::Picking,
                        candidate_player: o.filtered_players@[k as int],
                        ..o
                    }),
                    None => if o.filtered_players@.len() > 0 {
                        locked(o, n, 0)
                    } else {
                        n == o
                    },
                },
                Key::Tab => if o.filtered_players@.len() > 0 {
                    locked(o, n, 0)
                } else {
                    n == o
                },
                Key::Up => match o.selected_player {
                    Some(k) => if k > 0 {
                        n == (App { selected_player: Some((k - 1) as usize), ..o })
                    } else {
                        n == o
                    },
                    None => n == o,
                },
                Key::Down => match o.selected_player {
                    Some(k) => if k + 1 < o.filtered_players@.len() {
                        n == (App { selected_player: Some((k + 1) as usize), ..o })
                    } else {
                        n == o
                    },
                    None => if o.filtered_players@.len() > 0 {
                        n == (App { selected_player: Some(0usize), ..o })
                    } else {
                        n == o
                    },
                },
                Key::Char(c) => match digit_of(c) {
                    Some(d) => if 1 <= d <= o.filtered_players@.len() {
                        locked(o, n, d - 1)
                    } else {
                        n == o
                    },
                    None => requeried(
                        o,
                        n,
                        o.input@.push(c),
                        InputMode::Searching,
                        o.selected_position,
                    ),
                },
                Key::Backspace => requeried(
                    o,
                    n,
                    if o.input@.len() > 0 {
                        o.input@.drop_last()
                    } else {
                        o.input@
                    },
                    InputMode::Searching,
                    o.selected_position,
                ),
                Key::Esc => reset(o, n, InputMode::Idle),
                _ => n == o,
            },
            InputMode::Picking => match key {
                Key::Char(c) => if c == 'a' || c == 'A' {
                    commit_ok(o, n, Roster::Mine, act)
                } else if c == 'b' || c == 'B' {
                    commit_ok(o, n, Roster::Other, act)
                } else {
                    act == Action::Nothing && n == o
                },
                Key::Enter => commit_ok(o, n, Roster::Mine, act),
                Key::Esc => act == Action::Nothing && reset(o, n, InputMode::Searching),
                _ => act == Action::Nothing && n == o,
            },
            InputMode::Listing => act == Action::Nothing && match key {
                Key::Char(c) => if c == 'q' {
                    with_mode(o, n, InputMode::Idle)
                } else {
                    n == o
                },
                _ => n == o,
            },
        },
    }
}

impl App {
    /// Applies one input event and returns what the host must do next.
    pub fn handle_event(&mut self, key: Key) -> (act: Action)
        requires
            old(self).wf(),
        ensures
            final(self).wf(),
            step_ok(*old(self), *final(self), key, act),
            disjoint(names_of(old(self).my_players@), names_of(old(self).other_players@))
                ==> disjoint(names_of(final(self).my_players@), names_of(final(self).other_players@)),
    {
        match key {
            Key::Left => {
                self.selected_position = self.selected_position.prev_group();
                self.refilter();
                return Action::Nothing;
            },
            Key::Right => {
                self.selected_position = self.selected_position.next_group();
                self.refilter();
                return Action::Nothing;
            },
            _ => {},
        }
        match self.input_mode {
            InputMode::Idle => match key {
                Key::Char('s') | Key::Enter | Key::Up | Key::Down => {
                    self.input_mode = InputMode::Searching;
                    self.refilter();
                    Action::Nothing
                },
                Key::Char('q') => Action::Quit,
                Key::Char('l') => {
                    self.input_mode = InputMode::Listing;
                    Action::Nothing
                },
                _ => Action::Nothing,
            },
            InputMode::Searching => {
                self.handle_search_key(key);
                Action::Nothing
            },
            InputMode::Picking => match key {
                Key::Char('a') | Key::Char('A') | Key::Enter => self.commit(Roster::Mine),
                Key::Char('b') | Key::Char('B') => self.commit(Roster::Other),
                Key::Esc => {
                    self.candidate_player = String::new();
                    self.input = String::new();
                    self.refilter();
                    self.input_mode = InputMode::Searching;
                    Action::Nothing
                },
                _ => Action::Nothing,
            },
            InputMode::Listing => match key {
                Key::Char('q') => {
                    self.input_mode = InputMode::Idle;
                    Action::Nothing
                },
                _ => Action::Nothing,
            },
        }
    }

    /// The searching mode's keys other than left and right.
    fn handle_search_key(&mut self, key: Key)
        requires
            old(self).wf(),
            old(self).input_mode == InputMode::Searching,
            key != Key::Left,
            key != Key::Right,
        ensures
            final(self).wf(),
            step_ok(*old(self), *final(self), key, Action::Nothing),
    {
        let ghost o = *self;
        match key {
            Key::Enter => match self.selected_player {
                Some(k) => {
                    proof {
                        assert(names_of(self.filtered_players@)[k as int]
                            == self.filtered_players@[k as int]@);
                        assert(self.shown().contains(self.filtered_players@[k as int]@));
                        if names_of(self.my_players@).contains(self.filtered_players@[k as int]@)
                            || names_of(self.other_players@).contains(
                            self.filtered_players@[k as int]@,
                        ) {
                            lemma_filter_excludes_drafted(
                                self.all_players@,
                                self.input@,
                                self.selected_position,
                                names_of(self.my_players@),
                                names_of(self.other_players@),
                                self.filtered_players@[k as int]@,
                            );
                        }
                    }
                    self.candidate_player = self.filtered_players[k].clone();
                    self.input_mode = InputMode::Picking;
                },
                None => {
                    if self.filtered_players.len() > 0 {
                        self.lock_in(0);
                    }
                },
            },
            Key::Tab => {
                if self.filtered_players.len() > 0 {
                    self.lock_in(0);
                }
            },
            Key::Up => {
                if let Some(k) = self.selected_player {
                    if k > 0 {
                        self.selected_player = Some(k - 1);
                    }
                }
            },
            Key::Down => match self.selected_player {
                Some(k) => {
                    assert(k < self.filtered_players@.len());
                    if k < self.filtered_players.len() - 1 {
                        self.selected_player = Some(k + 1);
                    }
                },
                None => {
                    if self.filtered_players.len() > 0 {
                        self.selected_player = Some(0);
                    }
                },
            },
            Key::Char(c) => {
                let code = c as u32;
                if 48 <= code && code <= 57 {
                    let d = (code - 48) as usize;
                    if 1 <= d && d <= self.filtered_players.len() {
                        self.lock_in(d - 1);
                    }
                } else {
                    push_char(&mut self.input, c);
                    self.refilter();
                }
            },
            Key::Backspace => {
                pop_char(&mut self.input);
                self.refilter();
            },
            Key::Esc => {
                self.candidate_player = String::new();
                self.input = String::new();
                self.refilter();
                self.input_mode = InputMode::Idle;
            },
            _ => {},
        }
    }
}

proof fn lemma_push_keeps_names(v: Seq<String>, x: String, name: Seq<char>)
    requires
        names_of(v).contains(name),
    ensures
        names_of(v.push(x)).contains(name),
        names_of(v.push(x)).contains(x@),
{
    assert(names_of(v.push(x)) =~= names_of(v).push(x@));
    let i = choose|i: int| 0 <= i < names_of(v).len() && names_of(v)[i] == name;
    assert(names_of(v.push(x))[i] == name);
    assert(names_of(v.push(x))[v.len() as int] == x@);
}

/// A pick made for my roster puts the name there and takes it out of the
/// shown list for every query and group.
pub proof fn lemma_pick_leaves_list(o: App, n: App, json: String, query: Seq<char>, group: Position)
    requires
        o.wf(),
        o.input_mode == InputMode::Picking,
        commit_ok(o, n, Roster::Mine, Action::Save(Roster::Mine, json)),
    ensures
        names_of(n.my_players@).contains(o.candidate_player@),
        !filter_view(
            n.all_players@,
            query,
            group,
            names_of(n.my_players@),
            names_of(n.other_players@),
        ).contains(o.candidate_player@),
{
    assert(names_of(n.my_players@) =~= names_of(o.my_players@).push(o.candidate_player@));
    assert(names_of(n.my_players@)[o.my_players@.len() as int] == o.candidate_player@);
    lemma_filter_excludes_drafted(
        n.all_players@,
        query,
        group,
        names_of(n.my_players@),
        names_of(n.other_players@),
        o.candidate_player@,
    );
}

/// No event takes a name off my roster.
pub proof fn lemma_step_keeps_mine(o: App, n: App, key: Key, act: Action, name: Seq<char>)
    requires
        step_ok(o, n, key, act),
        names_of(o.my_players@).contains(name),
    ensures
        names_of(n.my_players@).contains(name),
{
    if n.my_players@ != o.my_players@ {
        assert(n.my_players@ == o.my_players@.push(o.candidate_player));
        lemma_push_keeps_names(o.my_players@, o.candidate_player, name);
    }
}

/// A name on my roster is never the player being picked, so it can never be
/// handed to the other roster.
pub proof fn lemma_drafted_is_never_picked(s: App, name: Seq<char>)
    requires
        s.wf(),
        s.input_mode == InputMode::Picking,
        names_of(s.my_players@).contains(name),
    ensures
        s.candidate_player@ != name,
{
}

} // verus!
