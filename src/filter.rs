use vstd::prelude::*;
use crate::positions::Position;
use crate::player::{contains_name, eligible, names_of, Player};
use crate::text::{ascii_lower_seq, contains_str, is_substring, lower_ascii};

verus! {

/// The most candidates the filter ever returns.
pub const MAX_SHOWN: usize = 8;

/// Whether a player is a candidate for the query: the query occurs in the
/// name ignoring ASCII case, the name is in neither drafted list, and one of
/// the player's positions satisfies the group.
pub open spec fn is_candidate(
    p: Player,
    query: Seq<char>,
    group: Position,
    mine: Seq<Seq<char>>,
    other: Seq<Seq<char>>,
) -> bool {
    &&& is_substring(ascii_lower_seq(query), ascii_lower_seq(p.name@))
    &&& !mine.contains(p.name@)
    &&& !other.contains(p.name@)
    &&& eligible(p.position@, group)
}

/// The names of all candidates, in catalog order.
pub open spec fn all_candidates(
    catalog: Seq<Player>,
    query: Seq<char>,
    group: Position,
    mine: Seq<Seq<char>>,
    other: Seq<Seq<char>>,
) -> Seq<Seq<char>> {
    catalog.filter(|p: Player| is_candidate(p, query, group, mine, other)).map_values(
        |p: Player| p.name@,
    )
}

/// The first `MAX_SHOWN` elements of `s`, or all of it when shorter.
pub open spec fn capped(s: Seq<Seq<char>>) -> Seq<Seq<char>> {
    if s.len() <= MAX_SHOWN {
        s
    } else {
        s.take(MAX_SHOWN as int)
    }
}

/// The list the filter shows: the first candidates in catalog order, at most
/// `MAX_SHOWN` of them.
pub open spec fn filter_view(
    catalog: Seq<Player>,
    query: Seq<char>,
    group: Position,
    mine: Seq<Seq<char>>,
    other: Seq<Seq<char>>,
) -> Seq<Seq<char>> {
    capped(all_candidates(catalog, query, group, mine, other))
}

/// Computes the candidate list for a query, a group and the two drafted lists.
pub fn filter_players(
    catalog: &Vec<Player>,
    query: &String,
    group: Position,
    mine: &Vec<String>,
    other: &Vec<String>,
) -> (r: Vec<String>)
    ensures
        names_of(r@) == filter_view(catalog@, query@, group, names_of(mine@), names_of(other@)),
{
    let ghost m = names_of(mine@);
    let ghost o = names_of(other@);
    let ghost pred = |p: Player| is_candidate(p, query@, group, m, o);
    let q = lower_ascii(query.as_str());
    let mut r: Vec<String> = Vec::new();
    let mut i: usize = 0;
    proof {
        reveal(Seq::filter);
        assert(catalog@.take(0).filter(pred) =~= Seq::<Player>::empty());
        assert(names_of(r@) =~= capped(
            catalog@.take(0).filter(pred).map_values(|p: Player| p.name@),
        ));
    }
    while i < catalog.len()
        invariant
            i <= catalog@.len(),
            r@.len() <= MAX_SHOWN,
            q@ == ascii_lower_seq(query@),
            pred == (|p: Player| is_candidate(p, query@, group, m, o)),
            m == names_of(mine@),
            o == names_of(other@),
            names_of(r@) == capped(
                catalog@.take(i as int).filter(pred).map_values(|p: Player| p.name@),
            ),
        decreases catalog@.len() - i,
    {
        let ghost before = catalog@.take(i as int).filter(pred).map_values(|p: Player| p.name@);
        let ghost after = catalog@.take(i + 1).filter(pred).map_values(|p: Player| p.name@);
        let p = &catalog[i];
        proof {
            reveal(Seq::filter);
            assert(catalog@.take(i + 1).drop_last() =~= catalog@.take(i as int));
            assert(catalog@.take(i + 1).last() == catalog@[i as int]);
            if pred(*p) {
                assert(after =~= before.push(p.name@));
            } else {
                assert(after =~= before);
            }
        }
        if r.len() < MAX_SHOWN {
            let n = lower_ascii(p.name.as_str());
            if contains_str(n.as_str(), q.as_str()) && !contains_name(mine, &p.name)
                && !contains_name(other, &p.name) && p.is_eligible(group) {
                assert(pred(*p));
                assert(names_of(r@) == before);
                let ghost r0 = r@;
                r.push(p.name.clone());
                assert(names_of(r@) =~= names_of(r0).push(p.name@));
                assert(names_of(r@) =~= after);
            } else {
                assert(!pred(*p));
            }
        } else {
            assert(capped(after) =~= capped(before));
        }
        i += 1;
    }
    assert(catalog@.take(catalog@.len() as int) =~= catalog@);
    r
}

/// Every name the filter shows belongs to a catalog player who is a candidate
/// for the query.
pub proof fn lemma_shown_is_candidate(
    catalog: Seq<Player>,
    query: Seq<char>,
    group: Position,
    mine: Seq<Seq<char>>,
    other: Seq<Seq<char>>,
    k: int,
)
    requires
        0 <= k < filter_view(catalog, query, group, mine, other).len(),
    ensures
        exists|j: int|
            0 <= j < catalog.len() && #[trigger] catalog[j].name@ == filter_view(
                catalog,
                query,
                group,
                mine,
                other,
            )[k] && is_candidate(catalog[j], query, group, mine, other),
{
    let pred = |p: Player| is_candidate(p, query, group, mine, other);
    let f = catalog.filter(pred);
    assert(filter_view(catalog, query, group, mine, other)[k] == f[k].name@);
    catalog.lemma_filter_pred(pred, k);
    assert(f.contains(f[k]));
    catalog.lemma_filter_contains_rev(pred, f[k]);
    assert(catalog.contains(f[k]));
}

/// A catalog player who is a candidate makes the shown list non-empty.
pub proof fn lemma_candidate_is_shown(
    catalog: Seq<Player>,
    query: Seq<char>,
    group: Position,
    mine: Seq<Seq<char>>,
    other: Seq<Seq<char>>,
    j: int,
)
    requires
        0 <= j < catalog.len(),
        is_candidate(catalog[j], query, group, mine, other),
    ensures
        filter_view(catalog, query, group, mine, other).len() > 0,
{
    let pred = |p: Player| is_candidate(p, query, group, mine, other);
    catalog.lemma_filter_contains(pred, j);
}

/// A name occurs in itself, whatever the case of its letters.
pub proof fn lemma_name_matches_itself(name: Seq<char>)
    ensures
        is_substring(ascii_lower_seq(name), ascii_lower_seq(name)),
{
    let l = ascii_lower_seq(name);
    assert(l.subrange(0, 0 + l.len() as int) =~= l);
}

/// Filtering is a function of its inputs: two results for the same catalog,
/// query, group and drafted lists are the same list, in the same order.
pub proof fn lemma_filter_deterministic(
    catalog: Seq<Player>,
    query: Seq<char>,
    group: Position,
    mine: Seq<Seq<char>>,
    other: Seq<Seq<char>>,
    first: Seq<Seq<char>>,
    second: Seq<Seq<char>>,
)
    requires
        first == filter_view(catalog, query, group, mine, other),
        second == filter_view(catalog, query, group, mine, other),
    ensures
        first == second,
        forall|k: int| 0 <= k < first.len() ==> #[trigger] first[k] == second[k],
{
}

/// A name in either drafted list is never shown, whatever the query and group.
pub proof fn lemma_filter_excludes_drafted(
    catalog: Seq<Player>,
    query: Seq<char>,
    group: Position,
    mine: Seq<Seq<char>>,
    other: Seq<Seq<char>>,
    name: Seq<char>,
)
    requires
        mine.contains(name) || other.contains(name),
    ensures
        !filter_view(catalog, query, group, mine, other).contains(name),
{
    if filter_view(catalog, query, group, mine, other).contains(name) {
        let k = choose|k: int|
            0 <= k < filter_view(catalog, query, group, mine, other).len() && filter_view(
                catalog,
                query,
                group,
                mine,
                other,
            )[k] == name;
        lemma_shown_is_candidate(catalog, query, group, mine, other, k);
    }
}

/// With more than `MAX_SHOWN` candidates, exactly `MAX_SHOWN` are shown: the
/// first ones in catalog order.
pub proof fn lemma_filter_cap(
    catalog: Seq<Player>,
    query: Seq<char>,
    group: Position,
    mine: Seq<Seq<char>>,
    other: Seq<Seq<char>>,
)
    requires
        all_candidates(catalog, query, group, mine, other).len() > MAX_SHOWN,
    ensures
        filter_view(catalog, query, group, mine, other).len() == MAX_SHOWN,
        filter_view(catalog, query, group, mine, other) == all_candidates(
            catalog,
            query,
            group,
            mine,
            other,
        ).take(MAX_SHOWN as int),
{
}

} // verus!
