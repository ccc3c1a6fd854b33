use fantasy_draft::filter::filter_players;
use fantasy_draft::player::Player;
use fantasy_draft::positions::Position;

fn player(name: &str, positions: Vec<Position>) -> Player {
    Player {
        name: name.to_string(),
        team: "TEAM".to_string(),
        position: positions,
        draft_percent: "50%".to_string(),
    }
}

fn names(v: &[&str]) -> Vec<String> {
    v.iter().map(|s| s.to_string()).collect()
}

fn catalog() -> Vec<Player> {
    vec![
        player("Joe Smith", vec![Position::PG]),
        player("Ann Jones", vec![Position::C]),
        player("Bob Joel", vec![Position::SF, Position::PF]),
        player("Zed Brown", vec![Position::SG]),
    ]
}

#[test]
fn filter_matches_case_insensitively() {
    let r = filter_players(&catalog(), &"JOE".to_string(), Position::ANY, &vec![], &vec![]);
    assert_eq!(r, names(&["Joe Smith", "Bob Joel"]));
}

#[test]
fn filter_empty_query_keeps_catalog_order() {
    let r = filter_players(&catalog(), &String::new(), Position::ANY, &vec![], &vec![]);
    assert_eq!(r, names(&["Joe Smith", "Ann Jones", "Bob Joel", "Zed Brown"]));
}

#[test]
fn filter_by_group() {
    let cat = catalog();
    let e = String::new();
    assert_eq!(filter_players(&cat, &e, Position::TALL, &vec![], &vec![]), names(&["Ann Jones", "Bob Joel"]));
    assert_eq!(filter_players(&cat, &e, Position::G, &vec![], &vec![]), names(&["Joe Smith", "Zed Brown"]));
    assert_eq!(filter_players(&cat, &e, Position::F, &vec![], &vec![]), names(&["Bob Joel"]));
    assert!(filter_players(&cat, &"zz".to_string(), Position::ANY, &vec![], &vec![]).is_empty());
}

#[test]
fn filter_twice_gives_same_list() {
    let cat = catalog();
    let q = "o".to_string();
    let a = filter_players(&cat, &q, Position::ANY, &names(&["Ann Jones"]), &vec![]);
    let b = filter_players(&cat, &q, Position::ANY, &names(&["Ann Jones"]), &vec![]);
    assert_eq!(a, b);
    assert_eq!(a, names(&["Joe Smith", "Bob Joel", "Zed Brown"]));
}

#[test]
fn filter_excludes_both_drafted_lists() {
    let cat = catalog();
    let mine = names(&["Joe Smith"]);
    let other = names(&["Bob Joel"]);
    for g in Position::get_all_positions() {
        for q in ["", "jo", "Joe Smith", "Bob"] {
            let r = filter_players(&cat, &q.to_string(), g, &mine, &other);
            assert!(!r.contains(&"Joe Smith".to_string()));
            assert!(!r.contains(&"Bob Joel".to_string()));
        }
    }
}

#[test]
fn filter_caps_at_eight_in_catalog_order() {
    let cat: Vec<Player> = (0..12).map(|i| player(&format!("Player {}", i), vec![Position::C])).collect();
    let r = filter_players(&cat, &"player".to_string(), Position::ANY, &vec![], &vec![]);
    let expected: Vec<String> = (0..8).map(|i| format!("Player {}", i)).collect();
    assert_eq!(r.len(), 8);
    assert_eq!(r, expected);
}

#[test]
fn filter_with_exactly_eight_keeps_all() {
    let cat: Vec<Player> = (0..8).map(|i| player(&format!("P{}", i), vec![Position::PG])).collect();
    let r = filter_players(&cat, &String::new(), Position::PG, &vec![], &vec![]);
    assert_eq!(r.len(), 8);
}
