use analogue::advent::{rank_members, render, Leaderboard, Member};

fn member(id: &str, score: usize, name: &str, stars: usize) -> Member {
    Member::new(id.to_string(), score, name.to_string(), stars)
}

#[test]
fn rank_orders_by_score_descending() {
    let lb = Leaderboard::new(
        "2023".to_string(),
        vec![
            member("1", 10, "Alice", 3),
            member("2", 30, "Bob", 9),
            member("3", 20, "Carol", 5),
        ],
        "1".to_string(),
    );
    let ranked = lb.rank();
    let names: Vec<String> = ranked.iter().map(|m| m.name()).collect();
    assert_eq!(names, vec!["Bob", "Carol", "Alice"]);
    assert_eq!(ranked[0].score(), 30);
    assert_eq!(ranked[1].score(), 20);
    assert_eq!(ranked[2].score(), 10);
}

#[test]
fn rank_is_stable_on_ties() {
    let lb = Leaderboard::new(
        "2023".to_string(),
        vec![
            member("1", 10, "First", 1),
            member("2", 20, "Top", 4),
            member("3", 10, "Second", 2),
            member("4", 10, "Third", 3),
        ],
        "1".to_string(),
    );
    let ranked = lb.rank();
    let names: Vec<String> = ranked.iter().map(|m| m.name()).collect();
    assert_eq!(names, vec!["Top", "First", "Second", "Third"]);
}

#[test]
fn rank_empty_leaderboard_is_empty() {
    let lb = Leaderboard::new("2023".to_string(), vec![], "1".to_string());
    let ranked = lb.rank();
    assert_eq!(ranked.len(), 0);
    assert_eq!(render(&ranked), "");
}

#[test]
fn render_formats_each_line() {
    let ranked = rank_members(vec![
        member("1", 10, "Alice", 3),
        member("2", 7, "Bob", 1),
    ]);
    assert_eq!(render(&ranked), "1. 10 Alice (3 stars)\n2. 7 Bob (1 stars)\n");
}

#[test]
fn render_single_member() {
    let ranked = rank_members(vec![member("1", 0, "Solo", 0)]);
    assert_eq!(render(&ranked), "1. 0 Solo (0 stars)\n");
}

#[test]
fn members_compare_by_score_alone() {
    let a = member("1", 10, "Alice", 3);
    let b = member("2", 10, "Bob", 1);
    let c = member("3", 20, "Carol", 9);
    assert!(a == b);
    assert!(a < c);
    assert!(c > b);
}

#[test]
fn members_keeps_collection_order() {
    let lb = Leaderboard::new(
        "2023".to_string(),
        vec![member("9", 1, "A", 0), member("8", 2, "B", 0)],
        "9".to_string(),
    );
    let ms = lb.members();
    assert_eq!(ms[0].name(), "A");
    assert_eq!(ms[1].name(), "B");
    assert_eq!(ms[0].stars(), 0);
}
