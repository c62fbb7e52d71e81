use gms_counter::feed::{find_game, GMSGameStatus, GMSNodeStatus, GMSStatusResponse};

fn game(id: u16, title: &str, connected: u16) -> GMSGameStatus {
    GMSGameStatus { title: title.to_string(), connected, id }
}

fn feed(nodes: Vec<Vec<GMSGameStatus>>) -> GMSStatusResponse {
    GMSStatusResponse { status: nodes.into_iter().map(|games| GMSNodeStatus { games }).collect() }
}

#[test]
fn find_game_in_a_feed_of_one() {
    let feed = feed(vec![vec![game(7, "Arena", 42)]]);
    let found = find_game(&feed, 7).expect("game 7 is listed");
    assert_eq!(found.id, 7);
    assert_eq!(found.title, "Arena");
    assert_eq!(found.connected, 42);
}

#[test]
fn find_game_absent_from_all_nodes() {
    let feed = feed(vec![vec![game(7, "Arena", 42)], vec![game(8, "Maze", 1)]]);
    assert!(find_game(&feed, 99).is_none());
}

#[test]
fn find_game_in_an_empty_feed() {
    assert!(find_game(&feed(vec![]), 0).is_none());
    assert!(find_game(&feed(vec![vec![], vec![]]), 0).is_none());
}

#[test]
fn find_game_looks_through_every_node() {
    let feed = feed(vec![
        vec![game(1, "One", 1), game(2, "Two", 2)],
        vec![],
        vec![game(3, "Three", 3)],
        vec![game(4, "Four", 4), game(5, "Five", 5)],
    ]);
    for id in 1..=5u16 {
        let found = find_game(&feed, id).expect("every listed game is found");
        assert_eq!(found.id, id);
        assert_eq!(found.connected, id);
    }
    assert!(find_game(&feed, 6).is_none());
}

#[test]
fn find_game_takes_the_first_of_two_listings() {
    let feed = feed(vec![
        vec![game(1, "One", 1)],
        vec![game(9, "Early", 10), game(9, "Same node", 11)],
        vec![game(9, "Late", 12)],
    ]);
    let found = find_game(&feed, 9).expect("game 9 is listed");
    assert_eq!(found.title, "Early");
    assert_eq!(found.connected, 10);
}

#[test]
fn find_game_finds_a_game_without_players() {
    let feed = feed(vec![vec![game(3, "Empty", 0)]]);
    let found = find_game(&feed, 3).expect("game 3 is listed");
    assert_eq!(found.connected, 0);
}

#[test]
fn clones_of_a_feed_hold_the_same_games() {
    let feed = feed(vec![vec![game(1, "One", 1)], vec![game(2, "Two", 2), game(3, "Three", 3)]]);
    let copy = feed.clone();
    assert_eq!(copy.status.len(), 2);
    assert_eq!(copy.status[0].games.len(), 1);
    assert_eq!(copy.status[1].games.len(), 2);
    assert_eq!(copy.status[1].games[1].id, 3);
    assert_eq!(copy.status[1].games[1].title, "Three");
    assert_eq!(copy.status[1].games[1].connected, 3);
    let single = feed.status[0].games[0].clone();
    assert_eq!((single.id, single.connected), (1, 1));
    assert_eq!(single.title, "One");
}
