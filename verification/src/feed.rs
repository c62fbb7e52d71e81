//! The status feed: the games that are live right now, grouped by node.

use vstd::prelude::*;

verus! {

/// One live game of the feed.
#[derive(Debug)]
pub struct GMSGameStatus {
    pub title: String,
    pub connected: u16,
    pub id: u16,
}

/// One node of the feed with the games it hosts, in the feed's order.
#[derive(Debug)]
pub struct GMSNodeStatus {
    pub games: Vec<GMSGameStatus>,
}

/// A snapshot of the status feed: its nodes, in the feed's order.
#[derive(Debug)]
pub struct GMSStatusResponse {
    pub status: Vec<GMSNodeStatus>,
}

/// The mathematical content of a game's status.
pub struct Game {
    pub id: u16,
    pub title: Seq<char>,
    pub connected: u16,
}

impl View for GMSGameStatus {
    type V = Game;

    open spec fn view(&self) -> Game {
        Game { id: self.id, title: self.title@, connected: self.connected }
    }
}

impl View for GMSNodeStatus {
    type V = Seq<Game>;

    open spec fn view(&self) -> Seq<Game> {
        self.games@.map_values(|g: GMSGameStatus| g@)
    }
}

impl View for GMSStatusResponse {
    type V = Seq<Seq<Game>>;

    open spec fn view(&self) -> Seq<Seq<Game>> {
        self.status@.map_values(|n: GMSNodeStatus| n@)
    }
}

/// The games of all nodes in one sequence: node after node, each node's
/// games in their order.
pub open spec fn all_games(nodes: Seq<Seq<Game>>) -> Seq<Game>
    decreases nodes.len(),
{
    if nodes.len() == 0 {
        Seq::empty()
    } else {
        all_games(nodes.drop_last()) + nodes.last()
    }
}

/// Whether some game of `games` has the identifier `id`.
pub open spec fn lists(games: Seq<Game>, id: u16) -> bool {
    exists|k: int| 0 <= k < games.len() && #[trigger] games[k].id == id
}

/// Whether `games[k]` is the first game with the identifier `id`.
pub open spec fn is_first_listing(games: Seq<Game>, id: u16, k: int) -> bool {
    &&& 0 <= k < games.len()
    &&& games[k].id == id
    &&& forall|j: int| 0 <= j < k ==> #[trigger] games[j].id != id
}

/// The first game of `games` with the identifier `id`.
pub open spec fn first_listing(games: Seq<Game>, id: u16) -> Option<Game> {
    if exists|k: int| is_first_listing(games, id, k) {
        Some(games[choose|k: int| is_first_listing(games, id, k)])
    } else {
        None
    }
}

/// The game that a request for `id` is about: the first one with that
/// identifier over all nodes. The feed is taken as it comes: nothing here
/// relies on an identifier being listed once only, and where it is listed
/// again, the first listing counts.
pub open spec fn game_of(feed: Seq<Seq<Game>>, id: u16) -> Option<Game> {
    first_listing(all_games(feed), id)
}

/// The first listing is the only one that `first_listing` can name.
pub proof fn lemma_first_listing_unique(games: Seq<Game>, id: u16, k: int)
    requires
        is_first_listing(games, id, k),
    ensures
        first_listing(games, id) == Some(games[k]),
{
    let chosen = choose|j: int| is_first_listing(games, id, j);
    assert(is_first_listing(games, id, chosen));
    assert(chosen == k);
}

/// The games of the first `i` nodes open the games of the first `m`.
pub proof fn lemma_all_games_prefix(nodes: Seq<Seq<Game>>, i: int, m: int)
    requires
        0 <= i <= m <= nodes.len(),
    ensures
        all_games(nodes.take(i)).len() <= all_games(nodes.take(m)).len(),
        all_games(nodes.take(m)).take(all_games(nodes.take(i)).len() as int) == all_games(
            nodes.take(i),
        ),
    decreases m - i,
{
    if i == m {
        assert(all_games(nodes.take(m)).take(all_games(nodes.take(i)).len() as int)
            =~= all_games(nodes.take(i)));
    } else {
        lemma_all_games_prefix(nodes, i, m - 1);
        assert(nodes.take(m).drop_last() =~= nodes.take(m - 1));
        assert(all_games(nodes.take(m)).take(all_games(nodes.take(i)).len() as int)
            =~= all_games(nodes.take(m - 1)).take(all_games(nodes.take(i)).len() as int));
    }
}

/// Every game of every node is among the games of the feed.
pub proof fn lemma_all_games_holds(nodes: Seq<Seq<Game>>, i: int, j: int)
    requires
        0 <= i < nodes.len(),
        0 <= j < nodes[i].len(),
    ensures
        all_games(nodes.take(i)).len() + j < all_games(nodes).len(),
        all_games(nodes)[all_games(nodes.take(i)).len() + j] == nodes[i][j],
{
    let before = all_games(nodes.take(i));
    assert(nodes.take(i + 1).drop_last() =~= nodes.take(i));
    lemma_all_games_prefix(nodes, i + 1, nodes.len() as int);
    assert(nodes.take(nodes.len() as int) =~= nodes);
    let upto = all_games(nodes.take(i + 1));
    assert(all_games(nodes).take(upto.len() as int)[before.len() + j] == upto[before.len() + j]);
}

/// Every game of the feed is a game of some node.
pub proof fn lemma_all_games_from_node(nodes: Seq<Seq<Game>>, k: int) -> (place: (int, int))
    requires
        0 <= k < all_games(nodes).len(),
    ensures
        0 <= place.0 < nodes.len(),
        0 <= place.1 < nodes[place.0].len(),
        all_games(nodes)[k] == nodes[place.0][place.1],
    decreases nodes.len(),
{
    let before = all_games(nodes.drop_last());
    if k < before.len() {
        let place = lemma_all_games_from_node(nodes.drop_last(), k);
        place
    } else {
        (nodes.len() - 1, k - before.len())
    }
}

/// A request is answered with "not found" exactly for an identifier that
/// no game of any node has.
pub proof fn lemma_game_of_none_iff_absent(feed: Seq<Seq<Game>>, id: u16)
    ensures
        game_of(feed, id) is None <==> forall|i: int, j: int|
            0 <= i < feed.len() && 0 <= j < feed[i].len() ==> (#[trigger] feed[i][j]).id != id,
{
    let games = all_games(feed);
    if game_of(feed, id) is None {
        assert forall|i: int, j: int| 0 <= i < feed.len() && 0 <= j < feed[i].len() implies (
        #[trigger] feed[i][j]).id != id by {
            if feed[i][j].id == id {
                lemma_all_games_holds(feed, i, j);
                let k = all_games(feed.take(i)).len() + j;
                lemma_listed_has_first(games, id, k);
            }
        }
    } else {
        let k = choose|k: int| is_first_listing(games, id, k);
        let place = lemma_all_games_from_node(feed, k);
    }
}

/// For an identifier that some node lists, the request is about a game
/// with that identifier.
pub proof fn lemma_game_of_present(feed: Seq<Seq<Game>>, id: u16, i: int, j: int)
    requires
        0 <= i < feed.len(),
        0 <= j < feed[i].len(),
        feed[i][j].id == id,
    ensures
        game_of(feed, id) matches Some(game) && game.id == id,
{
    lemma_all_games_holds(feed, i, j);
    lemma_listed_has_first(all_games(feed), id, all_games(feed.take(i)).len() + j);
}

/// Where some game has the identifier, there is a first one.
pub proof fn lemma_listed_has_first(games: Seq<Game>, id: u16, k: int)
    requires
        0 <= k < games.len(),
        games[k].id == id,
    ensures
        first_listing(games, id) matches Some(game) && game.id == id,
    decreases k,
{
    if exists|j: int| 0 <= j < k && #[trigger] games[j].id == id {
        let j = choose|j: int| 0 <= j < k && #[trigger] games[j].id == id;
        lemma_listed_has_first(games, id, j);
    } else {
        lemma_first_listing_unique(games, id, k);
    }
}

impl Clone for GMSGameStatus {
    fn clone(&self) -> (copy: GMSGameStatus)
        ensures
            copy@ == self@,
    {
        GMSGameStatus { title: self.title.clone(), connected: self.connected, id: self.id }
    }
}

impl Clone for GMSNodeStatus {
    fn clone(&self) -> (copy: GMSNodeStatus)
        ensures
            copy@ == self@,
    {
        let mut games: Vec<GMSGameStatus> = Vec::new();
        let mut i: usize = 0;
        while i < self.games.len()
            invariant
                i <= self.games.len(),
                games@.len() == i,
                forall|k: int| 0 <= k < i ==> (#[trigger] games@[k])@ == self.games@[k]@,
            decreases self.games.len() - i,
        {
            games.push(self.games[i].clone());
            i += 1;
        }
        let copy = GMSNodeStatus { games };
        assert(copy@ =~= self@);
        copy
    }
}

impl Clone for GMSStatusResponse {
    fn clone(&self) -> (copy: GMSStatusResponse)
        ensures
            copy@ == self@,
    {
        let mut status: Vec<GMSNodeStatus> = Vec::new();
        let mut i: usize = 0;
        while i < self.status.len()
            invariant
                i <= self.status.len(),
                status@.len() == i,
                forall|k: int| 0 <= k < i ==> (#[trigger] status@[k])@ == self.status@[k]@,
            decreases self.status.len() - i,
        {
            status.push(self.status[i].clone());
            i += 1;
        }
        let copy = GMSStatusResponse { status };
        assert(copy@ =~= self@);
        copy
    }
}

/// The game that a request for `game_id` is about, if the feed lists one.
pub fn find_game(feed: &GMSStatusResponse, game_id: u16) -> (found: Option<&GMSGameStatus>)
    ensures
        match found {
            Some(game) => game_of(feed@, game_id) == Some(game@),
            None => game_of(feed@, game_id) is None,
        },
{
    let ghost nodes = feed@;
    let mut i: usize = 0;
    while i < feed.status.len()
        invariant
            i <= feed.status.len(),
            nodes == feed@,
            forall|k: int|
                0 <= k < all_games(nodes.take(i as int)).len() ==> (#[trigger] all_games(
                    nodes.take(i as int),
                )[k]).id != game_id,
        decreases feed.status.len() - i,
    {
        let node = &feed.status[i];
        let ghost before = all_games(nodes.take(i as int));
        let mut j: usize = 0;
        while j < node.games.len()
            invariant
                j <= node.games.len(),
                i < feed.status.len(),
                nodes == feed@,
                node@ == nodes[i as int],
                *node == feed.status[i as int],
                before == all_games(nodes.take(i as int)),
                forall|k: int| 0 <= k < before.len() ==> (#[trigger] before[k]).id != game_id,
                forall|k: int| 0 <= k < j ==> (#[trigger] node@[k]).id != game_id,
            decreases node.games.len() - j,
        {
            let game = &node.games[j];
            if game.id == game_id {
                proof {
                    lemma_all_games_holds(nodes, i as int, j as int);
                    let games = all_games(nodes);
                    let k = before.len() + j;
                    lemma_all_games_prefix(nodes, i as int + 1, nodes.len() as int);
                    assert(nodes.take(nodes.len() as int) =~= nodes);
                    assert(nodes.take(i + 1).drop_last() =~= nodes.take(i as int));
                    let upto = all_games(nodes.take(i + 1));
                    assert forall|m: int| 0 <= m < k implies (#[trigger] games[m]).id
                        != game_id by {
                        assert(games[m] == games.take(upto.len() as int)[m]);
                        if m < before.len() {
                            assert(upto[m] == before[m]);
                        } else {
                            assert(upto[m] == node@[m - before.len()]);
                        }
                    }
                    lemma_first_listing_unique(games, game_id, k);
                }
                return Some(game);
            }
            j += 1;
        }
        proof {
            assert(nodes.take(i + 1).drop_last() =~= nodes.take(i as int));
        }
        i += 1;
    }
    proof {
        assert(nodes.take(nodes.len() as int) =~= nodes);
        let games = all_games(nodes);
        if exists|k: int| is_first_listing(games, game_id, k) {
            let k = choose|k: int| is_first_listing(games, game_id, k);
            assert(games[k].id != game_id);
        }
    }
    None
}

} // verus!
