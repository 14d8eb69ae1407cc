use vstd::prelude::*;
use vstd::pervasive::VecAdditionalExecFns;

use crate::conf::{PLAYER_DEADLINE_BLOCKS, WINS_TO_FINISH};
use crate::msg::Handsign;
use crate::token::TokenBytes;

verus! {

/// A capability token that correlates a waiting or matched player slot
/// to a game. While the holder waits for an opponent, `game` equals
/// `id`; once a game exists it is the game's id.
pub struct Locator {
    pub id: TokenBytes,
    pub game: TokenBytes,
    pub player: String,
    pub canceled: bool,
}

/// The mathematical value of a `Locator`.
pub struct LocatorModel {
    pub id: Seq<u8>,
    pub game: Seq<u8>,
    pub player: Seq<char>,
    pub canceled: bool,
}

impl View for Locator {
    type V = LocatorModel;

    open spec fn view(&self) -> LocatorModel {
        LocatorModel {
            id: self.id@,
            game: self.game@,
            player: self.player@,
            canceled: self.canceled,
        }
    }
}

impl Clone for Locator {
    fn clone(&self) -> (r: Self)
        ensures
            r == *self,
    {
        Locator {
            id: self.id,
            game: self.game,
            player: self.player.clone(),
            canceled: self.canceled,
        }
    }
}

impl Locator {
    /// A fresh, not-yet-canceled locator for `player`.
    pub fn new(id: TokenBytes, game: TokenBytes, player: String) -> (r: Locator)
        ensures
            r@ == (LocatorModel { id: id@, game: game@, player: player@, canceled: false }),
    {
        Locator { id, game, player, canceled: false }
    }
}

/// One escrowed match between two staked players.
pub struct Game {
    pub id: TokenBytes,
    pub round: u8,
    pub player1: String,
    pub player1_handsign: Option<Handsign>,
    pub player1_wins: u8,
    pub player2: String,
    pub player2_handsign: Option<Handsign>,
    pub player2_wins: u8,
    pub last_play_height: u64,
    pub game_over: bool,
}

/// The mathematical value of a `Game`.
pub struct GameModel {
    pub id: Seq<u8>,
    pub round: u8,
    pub player1: Seq<char>,
    pub player1_handsign: Option<Handsign>,
    pub player1_wins: u8,
    pub player2: Seq<char>,
    pub player2_handsign: Option<Handsign>,
    pub player2_wins: u8,
    pub last_play_height: u64,
    pub game_over: bool,
}

impl View for Game {
    type V = GameModel;

    open spec fn view(&self) -> GameModel {
        GameModel {
            id: self.id@,
            round: self.round,
            player1: self.player1@,
            player1_handsign: self.player1_handsign,
            player1_wins: self.player1_wins,
            player2: self.player2@,
            player2_handsign: self.player2_handsign,
            player2_wins: self.player2_wins,
            last_play_height: self.last_play_height,
            game_over: self.game_over,
        }
    }
}

impl Clone for Game {
    fn clone(&self) -> (r: Self)
        ensures
            r == *self,
    {
        Game {
            id: self.id,
            round: self.round,
            player1: self.player1.clone(),
            player1_handsign: self.player1_handsign,
            player1_wins: self.player1_wins,
            player2: self.player2.clone(),
            player2_handsign: self.player2_handsign,
            player2_wins: self.player2_wins,
            last_play_height: self.last_play_height,
            game_over: self.game_over,
        }
    }
}

impl GameModel {
    /// Well-formedness of a stored game: the round counter starts at 1;
    /// no win counter passes the threshold, and a counter at the
    /// threshold means the game is over; at most one side has a hand
    /// pending; and the last-activity height leaves room for the
    /// deadline sum.
    pub open spec fn wf(self) -> bool {
        &&& 1 <= self.round
        &&& self.player1_wins <= WINS_TO_FINISH
        &&& self.player2_wins <= WINS_TO_FINISH
        &&& ((self.player1_wins == WINS_TO_FINISH || self.player2_wins == WINS_TO_FINISH)
            ==> self.game_over)
        &&& !(self.player1_handsign is Some && self.player2_handsign is Some)
        &&& self.last_play_height <= u64::MAX - PLAYER_DEADLINE_BLOCKS
    }
}

impl Game {
    /// A fresh game between `player1` and `player2`, in round 1 with no
    /// hands pending, no wins, and activity height 0.
    pub fn new(id: TokenBytes, player1: String, player2: String) -> (r: Game)
        ensures
            r@ == (GameModel {
                id: id@,
                round: 1,
                player1: player1@,
                player1_handsign: None,
                player1_wins: 0,
                player2: player2@,
                player2_handsign: None,
                player2_wins: 0,
                last_play_height: 0,
                game_over: false,
            }),
    {
        Game {
            id,
            round: 1,
            player1,
            player1_handsign: None,
            player1_wins: 0,
            player2,
            player2_handsign: None,
            player2_wins: 0,
            last_play_height: 0,
            game_over: false,
        }
    }
}

// ---------------------------------------------------------------------
// The keyed tables. The contract's persistent store is two partitions,
// `locator id -> Locator` and `game id -> Game`, plus the lobby slot.
// Each partition is held as a vector with pairwise-distinct ids and is
// viewed as a `Map` from id to model.
// ---------------------------------------------------------------------

/// The locator ids in `locs` are pairwise distinct.
pub open spec fn locator_keys_distinct(locs: Seq<Locator>) -> bool {
    forall|i: int, j: int| 0 <= i < j < locs.len() ==> locs[i].id@ != locs[j].id@
}

/// The index of the locator with id `k`, where one exists.
pub open spec fn locator_index(locs: Seq<Locator>, k: Seq<u8>) -> int {
    choose|i: int| 0 <= i < locs.len() && locs[i].id@ == k
}

/// The map from locator id to locator model that `locs` holds.
pub open spec fn locator_table(locs: Seq<Locator>) -> Map<Seq<u8>, LocatorModel> {
    Map::new(
        |k: Seq<u8>| exists|i: int| 0 <= i < locs.len() && locs[i].id@ == k,
        |k: Seq<u8>| locs[locator_index(locs, k)]@,
    )
}

/// With distinct ids, position `i` is the one position holding id `k`,
/// and the table maps `k` to the locator there.
pub proof fn lemma_locator_at(locs: Seq<Locator>, k: Seq<u8>, i: int)
    requires
        locator_keys_distinct(locs),
        0 <= i < locs.len(),
        locs[i].id@ == k,
    ensures
        locator_index(locs, k) == i,
        locator_table(locs).dom().contains(k),
        locator_table(locs)[k] == locs[i]@,
{
    let ci = locator_index(locs, k);
    assert(0 <= ci < locs.len() && locs[ci].id@ == k);
    if ci < i {
        assert(locs[ci].id@ != locs[i].id@);
    } else if i < ci {
        assert(locs[i].id@ != locs[ci].id@);
    }
}

/// The game ids in `games` are pairwise distinct.
pub open spec fn game_keys_distinct(games: Seq<Game>) -> bool {
    forall|i: int, j: int| 0 <= i < j < games.len() ==> games[i].id@ != games[j].id@
}

/// The index of the game with id `k`, where one exists.
pub open spec fn game_index(games: Seq<Game>, k: Seq<u8>) -> int {
    choose|i: int| 0 <= i < games.len() && games[i].id@ == k
}

/// The map from game id to game model that `games` holds.
pub open spec fn game_table(games: Seq<Game>) -> Map<Seq<u8>, GameModel> {
    Map::new(
        |k: Seq<u8>| exists|i: int| 0 <= i < games.len() && games[i].id@ == k,
        |k: Seq<u8>| games[game_index(games, k)]@,
    )
}

/// With distinct ids, position `i` is the one position holding id `k`,
/// and the table maps `k` to the game there.
pub proof fn lemma_game_at(games: Seq<Game>, k: Seq<u8>, i: int)
    requires
        game_keys_distinct(games),
        0 <= i < games.len(),
        games[i].id@ == k,
    ensures
        game_index(games, k) == i,
        game_table(games).dom().contains(k),
        game_table(games)[k] == games[i]@,
{
    let ci = game_index(games, k);
    assert(0 <= ci < games.len() && games[ci].id@ == k);
    if ci < i {
        assert(games[ci].id@ != games[i].id@);
    } else if i < ci {
        assert(games[i].id@ != games[ci].id@);
    }
}

/// Find the position of the locator with id `id`, if any.
pub fn find_locator(locs: &Vec<Locator>, id: &TokenBytes) -> (r: Option<usize>)
    requires
        locator_keys_distinct(locs@),
    ensures
        match r {
            Some(i) => {
                &&& i < locs.len()
                &&& locs@[i as int].id@ == id@
                &&& locator_table(locs@).dom().contains(id@)
                &&& locator_table(locs@)[id@] == locs@[i as int]@
            },
            None => !locator_table(locs@).dom().contains(id@),
        },
{
    let n = locs.len();
    let mut i: usize = 0;
    while i < n
        invariant
            n == locs.len(),
            i <= n,
            locator_keys_distinct(locs@),
            forall|j: int| 0 <= j < i ==> locs@[j].id@ != id@,
        decreases n - i,
    {
        if crate::token::token_eq(&locs[i].id, id) {
            proof {
                lemma_locator_at(locs@, id@, i as int);
            }
            return Some(i);
        }
        i += 1;
    }
    None
}

/// Find the position of the game with id `id`, if any.
pub fn find_game(games: &Vec<Game>, id: &TokenBytes) -> (r: Option<usize>)
    requires
        game_keys_distinct(games@),
    ensures
        match r {
            Some(i) => {
                &&& i < games.len()
                &&& games@[i as int].id@ == id@
                &&& game_table(games@).dom().contains(id@)
                &&& game_table(games@)[id@] == games@[i as int]@
            },
            None => !game_table(games@).dom().contains(id@),
        },
{
    let n = games.len();
    let mut i: usize = 0;
    while i < n
        invariant
            n == games.len(),
            i <= n,
            game_keys_distinct(games@),
            forall|j: int| 0 <= j < i ==> games@[j].id@ != id@,
        decreases n - i,
    {
        if crate::token::token_eq(&games[i].id, id) {
            proof {
                lemma_game_at(games@, id@, i as int);
            }
            return Some(i);
        }
        i += 1;
    }
    None
}

/// Persist `loc` under its id, replacing any earlier locator with the
/// same id. On the table view this is exactly an insert.
pub fn save_locator(locs: &mut Vec<Locator>, loc: Locator)
    requires
        locator_keys_distinct(old(locs)@),
    ensures
        locator_keys_distinct(final(locs)@),
        locator_table(final(locs)@) == locator_table(old(locs)@).insert(loc.id@, loc@),
        forall|i: int|
            0 <= i < final(locs)@.len()
                ==> (#[trigger] final(locs)@[i] == loc
                    || (i < old(locs)@.len() && final(locs)@[i] == old(locs)@[i])),
{
    let ghost pre = locs@;
    let ghost lid = loc.id@;
    let ghost lm = loc@;
    match find_locator(locs, &loc.id) {
        Some(i) => {
            locs.set(i, loc);
            proof {
                assert(forall|j: int|
                    0 <= j < locs@.len() ==> locs@[j].id@ == pre[j].id@);
                assert(locator_keys_distinct(locs@));
                assert forall|k: Seq<u8>|
                    locator_table(locs@).dom().contains(k)
                        == locator_table(pre).insert(lid, lm).dom().contains(k) by {
                    if k == lid {
                        lemma_locator_at(locs@, k, i as int);
                    } else {
                        assert(locator_table(pre).insert(lid, lm).dom().contains(k)
                            == locator_table(pre).dom().contains(k));
                        if exists|j: int| 0 <= j < pre.len() && pre[j].id@ == k {
                            let j = choose|j: int| 0 <= j < pre.len() && pre[j].id@ == k;
                            assert(locs@[j].id@ == k);
                        }
                        if exists|j: int| 0 <= j < locs@.len() && locs@[j].id@ == k {
                            let j = choose|j: int| 0 <= j < locs@.len() && locs@[j].id@ == k;
                            assert(pre[j].id@ == k);
                        }
                    }
                }
                assert forall|k: Seq<u8>| #[trigger] locator_table(locs@).dom().contains(k)
                    implies locator_table(locs@)[k]
                        == locator_table(pre).insert(lid, lm)[k] by {
                    if k == lid {
                        lemma_locator_at(locs@, k, i as int);
                    } else {
                        let j = choose|j: int| 0 <= j < locs@.len() && locs@[j].id@ == k;
                        assert(j != i);
                        assert(pre[j].id@ == k);
                        lemma_locator_at(locs@, k, j);
                        lemma_locator_at(pre, k, j);
                    }
                }
                assert(locator_table(locs@) =~= locator_table(pre).insert(lid, lm));
            }
        },
        None => {
            locs.push(loc);
            proof {
                assert(forall|j: int| 0 <= j < pre.len() ==> locs@[j] == pre[j]);
                assert forall|p: int, q: int| 0 <= p < q < locs@.len()
                    implies locs@[p].id@ != locs@[q].id@ by {
                    if q == pre.len() as int {
                        assert(!locator_table(pre).dom().contains(lid));
                        assert(locs@[q].id@ == lid);
                        if locs@[p].id@ == lid {
                            assert(pre[p].id@ == lid);
                            assert(locator_table(pre).dom().contains(lid));
                        }
                    }
                }
                assert forall|k: Seq<u8>|
                    locator_table(locs@).dom().contains(k)
                        == locator_table(pre).insert(lid, lm).dom().contains(k) by {
                    if k == lid {
                        assert(locs@[pre.len() as int].id@ == k);
                    } else {
                        if exists|j: int| 0 <= j < pre.len() && pre[j].id@ == k {
                            let j = choose|j: int| 0 <= j < pre.len() && pre[j].id@ == k;
                            assert(locs@[j].id@ == k);
                        }
                        if exists|j: int| 0 <= j < locs@.len() && locs@[j].id@ == k {
                            let j = choose|j: int| 0 <= j < locs@.len() && locs@[j].id@ == k;
                            assert(j != pre.len() as int);
                            assert(pre[j].id@ == k);
                        }
                    }
                }
                assert forall|k: Seq<u8>| #[trigger] locator_table(locs@).dom().contains(k)
                    implies locator_table(locs@)[k]
                        == locator_table(pre).insert(lid, lm)[k] by {
                    if k == lid {
                        lemma_locator_at(locs@, k, pre.len() as int);
                    } else {
                        let j = choose|j: int| 0 <= j < locs@.len() && locs@[j].id@ == k;
                        assert(j != pre.len() as int);
                        assert(pre[j].id@ == k);
                        lemma_locator_at(locs@, k, j);
                        lemma_locator_at(pre, k, j);
                    }
                }
                assert(locator_table(locs@) =~= locator_table(pre).insert(lid, lm));
            }
        },
    }
}

/// Persist `game` under its id, replacing any earlier game with the
/// same id. On the table view this is exactly an insert.
pub fn save_game(games: &mut Vec<Game>, game: Game)
    requires
        game_keys_distinct(old(games)@),
    ensures
        game_keys_distinct(final(games)@),
        game_table(final(games)@) == game_table(old(games)@).insert(game.id@, game@),
        forall|i: int|
            0 <= i < final(games)@.len()
                ==> (#[trigger] final(games)@[i] == game
                    || (i < old(games)@.len() && final(games)@[i] == old(games)@[i])),
{
    let ghost pre = games@;
    let ghost gid = game.id@;
    let ghost gm = game@;
    match find_game(games, &game.id) {
        Some(i) => {
            games.set(i, game);
            proof {
                assert(forall|j: int|
                    0 <= j < games@.len() ==> games@[j].id@ == pre[j].id@);
                assert(game_keys_distinct(games@));
                assert forall|k: Seq<u8>|
                    game_table(games@).dom().contains(k)
                        == game_table(pre).insert(gid, gm).dom().contains(k) by {
                    if k == gid {
                        lemma_game_at(games@, k, i as int);
                    } else {
                        if exists|j: int| 0 <= j < pre.len() && pre[j].id@ == k {
                            let j = choose|j: int| 0 <= j < pre.len() && pre[j].id@ == k;
                            assert(games@[j].id@ == k);
                        }
                        if exists|j: int| 0 <= j < games@.len() && games@[j].id@ == k {
                            let j = choose|j: int| 0 <= j < games@.len() && games@[j].id@ == k;
                            assert(pre[j].id@ == k);
                        }
                    }
                }
                assert forall|k: Seq<u8>| #[trigger] game_table(games@).dom().contains(k)
                    implies game_table(games@)[k] == game_table(pre).insert(gid, gm)[k] by {
                    if k == gid {
                        lemma_game_at(games@, k, i as int);
                    } else {
                        let j = choose|j: int| 0 <= j < games@.len() && games@[j].id@ == k;
                        assert(j != i);
                        assert(pre[j].id@ == k);
                        lemma_game_at(games@, k, j);
                        lemma_game_at(pre, k, j);
                    }
                }
                assert(game_table(games@) =~= game_table(pre).insert(gid, gm));
            }
        },
        None => {
            games.push(game);
            proof {
                assert(forall|j: int| 0 <= j < pre.len() ==> games@[j] == pre[j]);
                assert forall|p: int, q: int| 0 <= p < q < games@.len()
                    implies games@[p].id@ != games@[q].id@ by {
                    if q == pre.len() as int {
                        assert(!game_table(pre).dom().contains(gid));
                        assert(games@[q].id@ == gid);
                        if games@[p].id@ == gid {
                            assert(pre[p].id@ == gid);
                            assert(game_table(pre).dom().contains(gid));
                        }
                    }
                }
                assert forall|k: Seq<u8>|
                    game_table(games@).dom().contains(k)
                        == game_table(pre).insert(gid, gm).dom().contains(k) by {
                    if k == gid {
                        assert(games@[pre.len() as int].id@ == k);
                    } else {
                        if exists|j: int| 0 <= j < pre.len() && pre[j].id@ == k {
                            let j = choose|j: int| 0 <= j < pre.len() && pre[j].id@ == k;
                            assert(games@[j].id@ == k);
                        }
                        if exists|j: int| 0 <= j < games@.len() && games@[j].id@ == k {
                            let j = choose|j: int| 0 <= j < games@.len() && games@[j].id@ == k;
                            assert(j != pre.len() as int);
                            assert(pre[j].id@ == k);
                        }
                    }
                }
                assert forall|k: Seq<u8>| #[trigger] game_table(games@).dom().contains(k)
                    implies game_table(games@)[k] == game_table(pre).insert(gid, gm)[k] by {
                    if k == gid {
                        lemma_game_at(games@, k, pre.len() as int);
                    } else {
                        let j = choose|j: int| 0 <= j < games@.len() && games@[j].id@ == k;
                        assert(j != pre.len() as int);
                        assert(pre[j].id@ == k);
                        lemma_game_at(games@, k, j);
                        lemma_game_at(pre, k, j);
                    }
                }
                assert(game_table(games@) =~= game_table(pre).insert(gid, gm));
            }
        },
    }
}

// ---------------------------------------------------------------------
// The whole persistent state.
// ---------------------------------------------------------------------

/// The contract's entire persistent state: the optional public-lobby
/// token and the two keyed partitions. Every operation loads it, runs
/// one state machine to completion, and persists the result.
pub struct State {
    pub lobby: Option<TokenBytes>,
    pub locators: Vec<Locator>,
    pub games: Vec<Game>,
}

/// The mathematical value of the persistent state.
pub struct StateModel {
    pub lobby: Option<Seq<u8>>,
    pub locators: Map<Seq<u8>, LocatorModel>,
    pub games: Map<Seq<u8>, GameModel>,
}

impl View for State {
    type V = StateModel;

    open spec fn view(&self) -> StateModel {
        StateModel {
            lobby: match self.lobby {
                Some(t) => Some(t@),
                None => None,
            },
            locators: locator_table(self.locators@),
            games: game_table(self.games@),
        }
    }
}

/// No stored game's round counter is at the top of its range, so one
/// more round can still be counted.
pub open spec fn rounds_below_cap(s: State) -> bool {
    forall|i: int| 0 <= i < s.games@.len() ==> (#[trigger] s.games@[i]).round < u8::MAX
}

/// Every stored game of the model is well-formed.
pub open spec fn games_wf(s: StateModel) -> bool {
    forall|k: Seq<u8>| #[trigger] s.games.dom().contains(k) ==> s.games[k].wf()
}

impl State {
    /// The representation invariant: both partitions have pairwise
    /// distinct ids and every stored game is well-formed.
    pub open spec fn inv(&self) -> bool {
        &&& locator_keys_distinct(self.locators@)
        &&& game_keys_distinct(self.games@)
        &&& forall|i: int| 0 <= i < self.games@.len() ==> (#[trigger] self.games@[i])@.wf()
    }

    /// The state with an empty lobby and no records.
    pub fn empty() -> (s: State)
        ensures
            s.inv(),
            s@.lobby is None,
            s@.locators == Map::<Seq<u8>, LocatorModel>::empty(),
            s@.games == Map::<Seq<u8>, GameModel>::empty(),
    {
        let s = State { lobby: None, locators: Vec::new(), games: Vec::new() };
        proof {
            assert(locator_table(s.locators@) =~= Map::<Seq<u8>, LocatorModel>::empty());
            assert(game_table(s.games@) =~= Map::<Seq<u8>, GameModel>::empty());
        }
        s
    }

    /// The representation invariant carries over to the model: every
    /// game in the model map is well-formed.
    pub proof fn lemma_inv_games_wf(&self)
        requires
            self.inv(),
        ensures
            games_wf(self@),
    {
        assert forall|k: Seq<u8>| #[trigger] self@.games.dom().contains(k)
            implies self@.games[k].wf() by {
            let i = game_index(self.games@, k);
            assert(0 <= i < self.games@.len() && self.games@[i].id@ == k);
        }
    }
}

} // verus!
