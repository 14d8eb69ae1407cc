use vstd::prelude::*;

use crate::conf::{funding_denom, spec_funding_denom, FUNDING_AMOUNT, PLAYER_DEADLINE_BLOCKS,
    WINS_TO_FINISH};
use crate::msg::{spec_beats, GameLobbyResponse, GameStatusResponse, HandleMsg, Handsign, InitMsg,
    QueryMsg};
use crate::state::{find_game, find_locator, rounds_below_cap, save_game, save_locator, Game,
    GameModel, Locator, LocatorModel, State, StateModel};
use crate::token::{parse_locator, spec_decode, token_eq, valid_locator};

verus! {

/// Why an operation was rejected. Every failure leaves the state
/// exactly as it was: there is no partial commit.
#[derive(Clone, Copy, Debug, PartialEq, Eq, Structural)]
pub enum Error {
    /// The locator string is not exactly 64 hex digits.
    InvalidLocatorFormat,
    /// The attached stake is missing, in the wrong currency, or below
    /// the minimum amount.
    InsufficientFunds,
    /// The locator's game already exists, so no second player can join
    /// through it any more.
    AlreadyMatched,
    /// The caller is neither of the game's two players.
    NotAPlayer,
    /// The caller already has a hand pending for the current round.
    AlreadyPlayed,
    /// The game has finished; no further move or claim can touch it.
    GameOver,
    /// The locator was canceled by an inactivity claim while unmatched.
    GameCanceled,
    /// Too few blocks have elapsed since the game's last activity.
    DeadlineNotReached,
    /// The caller has no pending hand this round, so no forfeiture is
    /// owed to them.
    NothingToClaim,
    /// No locator is registered under this token.
    LocatorNotFound,
    /// The locator's game id refers to no existing game.
    GameNotFound,
}

/// One coin of attached funds.
pub struct Coin {
    pub denom: String,
    pub amount: u128,
}

/// The mathematical value of a `Coin`.
pub struct CoinModel {
    pub denom: Seq<char>,
    pub amount: u128,
}

impl View for Coin {
    type V = CoinModel;

    open spec fn view(&self) -> CoinModel {
        CoinModel { denom: self.denom@, amount: self.amount }
    }
}

/// What the host hands to every operation: the authenticated sender,
/// the current block height, the contract's own address, and the funds
/// attached to the call.
pub struct Env {
    pub sender: String,
    pub block_height: u64,
    pub contract_address: String,
    pub sent_funds: Vec<Coin>,
}

/// The mathematical value of an `Env`.
pub struct EnvModel {
    pub sender: Seq<char>,
    pub block_height: u64,
    pub contract_address: Seq<char>,
    pub sent_funds: Seq<CoinModel>,
}

impl View for Env {
    type V = EnvModel;

    open spec fn view(&self) -> EnvModel {
        EnvModel {
            sender: self.sender@,
            block_height: self.block_height,
            contract_address: self.contract_address@,
            sent_funds: Seq::new(self.sent_funds@.len(), |i: int| self.sent_funds@[i]@),
        }
    }
}

/// An outgoing transfer instruction for the host ledger: the contract
/// asks it to move `amount` of the funding currency to `to_address`.
#[derive(Debug)]
pub struct Payout {
    pub from_address: String,
    pub to_address: String,
    pub denom: String,
    pub amount: u128,
}

/// The mathematical value of a `Payout`.
pub struct PayoutModel {
    pub from_address: Seq<char>,
    pub to_address: Seq<char>,
    pub denom: Seq<char>,
    pub amount: u128,
}

impl View for Payout {
    type V = PayoutModel;

    open spec fn view(&self) -> PayoutModel {
        PayoutModel {
            from_address: self.from_address@,
            to_address: self.to_address@,
            denom: self.denom@,
            amount: self.amount,
        }
    }
}

/// What a successful operation hands back to the host: at most one
/// payout instruction.
#[derive(Debug)]
pub struct Response {
    pub payout: Option<Payout>,
}

impl View for Response {
    type V = Option<PayoutModel>;

    open spec fn view(&self) -> Option<PayoutModel> {
        match self.payout {
            Some(ref p) => Some(p@),
            None => None,
        }
    }
}

/// A payout of `amount` of the funding currency from the contract's
/// escrow to `player`.
pub fn payout(contract_address: String, player: String, amount: u128) -> (r: Response)
    ensures
        r@ == Some(
            PayoutModel {
                from_address: contract_address@,
                to_address: player@,
                denom: spec_funding_denom(),
                amount,
            },
        ),
{
    Response {
        payout: Some(
            Payout {
                from_address: contract_address,
                to_address: player,
                denom: funding_denom(),
                amount,
            },
        ),
    }
}

/// Whether the attached funds carry the required stake: the first coin
/// is in the funding currency and meets the minimum amount.
pub open spec fn stake_ok(funds: Seq<CoinModel>) -> bool {
    &&& funds.len() > 0
    &&& funds[0].denom == spec_funding_denom()
    &&& funds[0].amount >= FUNDING_AMOUNT
}

/// Whether `env` carries the required stake.
fn check_stake(env: &Env) -> (r: bool)
    ensures
        r == stake_ok(env@.sent_funds),
{
    if env.sent_funds.len() == 0 {
        return false;
    }
    let f = &env.sent_funds[0];
    f.denom == funding_denom() && f.amount >= FUNDING_AMOUNT
}

// ---------------------------------------------------------------------
// The state machines, as transitions on the model. Each operation's
// executable handler is proved to perform exactly one of these steps.
// ---------------------------------------------------------------------

/// The outcome of one operation: the state afterwards, and either the
/// payout instruction it emits (if any) or the error it fails with. An
/// error leaves the state untouched.
pub struct Step {
    pub state: StateModel,
    pub result: Result<Option<PayoutModel>, Error>,
}

/// Fail with `e`, leaving the state untouched.
pub open spec fn rejected(s: StateModel, e: Error) -> Step {
    Step { state: s, result: Err(e) }
}

/// A fresh game model between `player1` and `player2`, created at block
/// height `height`.
pub open spec fn new_game_model(
    id: Seq<u8>,
    player1: Seq<char>,
    player2: Seq<char>,
    height: u64,
) -> GameModel {
    GameModel {
        id,
        round: 1,
        player1,
        player1_handsign: None,
        player1_wins: 0,
        player2,
        player2_handsign: None,
        player2_wins: 0,
        last_play_height: height,
        game_over: false,
    }
}

/// Joining through the public lobby. With the lobby empty, the sender
/// becomes the waiting first player under token `id`. With a waiting
/// locator in the lobby, the sender becomes the second player: a game
/// between the two is created and the lobby is cleared.
pub open spec fn join_step(s: StateModel, e: EnvModel, id: Seq<u8>) -> Step {
    match s.lobby {
        None => Step {
            state: StateModel {
                lobby: Some(id),
                locators: s.locators.insert(
                    id,
                    LocatorModel { id, game: id, player: e.sender, canceled: false },
                ),
                games: s.games,
            },
            result: Ok(None),
        },
        Some(lid) => {
            if !s.locators.dom().contains(lid) {
                rejected(s, Error::LocatorNotFound)
            } else {
                let l1 = s.locators[lid];
                if l1.canceled {
                    rejected(s, Error::GameCanceled)
                } else if s.games.dom().contains(l1.game) {
                    rejected(s, Error::AlreadyMatched)
                } else {
                    Step {
                        state: StateModel {
                            lobby: None,
                            locators: s.locators.insert(
                                id,
                                LocatorModel {
                                    id,
                                    game: l1.game,
                                    player: e.sender,
                                    canceled: false,
                                },
                            ),
                            games: s.games.insert(
                                l1.game,
                                new_game_model(l1.game, l1.player, e.sender, e.block_height),
                            ),
                        },
                        result: Ok(None),
                    }
                }
            }
        },
    }
}

/// Joining through a shared-secret token. With no locator under `id`,
/// the sender becomes the waiting first player. With a waiting locator
/// present, the sender becomes the second player and the game is
/// created; a canceled or already-matched locator is rejected.
pub open spec fn private_step(s: StateModel, e: EnvModel, id: Seq<u8>) -> Step {
    if !s.locators.dom().contains(id) {
        Step {
            state: StateModel {
                lobby: s.lobby,
                locators: s.locators.insert(
                    id,
                    LocatorModel { id, game: id, player: e.sender, canceled: false },
                ),
                games: s.games,
            },
            result: Ok(None),
        }
    } else {
        let l = s.locators[id];
        if l.canceled {
            rejected(s, Error::GameCanceled)
        } else if s.games.dom().contains(l.game) {
            rejected(s, Error::AlreadyMatched)
        } else {
            Step {
                state: StateModel {
                    lobby: s.lobby,
                    locators: s.locators,
                    games: s.games.insert(
                        l.game,
                        new_game_model(l.game, l.player, e.sender, e.block_height),
                    ),
                },
                result: Ok(None),
            }
        }
    }
}

/// The submitted hand applied to the game. With the opponent's slot
/// empty, the hand is stored and nothing else changes. With the
/// opponent's hand pending, the round resolves: the winner's counter
/// (neither, on a tie) is incremented, both slots are cleared, and the
/// round counter advances. Either way the activity height is updated.
pub open spec fn apply_hand(g: GameModel, as_player1: bool, hand: Handsign, height: u64) -> GameModel {
    let g1 = if as_player1 {
        match g.player2_handsign {
            None => GameModel { player1_handsign: Some(hand), ..g },
            Some(opp) => GameModel {
                round: (g.round + 1) as u8,
                player2_handsign: None,
                player1_wins: if spec_beats(hand, opp) {
                    (g.player1_wins + 1) as u8
                } else {
                    g.player1_wins
                },
                player2_wins: if !spec_beats(hand, opp) && hand != opp {
                    (g.player2_wins + 1) as u8
                } else {
                    g.player2_wins
                },
                ..g
            },
        }
    } else {
        match g.player1_handsign {
            None => GameModel { player2_handsign: Some(hand), ..g },
            Some(opp) => GameModel {
                round: (g.round + 1) as u8,
                player1_handsign: None,
                player2_wins: if spec_beats(hand, opp) {
                    (g.player2_wins + 1) as u8
                } else {
                    g.player2_wins
                },
                player1_wins: if !spec_beats(hand, opp) && hand != opp {
                    (g.player1_wins + 1) as u8
                } else {
                    g.player1_wins
                },
                ..g
            },
        }
    };
    GameModel { last_play_height: height, ..g1 }
}

/// The game with its terminal flag set once either counter has reached
/// the win threshold.
pub open spec fn finished(g: GameModel) -> GameModel {
    if g.player1_wins == WINS_TO_FINISH || g.player2_wins == WINS_TO_FINISH {
        GameModel { game_over: true, ..g }
    } else {
        g
    }
}

/// The address owed the escrow once a counter has reached the win
/// threshold, if any.
pub open spec fn winner_address(g: GameModel) -> Option<Seq<char>> {
    if g.player1_wins == WINS_TO_FINISH {
        Some(g.player1)
    } else if g.player2_wins == WINS_TO_FINISH {
        Some(g.player2)
    } else {
        None
    }
}

/// Submitting a hand. The locator must resolve to a live game, the
/// sender must be one of its players, and the sender's own slot must be
/// empty. The hand is stored or the round resolves (`apply_hand`); if a
/// counter reaches the win threshold the game finishes and the doubled
/// stake is paid to the winner.
pub open spec fn play_step(s: StateModel, e: EnvModel, id: Seq<u8>, hand: Handsign) -> Step {
    if !s.locators.dom().contains(id) {
        rejected(s, Error::LocatorNotFound)
    } else {
        let loc = s.locators[id];
        if !s.games.dom().contains(loc.game) {
            rejected(s, Error::GameNotFound)
        } else {
            let g = s.games[loc.game];
            if g.game_over {
                rejected(s, Error::GameOver)
            } else if (e.sender == g.player1 && g.player1_handsign is Some) || (e.sender
                == g.player2 && g.player2_handsign is Some) {
                rejected(s, Error::AlreadyPlayed)
            } else if e.sender == g.player1 || e.sender == g.player2 {
                let g2 = finished(apply_hand(g, e.sender == g.player1, hand, e.block_height));
                Step {
                    state: StateModel {
                        lobby: s.lobby,
                        locators: s.locators,
                        games: s.games.insert(loc.game, g2),
                    },
                    result: Ok(
                        match winner_address(g2) {
                            Some(w) => Some(
                                PayoutModel {
                                    from_address: e.contract_address,
                                    to_address: w,
                                    denom: spec_funding_denom(),
                                    amount: (2 * FUNDING_AMOUNT) as u128,
                                },
                            ),
                            None => None,
                        },
                    ),
                }
            } else {
                rejected(s, Error::NotAPlayer)
            }
        }
    }
}

/// Claiming inactivity. On an unmatched locator: it is canceled, the
/// lobby slot is cleared if it still holds this token, and the player's
/// own stake is refunded. On a live game: after the deadline, the
/// player whose hand is pending (who was kept waiting) collects the
/// doubled stake and the game finishes.
pub open spec fn claim_step(s: StateModel, e: EnvModel, id: Seq<u8>) -> Step {
    if !s.locators.dom().contains(id) {
        rejected(s, Error::LocatorNotFound)
    } else {
        let loc = s.locators[id];
        if loc.canceled {
            rejected(s, Error::GameCanceled)
        } else if !s.games.dom().contains(loc.game) {
            Step {
                state: StateModel {
                    lobby: if s.lobby == Some(id) {
                        None
                    } else {
                        s.lobby
                    },
                    locators: s.locators.insert(id, LocatorModel { canceled: true, ..loc }),
                    games: s.games,
                },
                result: Ok(
                    Some(
                        PayoutModel {
                            from_address: e.contract_address,
                            to_address: loc.player,
                            denom: spec_funding_denom(),
                            amount: FUNDING_AMOUNT,
                        },
                    ),
                ),
            }
        } else {
            let g = s.games[loc.game];
            if g.game_over {
                rejected(s, Error::GameOver)
            } else if e.block_height < g.last_play_height + PLAYER_DEADLINE_BLOCKS {
                rejected(s, Error::DeadlineNotReached)
            } else if (e.sender == g.player1 && g.player1_handsign is Some) || (e.sender
                == g.player2 && g.player2_handsign is Some) {
                Step {
                    state: StateModel {
                        lobby: s.lobby,
                        locators: s.locators,
                        games: s.games.insert(loc.game, GameModel { game_over: true, ..g }),
                    },
                    result: Ok(
                        Some(
                            PayoutModel {
                                from_address: e.contract_address,
                                to_address: e.sender,
                                denom: spec_funding_denom(),
                                amount: (2 * FUNDING_AMOUNT) as u128,
                            },
                        ),
                    ),
                }
            } else {
                rejected(s, Error::NothingToClaim)
            }
        }
    }
}

/// Whether the executable result `r` carries exactly the outcome `m`.
pub open spec fn result_matches(
    r: Result<Response, Error>,
    m: Result<Option<PayoutModel>, Error>,
) -> bool {
    match (r, m) {
        (Ok(resp), Ok(p)) => resp@ == p,
        (Err(e1), Err(e2)) => e1 == e2,
        _ => false,
    }
}

// ---------------------------------------------------------------------
// The executable handlers.
// ---------------------------------------------------------------------

/// What `join_game` does: reject a missing stake, then a malformed
/// locator, leaving the state untouched; otherwise perform `join_step`.
pub open spec fn join_game_post(
    pre: StateModel,
    post: StateModel,
    e: EnvModel,
    locator: Seq<char>,
    r: Result<Response, Error>,
) -> bool {
    if !stake_ok(e.sent_funds) {
        post == pre && r == Err::<Response, Error>(Error::InsufficientFunds)
    } else if !valid_locator(locator) {
        post == pre && r == Err::<Response, Error>(Error::InvalidLocatorFormat)
    } else {
        let step = join_step(pre, e, spec_decode(locator));
        post == step.state && result_matches(r, step.result)
    }
}

/// What `private_game` does: as `join_game`, but through `private_step`.
pub open spec fn private_game_post(
    pre: StateModel,
    post: StateModel,
    e: EnvModel,
    locator: Seq<char>,
    r: Result<Response, Error>,
) -> bool {
    if !stake_ok(e.sent_funds) {
        post == pre && r == Err::<Response, Error>(Error::InsufficientFunds)
    } else if !valid_locator(locator) {
        post == pre && r == Err::<Response, Error>(Error::InvalidLocatorFormat)
    } else {
        let step = private_step(pre, e, spec_decode(locator));
        post == step.state && result_matches(r, step.result)
    }
}

/// What `play_hand` does: reject a malformed locator, leaving the state
/// untouched; otherwise perform `play_step`.
pub open spec fn play_hand_post(
    pre: StateModel,
    post: StateModel,
    e: EnvModel,
    locator: Seq<char>,
    hand: Handsign,
    r: Result<Response, Error>,
) -> bool {
    if !valid_locator(locator) {
        post == pre && r == Err::<Response, Error>(Error::InvalidLocatorFormat)
    } else {
        let step = play_step(pre, e, spec_decode(locator), hand);
        post == step.state && result_matches(r, step.result)
    }
}

/// What `claim_inactivity` does: reject a malformed locator, leaving
/// the state untouched; otherwise perform `claim_step`.
pub open spec fn claim_inactivity_post(
    pre: StateModel,
    post: StateModel,
    e: EnvModel,
    locator: Seq<char>,
    r: Result<Response, Error>,
) -> bool {
    if !valid_locator(locator) {
        post == pre && r == Err::<Response, Error>(Error::InvalidLocatorFormat)
    } else {
        let step = claim_step(pre, e, spec_decode(locator));
        post == step.state && result_matches(r, step.result)
    }
}

/// Initialize the contract: an empty lobby and no records.
pub fn init(_msg: InitMsg) -> (s: State)
    ensures
        s.inv(),
        s@.lobby is None,
        s@.locators == Map::<Seq<u8>, LocatorModel>::empty(),
        s@.games == Map::<Seq<u8>, GameModel>::empty(),
{
    State::empty()
}

/// Register for, or get matched through, the public lobby.
pub fn join_game(state: &mut State, env: &Env, locator: String) -> (r: Result<Response, Error>)
    requires
        old(state).inv(),
        env.block_height <= u64::MAX - PLAYER_DEADLINE_BLOCKS,
    ensures
        final(state).inv(),
        join_game_post(old(state)@, final(state)@, env@, locator@, r),
{
    if !check_stake(env) {
        return Err(Error::InsufficientFunds);
    }
    let bytes = match parse_locator(locator.as_str()) {
        Ok(b) => b,
        Err(e) => {
            return Err(e);
        },
    };
    match state.lobby {
        None => {
            // The sender becomes the waiting first player.
            let loc = Locator::new(bytes, bytes, env.sender.clone());
            save_locator(&mut state.locators, loc);
            state.lobby = Some(bytes);
            Ok(Response { payout: None })
        },
        Some(lobby_id) => {
            // The sender joins the waiting player; the lobby empties.
            let li = match find_locator(&state.locators, &lobby_id) {
                Some(i) => i,
                None => {
                    return Err(Error::LocatorNotFound);
                },
            };
            if state.locators[li].canceled {
                return Err(Error::GameCanceled);
            }
            let game_id = state.locators[li].game;
            let p1 = state.locators[li].player.clone();
            if find_game(&state.games, &game_id).is_some() {
                return Err(Error::AlreadyMatched);
            }
            let p2_locator = Locator::new(bytes, game_id, env.sender.clone());
            save_locator(&mut state.locators, p2_locator);
            let mut game = Game::new(game_id, p1, env.sender.clone());
            game.last_play_height = env.block_height;
            save_game(&mut state.games, game);
            state.lobby = None;
            Ok(Response { payout: None })
        },
    }
}

/// Register for, or get matched through, a private shared-secret token.
pub fn private_game(state: &mut State, env: &Env, locator: String) -> (r: Result<Response, Error>)
    requires
        old(state).inv(),
        env.block_height <= u64::MAX - PLAYER_DEADLINE_BLOCKS,
    ensures
        final(state).inv(),
        private_game_post(old(state)@, final(state)@, env@, locator@, r),
{
    if !check_stake(env) {
        return Err(Error::InsufficientFunds);
    }
    let bytes = match parse_locator(locator.as_str()) {
        Ok(b) => b,
        Err(e) => {
            return Err(e);
        },
    };
    match find_locator(&state.locators, &bytes) {
        None => {
            // The sender waits for a second player under this token.
            let loc = Locator::new(bytes, bytes, env.sender.clone());
            save_locator(&mut state.locators, loc);
            Ok(Response { payout: None })
        },
        Some(li) => {
            // The sender joins the waiting player.
            if state.locators[li].canceled {
                return Err(Error::GameCanceled);
            }
            let game_id = state.locators[li].game;
            let p1 = state.locators[li].player.clone();
            if find_game(&state.games, &game_id).is_some() {
                return Err(Error::AlreadyMatched);
            }
            let mut game = Game::new(game_id, p1, env.sender.clone());
            game.last_play_height = env.block_height;
            save_game(&mut state.games, game);
            Ok(Response { payout: None })
        },
    }
}

/// Submit a hand for the current round.
pub fn play_hand(state: &mut State, env: &Env, locator: String, handsign: Handsign) -> (r: Result<
    Response,
    Error,
>)
    requires
        old(state).inv(),
        env.block_height <= u64::MAX - PLAYER_DEADLINE_BLOCKS,
        rounds_below_cap(*old(state)),
    ensures
        final(state).inv(),
        play_hand_post(old(state)@, final(state)@, env@, locator@, handsign, r),
{
    let bytes = match parse_locator(locator.as_str()) {
        Ok(b) => b,
        Err(e) => {
            return Err(e);
        },
    };
    let li = match find_locator(&state.locators, &bytes) {
        Some(i) => i,
        None => {
            return Err(Error::LocatorNotFound);
        },
    };
    let game_id = state.locators[li].game;
    let gi = match find_game(&state.games, &game_id) {
        Some(i) => i,
        None => {
            return Err(Error::GameNotFound);
        },
    };
    let mut game = state.games[gi].clone();
    if game.game_over {
        return Err(Error::GameOver);
    }
    let is_p1 = env.sender == game.player1;
    let is_p2 = env.sender == game.player2;
    if (is_p1 && game.player1_handsign.is_some()) || (is_p2 && game.player2_handsign.is_some()) {
        return Err(Error::AlreadyPlayed);
    }
    if is_p1 {
        match game.player2_handsign {
            None => {
                game.player1_handsign = Some(handsign);
            },
            Some(opp) => {
                game.round = game.round + 1;
                game.player2_handsign = None;
                if handsign.beats(opp) {
                    game.player1_wins = game.player1_wins + 1;
                } else if handsign != opp {
                    game.player2_wins = game.player2_wins + 1;
                }
            },
        }
    } else if is_p2 {
        match game.player1_handsign {
            None => {
                game.player2_handsign = Some(handsign);
            },
            Some(opp) => {
                game.round = game.round + 1;
                game.player1_handsign = None;
                if handsign.beats(opp) {
                    game.player2_wins = game.player2_wins + 1;
                } else if handsign != opp {
                    game.player1_wins = game.player1_wins + 1;
                }
            },
        }
    } else {
        return Err(Error::NotAPlayer);
    }
    game.last_play_height = env.block_height;
    let mut pay_address: Option<String> = None;
    if game.player1_wins == WINS_TO_FINISH {
        pay_address = Some(game.player1.clone());
        game.game_over = true;
    } else if game.player2_wins == WINS_TO_FINISH {
        pay_address = Some(game.player2.clone());
        game.game_over = true;
    }
    save_game(&mut state.games, game);
    match pay_address {
        None => Ok(Response { payout: None }),
        Some(address) => Ok(payout(env.contract_address.clone(), address, 2 * FUNDING_AMOUNT)),
    }
}

/// Claim a refund (unmatched) or the opponent's forfeiture (matched,
/// past the deadline).
pub fn claim_inactivity(state: &mut State, env: &Env, locator: String) -> (r: Result<
    Response,
    Error,
>)
    requires
        old(state).inv(),
    ensures
        final(state).inv(),
        claim_inactivity_post(old(state)@, final(state)@, env@, locator@, r),
{
    let bytes = match parse_locator(locator.as_str()) {
        Ok(b) => b,
        Err(e) => {
            return Err(e);
        },
    };
    let li = match find_locator(&state.locators, &bytes) {
        Some(i) => i,
        None => {
            return Err(Error::LocatorNotFound);
        },
    };
    if state.locators[li].canceled {
        return Err(Error::GameCanceled);
    }
    let game_id = state.locators[li].game;
    match find_game(&state.games, &game_id) {
        None => {
            // Still unmatched: cancel the locator, clear the lobby slot
            // if it still holds this token, refund the player's stake.
            let mut loc = state.locators[li].clone();
            loc.canceled = true;
            let player = loc.player.clone();
            save_locator(&mut state.locators, loc);
            let clear = match &state.lobby {
                Some(l) => token_eq(l, &bytes),
                None => false,
            };
            if clear {
                state.lobby = None;
            }
            Ok(payout(env.contract_address.clone(), player, FUNDING_AMOUNT))
        },
        Some(gi) => {
            let mut game = state.games[gi].clone();
            if game.game_over {
                return Err(Error::GameOver);
            }
            if env.block_height < game.last_play_height + PLAYER_DEADLINE_BLOCKS {
                return Err(Error::DeadlineNotReached);
            }
            let is_p1 = env.sender == game.player1;
            let is_p2 = env.sender == game.player2;
            if (is_p1 && game.player1_handsign.is_some()) || (is_p2
                && game.player2_handsign.is_some()) {
                // The claimant was kept waiting for a response: the
                // game forfeits to them.
                game.game_over = true;
                save_game(&mut state.games, game);
                Ok(payout(env.contract_address.clone(), env.sender.clone(), 2 * FUNDING_AMOUNT))
            } else {
                Err(Error::NothingToClaim)
            }
        },
    }
}

/// Dispatch one state-changing operation.
pub fn handle(state: &mut State, env: &Env, msg: HandleMsg) -> (r: Result<Response, Error>)
    requires
        old(state).inv(),
        env.block_height <= u64::MAX - PLAYER_DEADLINE_BLOCKS,
        rounds_below_cap(*old(state)),
    ensures
        final(state).inv(),
        match msg {
            HandleMsg::JoinGame { locator } => join_game_post(
                old(state)@,
                final(state)@,
                env@,
                locator@,
                r,
            ),
            HandleMsg::PrivateGame { locator } => private_game_post(
                old(state)@,
                final(state)@,
                env@,
                locator@,
                r,
            ),
            HandleMsg::PlayHand { locator, handsign } => play_hand_post(
                old(state)@,
                final(state)@,
                env@,
                locator@,
                handsign,
                r,
            ),
            HandleMsg::ClaimInactivity { locator } => claim_inactivity_post(
                old(state)@,
                final(state)@,
                env@,
                locator@,
                r,
            ),
        },
{
    match msg {
        HandleMsg::JoinGame { locator } => join_game(state, env, locator),
        HandleMsg::PrivateGame { locator } => private_game(state, env, locator),
        HandleMsg::PlayHand { locator, handsign } => play_hand(state, env, locator, handsign),
        HandleMsg::ClaimInactivity { locator } => claim_inactivity(state, env, locator),
    }
}

// ---------------------------------------------------------------------
// The read-only queries.
// ---------------------------------------------------------------------

/// What the lobby query answers: whether the locator's game has started
/// and whether the locator belongs to the game's first player.
pub open spec fn lobby_query(s: StateModel, id: Seq<u8>) -> Result<GameLobbyResponse, Error> {
    if !s.locators.dom().contains(id) {
        Err(Error::LocatorNotFound)
    } else {
        let loc = s.locators[id];
        if !s.games.dom().contains(loc.game) {
            Ok(GameLobbyResponse { game_started: false, player1_locator: false })
        } else {
            Ok(
                GameLobbyResponse {
                    game_started: true,
                    player1_locator: loc.player == s.games[loc.game].player1,
                },
            )
        }
    }
}

/// What the status query answers: the game's round, pending hands, win
/// counters, inactivity-claim deadline, and terminal flag.
pub open spec fn status_query(s: StateModel, id: Seq<u8>) -> Result<GameStatusResponse, Error> {
    if !s.locators.dom().contains(id) {
        Err(Error::LocatorNotFound)
    } else {
        let loc = s.locators[id];
        if !s.games.dom().contains(loc.game) {
            Err(Error::GameNotFound)
        } else {
            let g = s.games[loc.game];
            Ok(
                GameStatusResponse {
                    round: g.round,
                    player1_played: g.player1_handsign is Some,
                    player2_played: g.player2_handsign is Some,
                    player1_wins: g.player1_wins,
                    player2_wins: g.player2_wins,
                    deadline: (g.last_play_height + PLAYER_DEADLINE_BLOCKS) as u64,
                    game_over: g.game_over,
                },
            )
        }
    }
}

/// Answer the lobby query for `locator`.
pub fn game_lobby(state: &State, locator: String) -> (r: Result<GameLobbyResponse, Error>)
    requires
        state.inv(),
    ensures
        !valid_locator(locator@) ==> r == Err::<GameLobbyResponse, Error>(
            Error::InvalidLocatorFormat,
        ),
        valid_locator(locator@) ==> r == lobby_query(state@, spec_decode(locator@)),
{
    let bytes = match parse_locator(locator.as_str()) {
        Ok(b) => b,
        Err(e) => {
            return Err(e);
        },
    };
    let li = match find_locator(&state.locators, &bytes) {
        Some(i) => i,
        None => {
            return Err(Error::LocatorNotFound);
        },
    };
    let game_id = state.locators[li].game;
    match find_game(&state.games, &game_id) {
        None => Ok(GameLobbyResponse { game_started: false, player1_locator: false }),
        Some(gi) => Ok(
            GameLobbyResponse {
                game_started: true,
                player1_locator: state.locators[li].player == state.games[gi].player1,
            },
        ),
    }
}

/// Answer the status query for `locator`.
pub fn game_status(state: &State, locator: String) -> (r: Result<GameStatusResponse, Error>)
    requires
        state.inv(),
    ensures
        !valid_locator(locator@) ==> r == Err::<GameStatusResponse, Error>(
            Error::InvalidLocatorFormat,
        ),
        valid_locator(locator@) ==> r == status_query(state@, spec_decode(locator@)),
{
    let bytes = match parse_locator(locator.as_str()) {
        Ok(b) => b,
        Err(e) => {
            return Err(e);
        },
    };
    let li = match find_locator(&state.locators, &bytes) {
        Some(i) => i,
        None => {
            return Err(Error::LocatorNotFound);
        },
    };
    let game_id = state.locators[li].game;
    let gi = match find_game(&state.games, &game_id) {
        Some(i) => i,
        None => {
            return Err(Error::GameNotFound);
        },
    };
    let game = &state.games[gi];
    Ok(
        GameStatusResponse {
            round: game.round,
            player1_played: game.player1_handsign.is_some(),
            player2_played: game.player2_handsign.is_some(),
            player1_wins: game.player1_wins,
            player2_wins: game.player2_wins,
            deadline: game.last_play_height + PLAYER_DEADLINE_BLOCKS,
            game_over: game.game_over,
        },
    )
}

/// Answer to a read-only query.
#[derive(Clone, Copy, Debug, PartialEq, Eq, Structural)]
pub enum QueryAnswer {
    GameLobby(GameLobbyResponse),
    GameStatus(GameStatusResponse),
}

/// Dispatch one read-only query.
pub fn query(state: &State, msg: QueryMsg) -> (r: Result<QueryAnswer, Error>)
    requires
        state.inv(),
    ensures
        match msg {
            QueryMsg::GameLobby { locator } => {
                if !valid_locator(locator@) {
                    r == Err::<QueryAnswer, Error>(Error::InvalidLocatorFormat)
                } else {
                    match lobby_query(state@, spec_decode(locator@)) {
                        Ok(resp) => r == Ok::<QueryAnswer, Error>(QueryAnswer::GameLobby(resp)),
                        Err(e) => r == Err::<QueryAnswer, Error>(e),
                    }
                }
            },
            QueryMsg::GameStatus { locator } => {
                if !valid_locator(locator@) {
                    r == Err::<QueryAnswer, Error>(Error::InvalidLocatorFormat)
                } else {
                    match status_query(state@, spec_decode(locator@)) {
                        Ok(resp) => r == Ok::<QueryAnswer, Error>(QueryAnswer::GameStatus(resp)),
                        Err(e) => r == Err::<QueryAnswer, Error>(e),
                    }
                }
            },
        },
{
    match msg {
        QueryMsg::GameLobby { locator } => {
            match game_lobby(state, locator) {
                Ok(resp) => Ok(QueryAnswer::GameLobby(resp)),
                Err(e) => Err(e),
            }
        },
        QueryMsg::GameStatus { locator } => {
            match game_status(state, locator) {
                Ok(resp) => Ok(QueryAnswer::GameStatus(resp)),
                Err(e) => Err(e),
            }
        },
    }
}

} // verus!

