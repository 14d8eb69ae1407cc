use vstd::prelude::*;

verus! {

/// The (empty) message that initializes the contract state.
#[derive(Clone, Debug, PartialEq, Eq, Structural)]
pub struct InitMsg {}

/// The state-changing operations. Each carries the caller's locator
/// token as a 64-digit hex string.
#[derive(Clone, Debug)]
pub enum HandleMsg {
    JoinGame { locator: String },
    PrivateGame { locator: String },
    PlayHand { locator: String, handsign: Handsign },
    ClaimInactivity { locator: String },
}

/// Moves that a player can make. The wire encoding of every handsign has
/// the same size, so an opponent cannot guess a move from the input size.
#[derive(Clone, Copy, Debug, PartialEq, Eq, Structural)]
pub enum Handsign {
    ROCK,
    PAPR,
    SCRS,
}

/// The cyclic dominance relation on handsigns: paper beats rock,
/// scissors beat paper, rock beats scissors.
pub open spec fn spec_beats(a: Handsign, b: Handsign) -> bool {
    match (a, b) {
        (Handsign::PAPR, Handsign::ROCK) => true,
        (Handsign::SCRS, Handsign::PAPR) => true,
        (Handsign::ROCK, Handsign::SCRS) => true,
        _ => false,
    }
}

impl Handsign {
    /// Whether `self` wins against `b` under the cyclic dominance relation.
    pub fn beats(&self, b: Handsign) -> (r: bool)
        ensures
            r == spec_beats(*self, b),
    {
        match (self, b) {
            (Handsign::PAPR, Handsign::ROCK) => true,
            (Handsign::SCRS, Handsign::PAPR) => true,
            (Handsign::ROCK, Handsign::SCRS) => true,
            _ => false,
        }
    }
}

/// The read-only queries.
#[derive(Clone, Debug)]
pub enum QueryMsg {
    GameLobby { locator: String },
    GameStatus { locator: String },
}

/// Answer to `QueryMsg::GameLobby`: whether the locator's game has
/// started, and whether this locator belongs to the first player.
#[derive(Clone, Copy, Debug, PartialEq, Eq, Structural)]
pub struct GameLobbyResponse {
    pub game_started: bool,
    pub player1_locator: bool,
}

/// Answer to `QueryMsg::GameStatus`: the current round, which hands are
/// pending, the win counters, the inactivity-claim deadline, and whether
/// the game is over.
#[derive(Clone, Copy, Debug, PartialEq, Eq, Structural)]
pub struct GameStatusResponse {
    pub round: u8,
    pub player1_played: bool,
    pub player2_played: bool,
    pub player1_wins: u8,
    pub player2_wins: u8,
    pub deadline: u64,
    pub game_over: bool,
}

} // verus!
