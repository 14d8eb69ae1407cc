use vstd::prelude::*;

verus! {

/// Minimum stake, in the funding currency's base unit, that a joining
/// player must attach; also the amount escrowed per player.
pub const FUNDING_AMOUNT: u128 = 10_000_000;

/// Number of decisive rounds a player must win for the game to finish.
pub const WINS_TO_FINISH: u8 = 3;

/// Number of blocks from the last activity on a game after which the
/// player who is waiting for the opponent's move may claim the escrow.
pub const PLAYER_DEADLINE_BLOCKS: u64 = 20;

/// Number of blocks from the last activity after which any address may
/// shut the game down for a fee (reserved; no operation uses it yet).
pub const GLOBAL_DEADLINE_BLOCKS: u64 = 300;

/// The currency id of the staked funds.
pub open spec fn spec_funding_denom() -> Seq<char> {
    "uscrt"@
}

/// The currency id of the staked funds, as a `String` for comparisons.
pub fn funding_denom() -> (s: String)
    ensures
        s@ == spec_funding_denom(),
{
    "uscrt".to_owned()
}

} // verus!
