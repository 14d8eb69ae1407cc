use vstd::prelude::*;

use crate::conf::PLAYER_DEADLINE_BLOCKS;
use crate::contract::{claim_step, join_step, play_step, private_step, rejected, Error, EnvModel,
    PayoutModel};
use crate::msg::{spec_beats, Handsign};
use crate::state::{games_wf, StateModel};

verus! {

/// For every ordered pair of hands, exactly one of "the first beats the
/// second", "the second beats the first", "they are equal" holds.
pub proof fn lemma_beats_exactly_one(a: Handsign, b: Handsign)
    ensures
        spec_beats(a, b) ==> !spec_beats(b, a) && a != b,
        spec_beats(b, a) ==> !spec_beats(a, b) && a != b,
        a == b ==> !spec_beats(a, b) && !spec_beats(b, a),
        spec_beats(a, b) || spec_beats(b, a) || a == b,
{
}

/// A rejected operation leaves the state exactly as it was: every
/// error outcome of every step keeps the state.
pub proof fn lemma_rejections_keep_state(s: StateModel, e: EnvModel, id: Seq<u8>, hand: Handsign)
    ensures
        join_step(s, e, id).result is Err ==> join_step(s, e, id).state == s,
        private_step(s, e, id).result is Err ==> private_step(s, e, id).state == s,
        play_step(s, e, id, hand).result is Err ==> play_step(s, e, id, hand).state == s,
        claim_step(s, e, id).result is Err ==> claim_step(s, e, id).state == s,
{
}

/// An accepted hand advances the round counter by exactly one when it
/// resolves the round (the opponent's hand was pending), and leaves
/// the round counter alone on a lone submission.
pub proof fn lemma_round_advances_only_on_resolution(
    s: StateModel,
    e: EnvModel,
    id: Seq<u8>,
    hand: Handsign,
)
    requires
        s.locators.dom().contains(id),
        s.games.dom().contains(s.locators[id].game),
        s.games[s.locators[id].game].round < u8::MAX,
        play_step(s, e, id, hand).result is Ok,
    ensures
        ({
            let gid = s.locators[id].game;
            let g = s.games[gid];
            let post = play_step(s, e, id, hand).state;
            let resolved = if e.sender == g.player1 {
                g.player2_handsign is Some
            } else {
                g.player1_handsign is Some
            };
            &&& post.games.dom().contains(gid)
            &&& (resolved ==> post.games[gid].round == g.round + 1)
            &&& (!resolved ==> post.games[gid].round == g.round)
        }),
{
}

/// Joining through the lobby keeps every existing game untouched, and
/// so keeps every finished game finished; well-formedness of the games
/// is preserved.
pub proof fn lemma_join_preserves_integrity(s: StateModel, e: EnvModel, id: Seq<u8>)
    requires
        games_wf(s),
        e.block_height <= u64::MAX - PLAYER_DEADLINE_BLOCKS,
    ensures
        games_wf(join_step(s, e, id).state),
        forall|k: Seq<u8>| #[trigger] s.games.dom().contains(k)
            ==> join_step(s, e, id).state.games.dom().contains(k)
                && join_step(s, e, id).state.games[k] == s.games[k],
{
}

/// Joining through a private token keeps every existing game
/// untouched, and so keeps every finished game finished;
/// well-formedness of the games is preserved.
pub proof fn lemma_private_preserves_integrity(s: StateModel, e: EnvModel, id: Seq<u8>)
    requires
        games_wf(s),
        e.block_height <= u64::MAX - PLAYER_DEADLINE_BLOCKS,
    ensures
        games_wf(private_step(s, e, id).state),
        forall|k: Seq<u8>| #[trigger] s.games.dom().contains(k)
            ==> private_step(s, e, id).state.games.dom().contains(k)
                && private_step(s, e, id).state.games[k] == s.games[k],
{
}

/// Submitting a hand preserves well-formedness of every game — in
/// particular no win counter ever passes the threshold — keeps every
/// stored game stored, and never clears a terminal flag.
pub proof fn lemma_play_preserves_integrity(s: StateModel, e: EnvModel, id: Seq<u8>, hand: Handsign)
    requires
        games_wf(s),
        e.block_height <= u64::MAX - PLAYER_DEADLINE_BLOCKS,
        forall|k: Seq<u8>| #[trigger] s.games.dom().contains(k) ==> s.games[k].round < u8::MAX,
    ensures
        games_wf(play_step(s, e, id, hand).state),
        forall|k: Seq<u8>| #[trigger] s.games.dom().contains(k)
            ==> play_step(s, e, id, hand).state.games.dom().contains(k)
                && (s.games[k].game_over ==> play_step(s, e, id, hand).state.games[k].game_over),
{
}

/// An inactivity claim preserves well-formedness of every game, keeps
/// every stored game stored, and never clears a terminal flag.
pub proof fn lemma_claim_preserves_integrity(s: StateModel, e: EnvModel, id: Seq<u8>)
    requires
        games_wf(s),
    ensures
        games_wf(claim_step(s, e, id).state),
        forall|k: Seq<u8>| #[trigger] s.games.dom().contains(k)
            ==> claim_step(s, e, id).state.games.dom().contains(k)
                && (s.games[k].game_over ==> claim_step(s, e, id).state.games[k].game_over),
{
}

/// Once a game is over, every further hand submission through any of
/// its locators fails with `GameOver` and changes nothing.
pub proof fn lemma_play_after_game_over_fails(s: StateModel, e: EnvModel, id: Seq<u8>, hand: Handsign)
    requires
        s.locators.dom().contains(id),
        s.games.dom().contains(s.locators[id].game),
        s.games[s.locators[id].game].game_over,
    ensures
        play_step(s, e, id, hand) == rejected(s, Error::GameOver),
{
}

/// An inactivity claim on a live game before the deadline has elapsed
/// always fails with `DeadlineNotReached` and changes nothing.
pub proof fn lemma_claim_under_deadline_fails(s: StateModel, e: EnvModel, id: Seq<u8>)
    requires
        s.locators.dom().contains(id),
        !s.locators[id].canceled,
        s.games.dom().contains(s.locators[id].game),
        !s.games[s.locators[id].game].game_over,
        e.block_height < s.games[s.locators[id].game].last_play_height + PLAYER_DEADLINE_BLOCKS,
    ensures
        claim_step(s, e, id) == rejected(s, Error::DeadlineNotReached),
{
}

/// At or after the deadline, an inactivity claim on a live game is
/// never turned away for the deadline's sake: it is decided by whether
/// the claimant has a hand pending.
pub proof fn lemma_claim_at_deadline_evaluable(s: StateModel, e: EnvModel, id: Seq<u8>)
    requires
        s.locators.dom().contains(id),
        !s.locators[id].canceled,
        s.games.dom().contains(s.locators[id].game),
        !s.games[s.locators[id].game].game_over,
        e.block_height >= s.games[s.locators[id].game].last_play_height + PLAYER_DEADLINE_BLOCKS,
    ensures
        claim_step(s, e, id).result != Err::<Option<PayoutModel>, Error>(
            Error::DeadlineNotReached,
        ),
{
}

/// A successful inactivity claim is terminal for its locator: a second
/// claim on the same locator, by anyone at any height, fails and
/// changes nothing — no double payout is possible.
pub proof fn lemma_no_second_claim(s: StateModel, e1: EnvModel, e2: EnvModel, id: Seq<u8>)
    requires
        claim_step(s, e1, id).result is Ok,
    ensures
        ({
            let s1 = claim_step(s, e1, id).state;
            &&& claim_step(s1, e2, id).result is Err
            &&& claim_step(s1, e2, id).state == s1
        }),
{
}

/// Every locator is stored under its own id, and a locator that points
/// away from its own token points at an existing game.
pub open spec fn locators_sound(s: StateModel) -> bool {
    forall|k: Seq<u8>| #[trigger] s.locators.dom().contains(k) ==> {
        let l = s.locators[k];
        l.id == k && (l.game == k || s.games.dom().contains(l.game))
    }
}

/// Every operation keeps the locators sound: a game is created in the
/// very call that points a locator away from its own token, and games
/// are never removed.
pub proof fn lemma_steps_keep_locators_sound(
    s: StateModel,
    e: EnvModel,
    id: Seq<u8>,
    hand: Handsign,
)
    requires
        locators_sound(s),
    ensures
        locators_sound(join_step(s, e, id).state),
        locators_sound(private_step(s, e, id).state),
        locators_sound(play_step(s, e, id, hand).state),
        locators_sound(claim_step(s, e, id).state),
{
}

} // verus!

