use hand_game::conf::{FUNDING_AMOUNT, PLAYER_DEADLINE_BLOCKS, WINS_TO_FINISH};
use hand_game::contract::{claim_inactivity, handle, init, query, Coin, Env, Error, QueryAnswer};
use hand_game::msg::{GameLobbyResponse, GameStatusResponse, HandleMsg, Handsign, InitMsg, QueryMsg};
use hand_game::state::State;

fn loc(n: u8) -> String {
    hex::encode(format!("player{} locator is 32 bytes long", n))
}

fn coins(amount: u128, denom: &str) -> Vec<Coin> {
    vec![Coin { denom: denom.to_string(), amount }]
}

fn mock_env(sender: &str, funds: Vec<Coin>) -> Env {
    Env {
        sender: sender.to_string(),
        block_height: 12_345,
        contract_address: "contract".to_string(),
        sent_funds: funds,
    }
}

fn lobby_of(state: &State, locator: String) -> GameLobbyResponse {
    match query(state, QueryMsg::GameLobby { locator }).unwrap() {
        QueryAnswer::GameLobby(v) => v,
        _ => panic!("expected a lobby answer"),
    }
}

fn status_of(state: &State, locator: String) -> GameStatusResponse {
    match query(state, QueryMsg::GameStatus { locator }).unwrap() {
        QueryAnswer::GameStatus(v) => v,
        _ => panic!("expected a status answer"),
    }
}

#[test]
fn proper_initialization() {
    let state = init(InitMsg {});
    assert!(state.lobby.is_none());
    assert_eq!(state.locators.len(), 0);
    assert_eq!(state.games.len(), 0);
}

#[test]
fn player_wins_round() {
    let mut state = init(InitMsg {});

    let env = mock_env("player1", coins(FUNDING_AMOUNT, "uscrt"));
    let msg = HandleMsg::JoinGame { locator: loc(1) };
    handle(&mut state, &env, msg).unwrap();

    let env = mock_env("player2", coins(FUNDING_AMOUNT, "uscrt"));
    let msg = HandleMsg::JoinGame { locator: loc(2) };
    handle(&mut state, &env, msg).unwrap();

    let env = mock_env("player1", coins(1000, "token"));
    let msg = HandleMsg::PlayHand { locator: loc(1), handsign: Handsign::ROCK };
    handle(&mut state, &env, msg).unwrap();

    let env = mock_env("player2", coins(2, "token"));
    let msg = HandleMsg::PlayHand { locator: loc(2), handsign: Handsign::PAPR };
    handle(&mut state, &env, msg).unwrap();

    let value = status_of(&state, loc(1));
    assert_eq!(0, value.player1_wins);
    assert_eq!(1, value.player2_wins);
    assert_eq!(false, value.game_over);
}

#[test]
fn player_win_payout() {
    let mut state = init(InitMsg {});

    let env = mock_env("player1", coins(FUNDING_AMOUNT, "uscrt"));
    let msg = HandleMsg::JoinGame { locator: loc(1) };
    handle(&mut state, &env, msg).unwrap();

    let env = mock_env("player2", coins(FUNDING_AMOUNT, "uscrt"));
    let msg = HandleMsg::JoinGame { locator: loc(2) };
    handle(&mut state, &env, msg).unwrap();

    for r in 0..WINS_TO_FINISH {
        let env = mock_env("player1", coins(1000, "token"));
        let msg = HandleMsg::PlayHand { locator: loc(1), handsign: Handsign::ROCK };
        handle(&mut state, &env, msg).unwrap();

        let env = mock_env("player2", coins(2, "token"));
        let msg = HandleMsg::PlayHand { locator: loc(2), handsign: Handsign::PAPR };
        let res = handle(&mut state, &env, msg).unwrap();
        if r == WINS_TO_FINISH - 1 {
            match &res.payout {
                Some(p) => {
                    assert_eq!(p.to_address.as_str(), "player2");
                    assert_eq!(p.denom, "uscrt");
                    assert_eq!(p.amount, FUNDING_AMOUNT * 2);
                }
                None => {
                    panic!("Expected payout for winner");
                }
            }
        } else {
            assert!(res.payout.is_none());
        }
    }

    let value = status_of(&state, loc(1));
    assert_eq!(0, value.player1_wins);
    assert_eq!(WINS_TO_FINISH, value.player2_wins);
    assert_eq!(true, value.game_over);
}

#[test]
fn game_takes_two_players() {
    let mut state = init(InitMsg {});

    let env = mock_env("player1", coins(FUNDING_AMOUNT, "uscrt"));
    let msg = HandleMsg::JoinGame { locator: loc(1) };
    handle(&mut state, &env, msg).unwrap();

    let env = mock_env("player2", coins(FUNDING_AMOUNT, "uscrt"));
    let msg = HandleMsg::JoinGame { locator: loc(2) };
    handle(&mut state, &env, msg).unwrap();

    let env = mock_env("player3", coins(FUNDING_AMOUNT, "uscrt"));
    let msg = HandleMsg::JoinGame { locator: loc(3) };
    let _res = handle(&mut state, &env, msg);

    let value = lobby_of(&state, loc(1));
    assert_eq!(true, value.game_started);
    assert_eq!(true, value.player1_locator);

    let value = lobby_of(&state, loc(2));
    assert_eq!(true, value.game_started);
    assert_eq!(false, value.player1_locator);

    let value = lobby_of(&state, loc(3));
    assert_eq!(false, value.game_started);
}

#[test]
fn private_game_matching() {
    let mut state = init(InitMsg {});

    let env = mock_env("player1", coins(FUNDING_AMOUNT, "uscrt"));
    let msg = HandleMsg::PrivateGame { locator: loc(5) };
    handle(&mut state, &env, msg).unwrap();

    // JoinGame shouldn't interfere
    let env = mock_env("player3", coins(FUNDING_AMOUNT, "uscrt"));
    let msg = HandleMsg::JoinGame { locator: loc(1) };
    handle(&mut state, &env, msg).unwrap();

    let env = mock_env("player2", coins(FUNDING_AMOUNT, "uscrt"));
    let msg = HandleMsg::PrivateGame { locator: loc(5) };
    handle(&mut state, &env, msg).unwrap();

    let env = mock_env("player1", coins(1000, "token"));
    let msg = HandleMsg::PlayHand { locator: loc(5), handsign: Handsign::ROCK };
    handle(&mut state, &env, msg).unwrap();

    let env = mock_env("player2", coins(2, "token"));
    let msg = HandleMsg::PlayHand { locator: loc(5), handsign: Handsign::PAPR };
    handle(&mut state, &env, msg).unwrap();

    let value = status_of(&state, loc(5));
    assert_eq!(0, value.player1_wins);
    assert_eq!(1, value.player2_wins);
    assert_eq!(false, value.game_over);
}

#[test]
fn claim_opponent_inactivity() {
    let mut state = init(InitMsg {});

    let env = mock_env("player1", coins(FUNDING_AMOUNT, "uscrt"));
    let msg = HandleMsg::JoinGame { locator: loc(1) };
    handle(&mut state, &env, msg).unwrap();

    let env = mock_env("player2", coins(FUNDING_AMOUNT, "uscrt"));
    let msg = HandleMsg::JoinGame { locator: loc(2) };
    handle(&mut state, &env, msg).unwrap();

    let env = mock_env("player1", coins(1000, "token"));
    let msg = HandleMsg::PlayHand { locator: loc(1), handsign: Handsign::ROCK };
    handle(&mut state, &env, msg).unwrap();

    let mut env = mock_env("player1", coins(1000, "token"));
    env.block_height += PLAYER_DEADLINE_BLOCKS - 1;
    let msg = HandleMsg::ClaimInactivity { locator: loc(1) };
    handle(&mut state, &env, msg).unwrap_err();

    let mut env = mock_env("player2", coins(1000, "token"));
    env.block_height += PLAYER_DEADLINE_BLOCKS;
    let msg = HandleMsg::ClaimInactivity { locator: loc(1) };
    handle(&mut state, &env, msg).unwrap_err();

    let mut env = mock_env("someone", coins(1000, "token"));
    env.block_height += PLAYER_DEADLINE_BLOCKS;
    let msg = HandleMsg::ClaimInactivity { locator: loc(1) };
    handle(&mut state, &env, msg).unwrap_err();

    let mut env = mock_env("player1", coins(1000, "token"));
    env.block_height += PLAYER_DEADLINE_BLOCKS;
    let msg = HandleMsg::ClaimInactivity { locator: loc(1) };
    let res = handle(&mut state, &env, msg).unwrap();

    match &res.payout {
        Some(p) => {
            assert_eq!(p.to_address.as_str(), "player1");
            assert_eq!(p.denom, "uscrt");
            assert_eq!(p.amount, FUNDING_AMOUNT * 2);
        }
        None => {
            panic!("Expected claim for inactivity");
        }
    }

    // Can't double claim
    let mut env = mock_env("player1", coins(1000, "token"));
    env.block_height += PLAYER_DEADLINE_BLOCKS;
    let msg = HandleMsg::ClaimInactivity { locator: loc(1) };
    handle(&mut state, &env, msg).unwrap_err();
}

#[test]
fn claim_lobby_inactivity() {
    let mut state = init(InitMsg {});

    let env = mock_env("player1", Vec::new());
    let msg = HandleMsg::ClaimInactivity { locator: loc(1) };
    handle(&mut state, &env, msg).unwrap_err();

    let env = mock_env("player1", coins(FUNDING_AMOUNT, "uscrt"));
    let msg = HandleMsg::JoinGame { locator: loc(1) };
    handle(&mut state, &env, msg).unwrap();

    let env = mock_env("player1", Vec::new());
    let msg = HandleMsg::ClaimInactivity { locator: loc(1) };
    let res = handle(&mut state, &env, msg).unwrap();

    match &res.payout {
        Some(p) => {
            assert_eq!(p.to_address.as_str(), "player1");
            assert_eq!(p.denom, "uscrt");
            assert_eq!(p.amount, FUNDING_AMOUNT);
        }
        None => {
            panic!("Expected claim for inactivity");
        }
    }

    // Can't double-claim
    let env = mock_env("player1", Vec::new());
    let msg = HandleMsg::ClaimInactivity { locator: loc(1) };
    handle(&mut state, &env, msg).unwrap_err();

    // Lobby becomes empty
    let env = mock_env("player2", coins(FUNDING_AMOUNT, "uscrt"));
    let msg = HandleMsg::JoinGame { locator: loc(2) };
    handle(&mut state, &env, msg).unwrap();

    let value = lobby_of(&state, loc(2));
    assert_eq!(false, value.game_started);
}

#[test]
fn claim_private_lobby_inactivity() {
    let mut state = init(InitMsg {});

    let env = mock_env("player1", coins(FUNDING_AMOUNT, "uscrt"));
    let msg = HandleMsg::PrivateGame { locator: loc(5) };
    handle(&mut state, &env, msg).unwrap();

    let env = mock_env("player1", Vec::new());
    let msg = HandleMsg::ClaimInactivity { locator: loc(5) };
    let res = handle(&mut state, &env, msg).unwrap();

    match &res.payout {
        Some(p) => {
            assert_eq!(p.to_address.as_str(), "player1");
            assert_eq!(p.denom, "uscrt");
            assert_eq!(p.amount, FUNDING_AMOUNT);
        }
        None => {
            panic!("Expected claim for inactivity");
        }
    }

    // Can't double-claim
    let env = mock_env("player1", Vec::new());
    let msg = HandleMsg::ClaimInactivity { locator: loc(5) };
    handle(&mut state, &env, msg).unwrap_err();

    // Lobby becomes non-joinable
    let env = mock_env("player2", coins(FUNDING_AMOUNT, "uscrt"));
    let msg = HandleMsg::PrivateGame { locator: loc(5) };
    handle(&mut state, &env, msg).unwrap_err();
}

#[test]
fn minimum_funding_required() {
    let mut state = init(InitMsg {});

    let env = mock_env("player1", coins(FUNDING_AMOUNT - 1, "uscrt"));
    let msg = HandleMsg::JoinGame { locator: loc(1) };
    handle(&mut state, &env, msg).unwrap_err();
}

// ---------------------------------------------------------------------
// Further coverage beyond the scenarios above.
// ---------------------------------------------------------------------

#[test]
fn beats_is_cyclic_and_exclusive() {
    let all = [Handsign::ROCK, Handsign::PAPR, Handsign::SCRS];
    // The three winning pairs.
    assert!(Handsign::PAPR.beats(Handsign::ROCK));
    assert!(Handsign::SCRS.beats(Handsign::PAPR));
    assert!(Handsign::ROCK.beats(Handsign::SCRS));
    // For every ordered pair exactly one of beats(a,b), beats(b,a),
    // a == b holds.
    for a in all {
        for b in all {
            let outcomes =
                [a.beats(b), b.beats(a), a == b].iter().filter(|x| **x).count();
            assert_eq!(outcomes, 1);
        }
    }
}

#[test]
fn resolved_round_clears_hands_and_advances() {
    let mut state = init(InitMsg {});

    let env = mock_env("player1", coins(FUNDING_AMOUNT, "uscrt"));
    handle(&mut state, &env, HandleMsg::JoinGame { locator: loc(1) }).unwrap();
    let env = mock_env("player2", coins(FUNDING_AMOUNT, "uscrt"));
    handle(&mut state, &env, HandleMsg::JoinGame { locator: loc(2) }).unwrap();

    // A lone submission does not advance the round.
    let env = mock_env("player1", Vec::new());
    let msg = HandleMsg::PlayHand { locator: loc(1), handsign: Handsign::ROCK };
    let res = handle(&mut state, &env, msg).unwrap();
    assert!(res.payout.is_none());
    let value = status_of(&state, loc(1));
    assert_eq!(1, value.round);
    assert_eq!(true, value.player1_played);
    assert_eq!(false, value.player2_played);

    // The answering hand resolves the round: winner counted, hands
    // cleared, round advanced, no payout yet.
    let env = mock_env("player2", Vec::new());
    let msg = HandleMsg::PlayHand { locator: loc(2), handsign: Handsign::PAPR };
    let res = handle(&mut state, &env, msg).unwrap();
    assert!(res.payout.is_none());
    let value = status_of(&state, loc(1));
    assert_eq!(2, value.round);
    assert_eq!(false, value.player1_played);
    assert_eq!(false, value.player2_played);
    assert_eq!(0, value.player1_wins);
    assert_eq!(1, value.player2_wins);
}

#[test]
fn tie_counts_no_win() {
    let mut state = init(InitMsg {});

    let env = mock_env("player1", coins(FUNDING_AMOUNT, "uscrt"));
    handle(&mut state, &env, HandleMsg::JoinGame { locator: loc(1) }).unwrap();
    let env = mock_env("player2", coins(FUNDING_AMOUNT, "uscrt"));
    handle(&mut state, &env, HandleMsg::JoinGame { locator: loc(2) }).unwrap();

    let env = mock_env("player1", Vec::new());
    handle(&mut state, &env, HandleMsg::PlayHand { locator: loc(1), handsign: Handsign::SCRS })
        .unwrap();
    let env = mock_env("player2", Vec::new());
    handle(&mut state, &env, HandleMsg::PlayHand { locator: loc(2), handsign: Handsign::SCRS })
        .unwrap();

    let value = status_of(&state, loc(1));
    assert_eq!(2, value.round);
    assert_eq!(0, value.player1_wins);
    assert_eq!(0, value.player2_wins);
    assert_eq!(false, value.game_over);
}

#[test]
fn malformed_locator_rejected() {
    let mut state = init(InitMsg {});

    let env = mock_env("player1", coins(FUNDING_AMOUNT, "uscrt"));
    let msg = HandleMsg::JoinGame { locator: "zz".to_string() };
    assert_eq!(handle(&mut state, &env, msg).unwrap_err(), Error::InvalidLocatorFormat);

    // 63 digits: one short of a token.
    let short: String = "a".repeat(63);
    let env = mock_env("player1", Vec::new());
    let msg = HandleMsg::PlayHand { locator: short, handsign: Handsign::ROCK };
    assert_eq!(handle(&mut state, &env, msg).unwrap_err(), Error::InvalidLocatorFormat);
}

#[test]
fn locator_decoding_is_case_insensitive() {
    let mut state = init(InitMsg {});

    // Join under the upper-cased spelling of the token...
    let env = mock_env("player1", coins(FUNDING_AMOUNT, "uscrt"));
    let msg = HandleMsg::JoinGame { locator: loc(1).to_uppercase() };
    handle(&mut state, &env, msg).unwrap();

    // ...and claim under the lower-cased one: both spell the same
    // 32 bytes, so the claim finds the waiting locator and refunds.
    let env = mock_env("player1", Vec::new());
    let msg = HandleMsg::ClaimInactivity { locator: loc(1) };
    let res = handle(&mut state, &env, msg).unwrap();
    assert_eq!(res.payout.unwrap().amount, FUNDING_AMOUNT);
}

#[test]
fn wrong_denom_rejected() {
    let mut state = init(InitMsg {});

    let env = mock_env("player1", coins(FUNDING_AMOUNT, "earth"));
    let msg = HandleMsg::JoinGame { locator: loc(1) };
    assert_eq!(handle(&mut state, &env, msg).unwrap_err(), Error::InsufficientFunds);

    let env = mock_env("player1", Vec::new());
    let msg = HandleMsg::PrivateGame { locator: loc(1) };
    assert_eq!(handle(&mut state, &env, msg).unwrap_err(), Error::InsufficientFunds);
}

#[test]
fn outsider_and_repeat_submissions_rejected() {
    let mut state = init(InitMsg {});

    let env = mock_env("player1", coins(FUNDING_AMOUNT, "uscrt"));
    handle(&mut state, &env, HandleMsg::JoinGame { locator: loc(1) }).unwrap();
    let env = mock_env("player2", coins(FUNDING_AMOUNT, "uscrt"));
    handle(&mut state, &env, HandleMsg::JoinGame { locator: loc(2) }).unwrap();

    let env = mock_env("someone", Vec::new());
    let msg = HandleMsg::PlayHand { locator: loc(1), handsign: Handsign::ROCK };
    assert_eq!(handle(&mut state, &env, msg).unwrap_err(), Error::NotAPlayer);

    let env = mock_env("player1", Vec::new());
    let msg = HandleMsg::PlayHand { locator: loc(1), handsign: Handsign::ROCK };
    handle(&mut state, &env, msg).unwrap();

    let env = mock_env("player1", Vec::new());
    let msg = HandleMsg::PlayHand { locator: loc(1), handsign: Handsign::PAPR };
    assert_eq!(handle(&mut state, &env, msg).unwrap_err(), Error::AlreadyPlayed);

    // An unknown token finds no locator.
    let env = mock_env("player1", Vec::new());
    let msg = HandleMsg::PlayHand { locator: loc(9), handsign: Handsign::ROCK };
    assert_eq!(handle(&mut state, &env, msg).unwrap_err(), Error::LocatorNotFound);
}

#[test]
fn waiting_locator_has_no_game() {
    let mut state = init(InitMsg {});

    let env = mock_env("player1", coins(FUNDING_AMOUNT, "uscrt"));
    handle(&mut state, &env, HandleMsg::PrivateGame { locator: loc(5) }).unwrap();

    // Nobody joined yet: the locator exists but its game does not.
    let env = mock_env("player1", Vec::new());
    let msg = HandleMsg::PlayHand { locator: loc(5), handsign: Handsign::ROCK };
    assert_eq!(handle(&mut state, &env, msg).unwrap_err(), Error::GameNotFound);
}

#[test]
fn third_party_cannot_rejoin_matched_token() {
    let mut state = init(InitMsg {});

    let env = mock_env("player1", coins(FUNDING_AMOUNT, "uscrt"));
    handle(&mut state, &env, HandleMsg::PrivateGame { locator: loc(5) }).unwrap();
    let env = mock_env("player2", coins(FUNDING_AMOUNT, "uscrt"));
    handle(&mut state, &env, HandleMsg::PrivateGame { locator: loc(5) }).unwrap();

    // The token is spent: a third stake cannot recreate the game.
    let env = mock_env("player3", coins(FUNDING_AMOUNT, "uscrt"));
    let msg = HandleMsg::PrivateGame { locator: loc(5) };
    assert_eq!(handle(&mut state, &env, msg).unwrap_err(), Error::AlreadyMatched);
}

#[test]
fn play_after_forfeit_fails_game_over() {
    let mut state = init(InitMsg {});

    let env = mock_env("player1", coins(FUNDING_AMOUNT, "uscrt"));
    handle(&mut state, &env, HandleMsg::JoinGame { locator: loc(1) }).unwrap();
    let env = mock_env("player2", coins(FUNDING_AMOUNT, "uscrt"));
    handle(&mut state, &env, HandleMsg::JoinGame { locator: loc(2) }).unwrap();

    let env = mock_env("player1", Vec::new());
    handle(&mut state, &env, HandleMsg::PlayHand { locator: loc(1), handsign: Handsign::ROCK })
        .unwrap();

    let mut env = mock_env("player1", Vec::new());
    env.block_height += PLAYER_DEADLINE_BLOCKS;
    handle(&mut state, &env, HandleMsg::ClaimInactivity { locator: loc(1) }).unwrap();

    let env = mock_env("player2", Vec::new());
    let msg = HandleMsg::PlayHand { locator: loc(2), handsign: Handsign::PAPR };
    assert_eq!(handle(&mut state, &env, msg).unwrap_err(), Error::GameOver);
}

#[test]
fn nothing_to_claim_without_pending_hand() {
    let mut state = init(InitMsg {});

    let env = mock_env("player1", coins(FUNDING_AMOUNT, "uscrt"));
    handle(&mut state, &env, HandleMsg::JoinGame { locator: loc(1) }).unwrap();
    let env = mock_env("player2", coins(FUNDING_AMOUNT, "uscrt"));
    handle(&mut state, &env, HandleMsg::JoinGame { locator: loc(2) }).unwrap();

    // Past the deadline but with no hand pending, nothing is owed.
    let mut env = mock_env("player1", Vec::new());
    env.block_height += PLAYER_DEADLINE_BLOCKS;
    let msg = HandleMsg::ClaimInactivity { locator: loc(1) };
    assert_eq!(handle(&mut state, &env, msg).unwrap_err(), Error::NothingToClaim);
}

#[test]
fn status_reports_exact_deadline() {
    let mut state = init(InitMsg {});

    let env = mock_env("player1", coins(FUNDING_AMOUNT, "uscrt"));
    handle(&mut state, &env, HandleMsg::JoinGame { locator: loc(1) }).unwrap();
    let env = mock_env("player2", coins(FUNDING_AMOUNT, "uscrt"));
    handle(&mut state, &env, HandleMsg::JoinGame { locator: loc(2) }).unwrap();

    let value = status_of(&state, loc(1));
    assert_eq!(value.deadline, 12_345 + PLAYER_DEADLINE_BLOCKS);
    assert_eq!(value.round, 1);

    // Direct calls work the same as dispatched ones.
    let env = mock_env("player1", Vec::new());
    let err = claim_inactivity(&mut state, &env, loc(1)).unwrap_err();
    assert_eq!(err, Error::DeadlineNotReached);
}
