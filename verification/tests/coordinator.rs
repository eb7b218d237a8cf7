use game_session::{
    init, Command, GameSession, GameSessionAction, GameSessionEvent, GameSessionInit, GameStatus,
    HandleError, InitError, SessionStatus, WordleAction, WordleEvent,
};

const SELF_ID: u64 = 1;
const WORDLE_PROGRAM_ID: u64 = 2;
const USER: u64 = 3;

/// Make a freshly initialized coordinator.
fn fresh() -> GameSession {
    init(GameSessionInit {
        wordle_program_id: WORDLE_PROGRAM_ID,
    })
    .unwrap()
}

/// Drive one full `StartGame` exchange: request, acknowledgement from
/// the external service, and the woken request's completion.
/// `msg_id` doubles as the round's generation; `outbound_id` is the
/// identifier the host gives the outbound request.
fn start_round(g: &mut GameSession, msg_id: u64, outbound_id: u64) -> Vec<Command> {
    let cmds = g
        .handle(USER, SELF_ID, msg_id, outbound_id, GameSessionAction::StartGame)
        .unwrap();
    assert_eq!(
        cmds,
        vec![
            Command::SendToWordle(WordleAction::StartGame { user: USER }),
            Command::Suspend
        ]
    );
    let woken = g.handle_reply(outbound_id, WordleEvent::GameStarted { user: USER });
    assert_eq!(woken, vec![Command::Wake(msg_id)]);
    // the parked StartGame runs again and finds the reply waiting
    g.handle(USER, SELF_ID, msg_id, 0, GameSessionAction::StartGame)
        .unwrap()
}

/// Submit a guess and deliver its score, completing the woken request.
fn guess(
    g: &mut GameSession,
    word: &str,
    msg_id: u64,
    outbound_id: u64,
    correct_positions: Vec<u8>,
    contained_in_word: Vec<u8>,
) -> Vec<Command> {
    let cmds = g
        .handle(
            USER,
            SELF_ID,
            msg_id,
            outbound_id,
            GameSessionAction::CheckWord {
                word: word.to_string(),
            },
        )
        .unwrap();
    assert_eq!(
        cmds,
        vec![
            Command::SendToWordle(WordleAction::CheckWord {
                user: USER,
                word: word.to_string()
            }),
            Command::Suspend
        ]
    );
    let woken = g.handle_reply(
        outbound_id,
        WordleEvent::WordChecked {
            user: USER,
            correct_positions,
            contained_in_word,
        },
    );
    assert_eq!(woken, vec![Command::Wake(msg_id)]);
    g.handle(
        USER,
        SELF_ID,
        msg_id,
        0,
        GameSessionAction::CheckWord {
            word: word.to_string(),
        },
    )
    .unwrap()
}

#[test]
fn test_win() {
    let mut g = fresh();
    let cmds = start_round(&mut g, 100, 1000);
    assert_eq!(
        cmds,
        vec![
            Command::ScheduleTimeout {
                user: USER,
                session_id: 100,
                delay_blocks: 200
            },
            Command::Reply(GameSessionEvent::StartSuccess)
        ]
    );

    let cmds = guess(&mut g, "abcde", 101, 1001, vec![0, 1], vec![4]);
    assert_eq!(
        cmds,
        vec![Command::Reply(GameSessionEvent::CheckWordResult {
            correct_positions: vec![0, 1],
            contained_in_word: vec![4]
        })]
    );

    let cmds = guess(&mut g, "horse", 102, 1002, vec![0, 1, 2, 3, 4], vec![]);
    assert_eq!(
        cmds,
        vec![Command::Reply(GameSessionEvent::GameOver(GameStatus::Win))]
    );

    let state = g.state();
    println!("{:?}", state);
    assert_eq!(
        state.game_sessions[0].1.session_status,
        SessionStatus::GameOver(GameStatus::Win)
    );
    assert_eq!(state.game_sessions[0].1.tries, 2);
}

#[test]
fn test_lose_exceeded_tries_limit() {
    let mut g = fresh();
    start_round(&mut g, 100, 1000);

    for k in 0..5u64 {
        let cmds = guess(&mut g, "house", 101 + k, 1001 + k, vec![1, 3], vec![0]);
        if k < 4 {
            assert_eq!(
                cmds,
                vec![Command::Reply(GameSessionEvent::CheckWordResult {
                    correct_positions: vec![1, 3],
                    contained_in_word: vec![0]
                })]
            );
        } else {
            assert_eq!(
                cmds,
                vec![Command::Reply(GameSessionEvent::GameOver(GameStatus::Lose))]
            );
        }
    }

    let state = g.state();
    println!("{:?}", state);
    assert_eq!(
        state.game_sessions[0].1.session_status,
        SessionStatus::GameOver(GameStatus::Lose)
    );
    assert_eq!(state.game_sessions[0].1.tries, 5);
}

#[test]
fn test_lose_timeout() {
    let mut g = fresh();
    let cmds = start_round(&mut g, 100, 1000);
    assert!(cmds.contains(&Command::Reply(GameSessionEvent::StartSuccess)));

    // the armed watchdog message is delivered; nothing was guessed
    let cmds = g
        .handle(
            SELF_ID,
            SELF_ID,
            200,
            0,
            GameSessionAction::CheckGameStatus {
                user: USER,
                session_id: 100,
            },
        )
        .unwrap();
    assert_eq!(
        cmds,
        vec![Command::Notify {
            user: USER,
            event: GameSessionEvent::GameOver(GameStatus::Lose)
        }]
    );

    let state = g.state();
    println!("{:?}", state);
    assert_eq!(
        state.game_sessions[0].1.session_status,
        SessionStatus::GameOver(GameStatus::Lose)
    );
    assert_eq!(state.game_sessions[0].1.tries, 0);
}

#[test]
fn reject_guess_while_awaiting_round_start() {
    let mut g = fresh();
    g.handle(USER, SELF_ID, 100, 1000, GameSessionAction::StartGame)
        .unwrap();
    let r = g.handle(
        USER,
        SELF_ID,
        101,
        1001,
        GameSessionAction::CheckWord {
            word: "horse".to_string(),
        },
    );
    assert_eq!(r, Err(HandleError::NotInGame));
    let state = g.state();
    assert_eq!(
        state.game_sessions[0].1.session_status,
        SessionStatus::WaitWordleStartReply
    );
}

#[test]
fn reject_malformed_words() {
    let mut g = fresh();
    start_round(&mut g, 100, 1000);

    for bad in ["ABCDE", "ab", "abcdef", "abcd1", "ab de", ""] {
        let r = g.handle(
            USER,
            SELF_ID,
            101,
            1001,
            GameSessionAction::CheckWord {
                word: bad.to_string(),
            },
        );
        assert_eq!(r, Err(HandleError::InvalidWord));
    }
    let state = g.state();
    assert_eq!(
        state.game_sessions[0].1.session_status,
        SessionStatus::WaitUserInput
    );
    assert_eq!(state.game_sessions[0].1.tries, 0);
}

#[test]
fn reject_start_while_in_game() {
    let mut g = fresh();
    start_round(&mut g, 100, 1000);
    let r = g.handle(USER, SELF_ID, 103, 1003, GameSessionAction::StartGame);
    assert_eq!(r, Err(HandleError::AlreadyInGame));
}

#[test]
fn reject_guess_without_session() {
    let mut g = fresh();
    let r = g.handle(
        USER,
        SELF_ID,
        100,
        1000,
        GameSessionAction::CheckWord {
            word: "horse".to_string(),
        },
    );
    assert_eq!(r, Err(HandleError::NotInGame));
    assert!(g.state().game_sessions.is_empty());
}

#[test]
fn init_rejects_zero_service_identity() {
    let r = init(GameSessionInit {
        wordle_program_id: 0,
    });
    assert_eq!(r, Err(InitError::InvalidServiceId));
}

#[test]
fn stale_reply_is_dropped() {
    let mut g = fresh();
    g.handle(USER, SELF_ID, 100, 1000, GameSessionAction::StartGame)
        .unwrap();
    // wrong correlation identifier: nothing woken, nothing changed
    let woken = g.handle_reply(4242, WordleEvent::GameStarted { user: USER });
    assert!(woken.is_empty());
    assert_eq!(
        g.state().game_sessions[0].1.session_status,
        SessionStatus::WaitWordleStartReply
    );
    // reply for a player without a session: likewise dropped
    let woken = g.handle_reply(1000, WordleEvent::GameStarted { user: 77 });
    assert!(woken.is_empty());
}

#[test]
fn duplicate_reply_is_dropped() {
    let mut g = fresh();
    start_round(&mut g, 100, 1000);
    // the round started; its acknowledgement arrives a second time
    let woken = g.handle_reply(1000, WordleEvent::GameStarted { user: USER });
    assert!(woken.is_empty());
    assert_eq!(
        g.state().game_sessions[0].1.session_status,
        SessionStatus::WaitUserInput
    );
}

#[test]
fn stale_generation_timeout_is_dropped() {
    let mut g = fresh();
    start_round(&mut g, 100, 1000);
    let cmds = guess(&mut g, "horse", 101, 1001, vec![0, 1, 2, 3, 4], vec![]);
    assert_eq!(
        cmds,
        vec![Command::Reply(GameSessionEvent::GameOver(GameStatus::Win))]
    );
    // a new round begins: the generation is now 200
    g.handle(USER, SELF_ID, 200, 2000, GameSessionAction::StartGame)
        .unwrap();
    // the old round's watchdog fires with the stale generation
    let cmds = g
        .handle(
            SELF_ID,
            SELF_ID,
            300,
            0,
            GameSessionAction::CheckGameStatus {
                user: USER,
                session_id: 100,
            },
        )
        .unwrap();
    assert!(cmds.is_empty());
    assert_eq!(
        g.state().game_sessions[0].1.session_status,
        SessionStatus::WaitWordleStartReply
    );
}

#[test]
fn timeout_on_concluded_session_is_dropped() {
    let mut g = fresh();
    start_round(&mut g, 100, 1000);
    guess(&mut g, "horse", 101, 1001, vec![0, 1, 2, 3, 4], vec![]);
    let cmds = g
        .handle(
            SELF_ID,
            SELF_ID,
            300,
            0,
            GameSessionAction::CheckGameStatus {
                user: USER,
                session_id: 100,
            },
        )
        .unwrap();
    assert!(cmds.is_empty());
    assert_eq!(
        g.state().game_sessions[0].1.session_status,
        SessionStatus::GameOver(GameStatus::Win)
    );
}

#[test]
fn forged_watchdog_is_ignored() {
    let mut g = fresh();
    start_round(&mut g, 100, 1000);
    // an outsider sends the self-message: the sender check drops it
    let cmds = g
        .handle(
            USER,
            SELF_ID,
            300,
            0,
            GameSessionAction::CheckGameStatus {
                user: USER,
                session_id: 100,
            },
        )
        .unwrap();
    assert!(cmds.is_empty());
    assert_eq!(
        g.state().game_sessions[0].1.session_status,
        SessionStatus::WaitUserInput
    );
}

#[test]
fn restart_after_conclusion_resets_the_round() {
    let mut g = fresh();
    start_round(&mut g, 100, 1000);
    guess(&mut g, "horse", 101, 1001, vec![0, 1, 2, 3, 4], vec![]);
    assert_eq!(g.state().game_sessions[0].1.tries, 1);

    let cmds = g
        .handle(USER, SELF_ID, 200, 2000, GameSessionAction::StartGame)
        .unwrap();
    assert_eq!(
        cmds,
        vec![
            Command::SendToWordle(WordleAction::StartGame { user: USER }),
            Command::Suspend
        ]
    );
    let rec = g.state();
    let rec = &rec.game_sessions[0].1;
    assert_eq!(rec.session_status, SessionStatus::WaitWordleStartReply);
    assert_eq!(rec.tries, 0);
    assert_eq!(rec.session_id, 200);
}

#[test]
fn snapshot_reflects_every_session() {
    let mut g = fresh();
    start_round(&mut g, 100, 1000);
    let other: u64 = 9;
    g.handle(other, SELF_ID, 110, 1100, GameSessionAction::StartGame)
        .unwrap();

    let state = g.state();
    assert_eq!(state.game_sessions.len(), 2);
    assert_eq!(state.game_sessions[0].0, USER);
    assert_eq!(
        state.game_sessions[0].1.session_status,
        SessionStatus::WaitUserInput
    );
    assert_eq!(state.game_sessions[1].0, other);
    assert_eq!(
        state.game_sessions[1].1.session_status,
        SessionStatus::WaitWordleStartReply
    );
    // reading the state changes nothing
    assert_eq!(g.state(), state);
}

#[test]
fn word_format_rule() {
    assert!(game_session::check_word_format("horse"));
    assert!(!game_session::check_word_format("ABCDE"));
    assert!(!game_session::check_word_format("ab"));
    assert!(!game_session::check_word_format("abcdef"));
    assert!(!game_session::check_word_format("abcd1"));
}

#[test]
fn exact_match_detection() {
    let all = WordleEvent::WordChecked {
        user: USER,
        correct_positions: vec![0, 1, 2, 3, 4],
        contained_in_word: vec![],
    };
    assert!(all.has_guessed());
    let partial = WordleEvent::WordChecked {
        user: USER,
        correct_positions: vec![0, 1, 2, 3],
        contained_in_word: vec![4],
    };
    assert!(!partial.has_guessed());
    let started = WordleEvent::GameStarted { user: USER };
    assert!(!started.has_guessed());
}
