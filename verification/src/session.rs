//! The coordinator: a session store and the state machine driving each
//! session through its round.

use vstd::prelude::*;

use crate::protocol::{
    check_word_format, copy_info, info_like, valid_word, ActorId, Command, GameSessionAction,
    GameSessionEvent, GameSessionInit, GameSessionState, GameStatus, HandleError, InitError,
    MessageId, SessionInfo, SessionStatus, WordleAction, WordleEvent, TIMEOUT_DELAY_BLOCKS,
    TRIES_LIMIT,
};

verus! {

/// The coordinator's whole state: the external service's identity and
/// one record per player that has ever started a game.
#[derive(Debug, PartialEq, Eq)]
pub struct GameSession {
    /// Identity of the external guess-checking service; never the zero
    /// identity, and immutable after initialization.
    pub wordle_program_id: ActorId,
    /// One entry per player, keys unique; entries are created on first
    /// `StartGame` and never removed.
    pub sessions: Vec<(ActorId, SessionInfo)>,
}

impl GameSession {
    /// Keys of the session store are pairwise distinct.
    pub open spec fn keys_unique(self) -> bool {
        forall|i: int, j: int|
            0 <= i < j < self.sessions@.len() ==> (#[trigger] self.sessions@[i]).0 != (
            #[trigger] self.sessions@[j]).0
    }

    /// Whether a record exists for this player.
    pub open spec fn spec_has(self, user: ActorId) -> bool {
        exists|i: int| 0 <= i < self.sessions@.len() && (#[trigger] self.sessions@[i]).0 == user
    }

    /// Index of this player's record (meaningful only when `spec_has`).
    pub open spec fn user_index(self, user: ActorId) -> int {
        choose|i: int| 0 <= i < self.sessions@.len() && (#[trigger] self.sessions@[i]).0 == user
    }

    /// This player's record (meaningful only when `spec_has`).
    pub open spec fn spec_get(self, user: ActorId) -> SessionInfo {
        self.sessions@[self.user_index(user)].1
    }

    /// Coordinator invariant: unique keys, a well-formed service
    /// identity, and every record well-formed.
    pub open spec fn wf(self) -> bool {
        &&& self.wordle_program_id != 0
        &&& self.keys_unique()
        &&& forall|i: int|
            0 <= i < self.sessions@.len() ==> wf_record((#[trigger] self.sessions@[i]).1)
    }

    /// A record found at an index is the record `spec_get` denotes.
    proof fn lemma_index_determines(self, user: ActorId, i: int)
        requires
            self.keys_unique(),
            0 <= i < self.sessions@.len(),
            self.sessions@[i].0 == user,
        ensures
            self.spec_has(user),
            self.user_index(user) == i,
            self.spec_get(user) == self.sessions@[i].1,
    {
        assert(self.spec_has(user));
        let j = self.user_index(user);
        if j != i {
            assert(self.sessions@[i].0 != self.sessions@[j].0);
        }
    }
}

/// A single session record is well-formed: the try count never passes
/// the limit, and reaches it only in a concluded game.
pub open spec fn wf_record(rec: SessionInfo) -> bool {
    &&& rec.tries <= TRIES_LIMIT
    &&& !(rec.session_status is GameOver) ==> rec.tries < TRIES_LIMIT
}

/// The record a player is handled under: the stored one, or a fresh
/// record if the player has never been seen.
pub open spec fn rec_or_default(s: GameSession, user: ActorId) -> SessionInfo {
    if s.spec_has(user) {
        s.spec_get(user)
    } else {
        SessionInfo::spec_initial()
    }
}

/// The store after a step: the player's record became `rec`, every
/// other player's record is untouched, and the service identity kept.
pub open spec fn store_updated(
    pre: GameSession,
    post: GameSession,
    user: ActorId,
    rec: SessionInfo,
) -> bool {
    &&& post.wordle_program_id == pre.wordle_program_id
    &&& post.spec_has(user)
    &&& post.spec_get(user) == rec
    &&& forall|v: ActorId| v != user ==> (post.spec_has(v) <==> pre.spec_has(v))
    &&& forall|v: ActorId|
        v != user && pre.spec_has(v) ==> post.spec_get(v) == pre.spec_get(v)
}

/// The store is unchanged: same service identity, same entries.
pub open spec fn store_unchanged(pre: GameSession, post: GameSession) -> bool {
    post.wordle_program_id == pre.wordle_program_id && post.sessions@ == pre.sessions@
}

/// What `StartGame` decides, given the player's current record and the
/// identifiers of the inbound message and of the outbound request the
/// host would assign.
pub open spec fn start_step(
    rec: SessionInfo,
    user: ActorId,
    msg_id: MessageId,
    outbound_id: MessageId,
) -> Result<(SessionInfo, Seq<Command>), HandleError> {
    if rec.session_status.spec_startable() {
        Ok(
            (
                SessionInfo {
                    session_id: msg_id,
                    original_msg_id: msg_id,
                    send_to_wordle_msg_id: outbound_id,
                    tries: 0,
                    session_status: SessionStatus::WaitWordleStartReply,
                },
                seq![
                    Command::SendToWordle(WordleAction::StartGame { user }),
                    Command::Suspend,
                ],
            ),
        )
    } else if rec.session_status is ReplyReceived {
        // The acknowledgement already arrived while this request was
        // completing: no second request, arm the watchdog and answer.
        Ok(
            (
                SessionInfo {
                    session_id: rec.session_id,
                    original_msg_id: rec.original_msg_id,
                    send_to_wordle_msg_id: rec.send_to_wordle_msg_id,
                    tries: rec.tries,
                    session_status: SessionStatus::WaitUserInput,
                },
                seq![
                    Command::ScheduleTimeout {
                        user,
                        session_id: msg_id,
                        delay_blocks: TIMEOUT_DELAY_BLOCKS,
                    },
                    Command::Reply(GameSessionEvent::StartSuccess),
                ],
            ),
        )
    } else {
        Err(HandleError::AlreadyInGame)
    }
}

/// What `CheckWord` decides, given the player's current record.
pub open spec fn check_word_step(
    rec: SessionInfo,
    user: ActorId,
    word: String,
    msg_id: MessageId,
    outbound_id: MessageId,
) -> Result<(SessionInfo, Seq<Command>), HandleError> {
    match rec.session_status {
        SessionStatus::ReplyReceived(ev) => {
            let tries2 = (rec.tries + 1) as u8;
            if ev.spec_has_guessed() {
                Ok(
                    (
                        SessionInfo {
                            session_id: rec.session_id,
                            original_msg_id: rec.original_msg_id,
                            send_to_wordle_msg_id: rec.send_to_wordle_msg_id,
                            tries: tries2,
                            session_status: SessionStatus::GameOver(GameStatus::Win),
                        },
                        seq![Command::Reply(GameSessionEvent::GameOver(GameStatus::Win))],
                    ),
                )
            } else if tries2 == TRIES_LIMIT {
                Ok(
                    (
                        SessionInfo {
                            session_id: rec.session_id,
                            original_msg_id: rec.original_msg_id,
                            send_to_wordle_msg_id: rec.send_to_wordle_msg_id,
                            tries: tries2,
                            session_status: SessionStatus::GameOver(GameStatus::Lose),
                        },
                        seq![Command::Reply(GameSessionEvent::GameOver(GameStatus::Lose))],
                    ),
                )
            } else {
                Ok(
                    (
                        SessionInfo {
                            session_id: rec.session_id,
                            original_msg_id: rec.original_msg_id,
                            send_to_wordle_msg_id: rec.send_to_wordle_msg_id,
                            tries: tries2,
                            session_status: SessionStatus::WaitUserInput,
                        },
                        seq![Command::Reply(ev.spec_to_session_event())],
                    ),
                )
            }
        },
        SessionStatus::WaitUserInput => {
            if !valid_word(word@) {
                Err(HandleError::InvalidWord)
            } else {
                Ok(
                    (
                        SessionInfo {
                            session_id: rec.session_id,
                            original_msg_id: msg_id,
                            send_to_wordle_msg_id: outbound_id,
                            tries: rec.tries,
                            session_status: SessionStatus::WaitWordleCheckWordReply,
                        },
                        seq![
                            Command::SendToWordle(WordleAction::CheckWord { user, word }),
                            Command::Suspend,
                        ],
                    ),
                )
            }
        },
        _ => Err(HandleError::NotInGame),
    }
}

/// What a watchdog `CheckGameStatus` decides, given the player's
/// current record: a stale generation or a concluded game is a no-op.
pub open spec fn check_status_step(
    rec: SessionInfo,
    user: ActorId,
    session_id: MessageId,
) -> (SessionInfo, Seq<Command>) {
    if session_id == rec.session_id && !(rec.session_status is GameOver) {
        (
            SessionInfo {
                session_id: rec.session_id,
                original_msg_id: rec.original_msg_id,
                send_to_wordle_msg_id: rec.send_to_wordle_msg_id,
                tries: rec.tries,
                session_status: SessionStatus::GameOver(GameStatus::Lose),
            },
            seq![
                Command::Notify {
                    user,
                    event: GameSessionEvent::GameOver(GameStatus::Lose),
                },
            ],
        )
    } else {
        (rec, Seq::empty())
    }
}

/// What an external reply decides, given the player's current record: a
/// reply that does not correlate to the outstanding request, or arrives
/// in a phase that awaits none, is dropped.
pub open spec fn reply_step(
    rec: SessionInfo,
    reply_to: MessageId,
    event: WordleEvent,
) -> (SessionInfo, Seq<Command>) {
    if reply_to == rec.send_to_wordle_msg_id && rec.spec_is_wait_reply_status() {
        (
            SessionInfo {
                session_id: rec.session_id,
                original_msg_id: rec.original_msg_id,
                send_to_wordle_msg_id: rec.send_to_wordle_msg_id,
                tries: rec.tries,
                session_status: SessionStatus::ReplyReceived(event),
            },
            seq![Command::Wake(rec.original_msg_id)],
        )
    } else {
        (rec, Seq::empty())
    }
}

/// After writing `(user, rec)` over the entry that already held `user`,
/// the store relates to its old value as `store_updated` says.
proof fn lemma_store_update(
    pre: GameSession,
    post: GameSession,
    i: int,
    user: ActorId,
    rec: SessionInfo,
)
    requires
        pre.wf(),
        wf_record(rec),
        0 <= i < pre.sessions@.len(),
        pre.sessions@[i].0 == user,
        post.sessions@ == pre.sessions@.update(i, (user, rec)),
        post.wordle_program_id == pre.wordle_program_id,
    ensures
        post.wf(),
        store_updated(pre, post, user, rec),
{
    assert(forall|k: int|
        0 <= k < post.sessions@.len() ==> (#[trigger] post.sessions@[k]).0 == pre.sessions@[k].0);
    assert(post.keys_unique());
    assert(forall|k: int|
        0 <= k < post.sessions@.len() ==> wf_record((#[trigger] post.sessions@[k]).1));
    post.lemma_index_determines(user, i);
    assert forall|v: ActorId| v != user && pre.spec_has(v) implies post.spec_has(v)
        && post.spec_get(v) == pre.spec_get(v) by {
        let j = choose|j: int|
            0 <= j < pre.sessions@.len() && (#[trigger] pre.sessions@[j]).0 == v;
        pre.lemma_index_determines(v, j);
        assert(post.sessions@[j].0 == v);
        post.lemma_index_determines(v, j);
    }
    assert forall|v: ActorId| v != user && post.spec_has(v) implies pre.spec_has(v) by {
        let j = choose|j: int|
            0 <= j < post.sessions@.len() && (#[trigger] post.sessions@[j]).0 == v;
        assert(pre.sessions@[j].0 == v);
    }
}

/// After pushing `(user, rec)` for a player the store did not hold, the
/// store relates to its old value as `store_updated` says.
proof fn lemma_store_push(pre: GameSession, post: GameSession, user: ActorId, rec: SessionInfo)
    requires
        pre.wf(),
        wf_record(rec),
        !pre.spec_has(user),
        post.sessions@ == pre.sessions@.push((user, rec)),
        post.wordle_program_id == pre.wordle_program_id,
    ensures
        post.wf(),
        store_updated(pre, post, user, rec),
{
    let n = pre.sessions@.len() as int;
    assert(forall|k: int|
        0 <= k < n ==> (#[trigger] post.sessions@[k]) == pre.sessions@[k]);
    assert(forall|k: int|
        0 <= k < n ==> (#[trigger] pre.sessions@[k]).0 != user);
    assert(post.sessions@[n].0 == user);
    assert(post.keys_unique());
    assert(forall|k: int|
        0 <= k < post.sessions@.len() ==> wf_record((#[trigger] post.sessions@[k]).1));
    post.lemma_index_determines(user, n);
    assert forall|v: ActorId| v != user && pre.spec_has(v) implies post.spec_has(v)
        && post.spec_get(v) == pre.spec_get(v) by {
        let j = choose|j: int|
            0 <= j < pre.sessions@.len() && (#[trigger] pre.sessions@[j]).0 == v;
        pre.lemma_index_determines(v, j);
        assert(post.sessions@[j].0 == v);
        post.lemma_index_determines(v, j);
    }
    assert forall|v: ActorId| v != user && post.spec_has(v) implies pre.spec_has(v) by {
        let j = choose|j: int|
            0 <= j < post.sessions@.len() && (#[trigger] post.sessions@[j]).0 == v;
        assert(j < n && pre.sessions@[j].0 == v);
    }
}

impl GameSession {
    /// Index of the player's entry, if one exists.
    fn find_user(&self, user: ActorId) -> (r: Option<usize>)
        ensures
            match r {
                Some(i) => i < self.sessions@.len() && self.sessions@[i as int].0 == user,
                None => !self.spec_has(user),
            },
    {
        let n = self.sessions.len();
        let mut i: usize = 0;
        while i < n
            invariant
                n == self.sessions@.len(),
                i <= n,
                forall|j: int| 0 <= j < i ==> (#[trigger] self.sessions@[j]).0 != user,
            decreases n - i,
        {
            if self.sessions[i].0 == user {
                return Some(i);
            }
            i += 1;
        }
        None
    }

    /// Overwrite the entry at a known index.
    fn update_record(&mut self, i: usize, user: ActorId, rec: SessionInfo)
        requires
            i < old(self).sessions@.len(),
        ensures
            final(self).sessions@ == old(self).sessions@.update(i as int, (user, rec)),
            final(self).wordle_program_id == old(self).wordle_program_id,
    {
        self.sessions[i] = (user, rec);
    }
}

/// Full contract of `StartGame`: the decision is `start_step` on the
/// player's record, committed to the store on success and rolled back
/// to nothing on failure.
pub open spec fn start_game_post(
    pre: GameSession,
    post: GameSession,
    user: ActorId,
    msg_id: MessageId,
    outbound_id: MessageId,
    r: Result<Vec<Command>, HandleError>,
) -> bool {
    match start_step(rec_or_default(pre, user), user, msg_id, outbound_id) {
        Ok(step) => {
            &&& r matches Ok(c) && c@ == step.1
            &&& store_updated(pre, post, user, step.0)
        },
        Err(e) => r matches Err(e2) && e2 == e && store_unchanged(pre, post),
    }
}

impl GameSession {
    /// A player asks to start a new round.
    ///
    /// `msg_id` is the identifier the host gave the inbound request
    /// (when a parked request is woken it runs again under its original
    /// identifier); `outbound_id` is the identifier the host will give
    /// the outbound request if a `SendToWordle` command is returned.
    pub fn start_game(&mut self, user: ActorId, msg_id: MessageId, outbound_id: MessageId) -> (r:
        Result<Vec<Command>, HandleError>)
        requires
            old(self).wf(),
        ensures
            final(self).wf(),
            start_game_post(*old(self), *final(self), user, msg_id, outbound_id, r),
    {
        match self.find_user(user) {
            Some(i) => {
                proof {
                    self.lemma_index_determines(user, i as int);
                }
                let startable = self.sessions[i].1.session_status.startable();
                if startable {
                    let rec2 = SessionInfo {
                        session_id: msg_id,
                        original_msg_id: msg_id,
                        send_to_wordle_msg_id: outbound_id,
                        tries: 0,
                        session_status: SessionStatus::WaitWordleStartReply,
                    };
                    let ghost grec = rec2;
                    let ghost pre = *self;
                    self.update_record(i, user, rec2);
                    proof {
                        lemma_store_update(pre, *self, i as int, user, grec);
                    }
                    let mut cmds: Vec<Command> = Vec::new();
                    cmds.push(Command::SendToWordle(WordleAction::StartGame { user }));
                    cmds.push(Command::Suspend);
                    proof {
                        assert(cmds@ =~= start_step(
                            rec_or_default(pre, user),
                            user,
                            msg_id,
                            outbound_id,
                        )->Ok_0.1);
                    }
                    Ok(cmds)
                } else if self.sessions[i].1.session_status.is_reply_received() {
                    let rec = &self.sessions[i].1;
                    let rec2 = SessionInfo {
                        session_id: rec.session_id,
                        original_msg_id: rec.original_msg_id,
                        send_to_wordle_msg_id: rec.send_to_wordle_msg_id,
                        tries: rec.tries,
                        session_status: SessionStatus::WaitUserInput,
                    };
                    let ghost grec = rec2;
                    let ghost pre = *self;
                    self.update_record(i, user, rec2);
                    proof {
                        lemma_store_update(pre, *self, i as int, user, grec);
                    }
                    let mut cmds: Vec<Command> = Vec::new();
                    cmds.push(
                        Command::ScheduleTimeout {
                            user,
                            session_id: msg_id,
                            delay_blocks: TIMEOUT_DELAY_BLOCKS,
                        },
                    );
                    cmds.push(Command::Reply(GameSessionEvent::StartSuccess));
                    proof {
                        assert(cmds@ =~= start_step(
                            rec_or_default(pre, user),
                            user,
                            msg_id,
                            outbound_id,
                        )->Ok_0.1);
                    }
                    Ok(cmds)
                } else {
                    Err(HandleError::AlreadyInGame)
                }
            },
            None => {
                let rec2 = SessionInfo {
                    session_id: msg_id,
                    original_msg_id: msg_id,
                    send_to_wordle_msg_id: outbound_id,
                    tries: 0,
                    session_status: SessionStatus::WaitWordleStartReply,
                };
                let ghost grec = rec2;
                let ghost pre = *self;
                self.sessions.push((user, rec2));
                proof {
                    lemma_store_push(pre, *self, user, grec);
                }
                let mut cmds: Vec<Command> = Vec::new();
                cmds.push(Command::SendToWordle(WordleAction::StartGame { user }));
                cmds.push(Command::Suspend);
                proof {
                    assert(cmds@ =~= start_step(
                        rec_or_default(pre, user),
                        user,
                        msg_id,
                        outbound_id,
                    )->Ok_0.1);
                }
                Ok(cmds)
            },
        }
    }
}

/// Taking an entry out and putting another back at the same place is an
/// update of that place.
proof fn lemma_remove_insert_is_update<T>(s: Seq<T>, i: int, v: T)
    requires
        0 <= i < s.len(),
    ensures
        s.remove(i).insert(i, v) =~= s.update(i, v),
{
}

/// Full contract of `CheckWord`: the decision is `check_word_step` on
/// the player's record, committed on success, rolled back on failure.
pub open spec fn check_word_post(
    pre: GameSession,
    post: GameSession,
    user: ActorId,
    word: String,
    msg_id: MessageId,
    outbound_id: MessageId,
    r: Result<Vec<Command>, HandleError>,
) -> bool {
    match check_word_step(rec_or_default(pre, user), user, word, msg_id, outbound_id) {
        Ok(step) => {
            &&& r matches Ok(c) && c@ == step.1
            &&& store_updated(pre, post, user, step.0)
        },
        Err(e) => r matches Err(e2) && e2 == e && store_unchanged(pre, post),
    }
}

impl GameSession {
    /// A player submits a guess (or a woken `CheckWord` consumes the
    /// reply that arrived for it).
    pub fn check_word(
        &mut self,
        user: ActorId,
        word: String,
        msg_id: MessageId,
        outbound_id: MessageId,
    ) -> (r: Result<Vec<Command>, HandleError>)
        requires
            old(self).wf(),
        ensures
            final(self).wf(),
            check_word_post(*old(self), *final(self), user, word, msg_id, outbound_id, r),
    {
        let i = match self.find_user(user) {
            Some(i) => i,
            None => {
                return Err(HandleError::NotInGame);
            },
        };
        proof {
            self.lemma_index_determines(user, i as int);
        }
        let ghost pre = *self;
        if self.sessions[i].1.session_status.is_reply_received() {
            // Take the record out so the stored reply can be consumed.
            let entry = self.sessions.remove(i);
            let SessionInfo {
                session_id,
                original_msg_id,
                send_to_wordle_msg_id,
                tries,
                session_status,
            } = entry.1;
            let tries2 = tries + 1;
            match session_status {
                SessionStatus::ReplyReceived(ev) => {
                    let won = ev.has_guessed();
                    let (rec2, reply) = if won {
                        (
                            SessionInfo {
                                session_id,
                                original_msg_id,
                                send_to_wordle_msg_id,
                                tries: tries2,
                                session_status: SessionStatus::GameOver(GameStatus::Win),
                            },
                            GameSessionEvent::GameOver(GameStatus::Win),
                        )
                    } else if tries2 == TRIES_LIMIT {
                        (
                            SessionInfo {
                                session_id,
                                original_msg_id,
                                send_to_wordle_msg_id,
                                tries: tries2,
                                session_status: SessionStatus::GameOver(GameStatus::Lose),
                            },
                            GameSessionEvent::GameOver(GameStatus::Lose),
                        )
                    } else {
                        (
                            SessionInfo {
                                session_id,
                                original_msg_id,
                                send_to_wordle_msg_id,
                                tries: tries2,
                                session_status: SessionStatus::WaitUserInput,
                            },
                            ev.into_session_event(),
                        )
                    };
                    let ghost grec = rec2;
                    self.sessions.insert(i, (user, rec2));
                    proof {
                        lemma_remove_insert_is_update(pre.sessions@, i as int, (user, grec));
                        lemma_store_update(pre, *self, i as int, user, grec);
                    }
                    let mut cmds: Vec<Command> = Vec::new();
                    cmds.push(Command::Reply(reply));
                    proof {
                        assert(cmds@ =~= check_word_step(
                            rec_or_default(pre, user),
                            user,
                            word,
                            msg_id,
                            outbound_id,
                        )->Ok_0.1);
                    }
                    Ok(cmds)
                },
                _ => {
                    // The branch guard saw `ReplyReceived`; this arm
                    // only satisfies the compiler's totality check.
                    proof {
                        assert(false);
                    }
                    Err(HandleError::NotInGame)
                },
            }
        } else if self.sessions[i].1.session_status.is_wait_user_input() {
            if !check_word_format(word.as_str()) {
                return Err(HandleError::InvalidWord);
            }
            let rec = &self.sessions[i].1;
            let rec2 = SessionInfo {
                session_id: rec.session_id,
                original_msg_id: msg_id,
                send_to_wordle_msg_id: outbound_id,
                tries: rec.tries,
                session_status: SessionStatus::WaitWordleCheckWordReply,
            };
            let ghost grec = rec2;
            self.update_record(i, user, rec2);
            proof {
                lemma_store_update(pre, *self, i as int, user, grec);
            }
            let mut cmds: Vec<Command> = Vec::new();
            cmds.push(Command::SendToWordle(WordleAction::CheckWord { user, word }));
            cmds.push(Command::Suspend);
            proof {
                assert(cmds@ =~= check_word_step(
                    rec_or_default(pre, user),
                    user,
                    word,
                    msg_id,
                    outbound_id,
                )->Ok_0.1);
            }
            Ok(cmds)
        } else {
            Err(HandleError::NotInGame)
        }
    }
}

/// Full contract of a watchdog `CheckGameStatus` that passed the
/// sender check: `check_status_step` on the player's record; a player
/// without a record is a no-op.
pub open spec fn check_status_post(
    pre: GameSession,
    post: GameSession,
    user: ActorId,
    session_id: MessageId,
    r: Seq<Command>,
) -> bool {
    if pre.spec_has(user) {
        let step = check_status_step(pre.spec_get(user), user, session_id);
        r == step.1 && store_updated(pre, post, user, step.0)
    } else {
        r == Seq::<Command>::empty() && store_unchanged(pre, post)
    }
}

/// Full contract of an external reply: `reply_step` on the record of
/// the player the reply names; a player without a record is a no-op.
pub open spec fn reply_post(
    pre: GameSession,
    post: GameSession,
    reply_to: MessageId,
    event: WordleEvent,
    r: Seq<Command>,
) -> bool {
    if pre.spec_has(event.spec_user()) {
        let step = reply_step(pre.spec_get(event.spec_user()), reply_to, event);
        r == step.1 && store_updated(pre, post, event.spec_user(), step.0)
    } else {
        r == Seq::<Command>::empty() && store_unchanged(pre, post)
    }
}

/// Full contract of the inbound dispatcher: by sender and payload, one
/// of the three decisions above; a watchdog message whose sender is not
/// the coordinator itself is dropped.
pub open spec fn handle_post(
    pre: GameSession,
    post: GameSession,
    source: ActorId,
    self_id: ActorId,
    msg_id: MessageId,
    outbound_id: MessageId,
    action: GameSessionAction,
    r: Result<Vec<Command>, HandleError>,
) -> bool {
    match action {
        GameSessionAction::StartGame => start_game_post(pre, post, source, msg_id, outbound_id, r),
        GameSessionAction::CheckWord { word } => {
            check_word_post(pre, post, source, word, msg_id, outbound_id, r)
        },
        GameSessionAction::CheckGameStatus { user, session_id } => {
            if source == self_id {
                r matches Ok(c) && check_status_post(pre, post, user, session_id, c@)
            } else {
                r matches Ok(c) && c@ == Seq::<Command>::empty() && store_unchanged(pre, post)
            }
        },
    }
}

impl GameSession {
    /// The watchdog's delayed self-message: forces a loss if the round
    /// it was armed for is still the current one and not yet concluded.
    pub fn check_game_status(&mut self, user: ActorId, session_id: MessageId) -> (r: Vec<Command>)
        requires
            old(self).wf(),
        ensures
            final(self).wf(),
            check_status_post(*old(self), *final(self), user, session_id, r@),
    {
        match self.find_user(user) {
            None => Vec::new(),
            Some(i) => {
                proof {
                    self.lemma_index_determines(user, i as int);
                }
                let ghost pre = *self;
                let stale = session_id != self.sessions[i].1.session_id;
                let over = self.sessions[i].1.session_status.is_game_over();
                if stale || over {
                    Vec::new()
                } else {
                    let rec = &self.sessions[i].1;
                    let rec2 = SessionInfo {
                        session_id: rec.session_id,
                        original_msg_id: rec.original_msg_id,
                        send_to_wordle_msg_id: rec.send_to_wordle_msg_id,
                        tries: rec.tries,
                        session_status: SessionStatus::GameOver(GameStatus::Lose),
                    };
                    let ghost grec = rec2;
                    self.update_record(i, user, rec2);
                    proof {
                        lemma_store_update(pre, *self, i as int, user, grec);
                    }
                    let mut cmds: Vec<Command> = Vec::new();
                    cmds.push(
                        Command::Notify { user, event: GameSessionEvent::GameOver(GameStatus::Lose) },
                    );
                    proof {
                        assert(cmds@ =~= check_status_step(pre.spec_get(user), user, session_id).1);
                    }
                    cmds
                }
            },
        }
    }

    /// A reply from the external service arrived: if it correlates to
    /// the outstanding request of the player it names, store it and
    /// wake the parked inbound request; otherwise drop it.
    pub fn handle_reply(&mut self, reply_to: MessageId, event: WordleEvent) -> (r: Vec<Command>)
        requires
            old(self).wf(),
        ensures
            final(self).wf(),
            reply_post(*old(self), *final(self), reply_to, event, r@),
    {
        let user = event.get_user();
        match self.find_user(user) {
            None => Vec::new(),
            Some(i) => {
                proof {
                    self.lemma_index_determines(user, i as int);
                }
                let ghost pre = *self;
                let matched = reply_to == self.sessions[i].1.send_to_wordle_msg_id
                    && self.sessions[i].1.is_wait_reply_status();
                if matched {
                    let rec = &self.sessions[i].1;
                    let wake_id = rec.original_msg_id;
                    let rec2 = SessionInfo {
                        session_id: rec.session_id,
                        original_msg_id: rec.original_msg_id,
                        send_to_wordle_msg_id: rec.send_to_wordle_msg_id,
                        tries: rec.tries,
                        session_status: SessionStatus::ReplyReceived(event),
                    };
                    let ghost grec = rec2;
                    self.update_record(i, user, rec2);
                    proof {
                        lemma_store_update(pre, *self, i as int, user, grec);
                    }
                    let mut cmds: Vec<Command> = Vec::new();
                    cmds.push(Command::Wake(wake_id));
                    proof {
                        assert(cmds@ =~= reply_step(pre.spec_get(user), reply_to, event).1);
                    }
                    cmds
                } else {
                    Vec::new()
                }
            },
        }
    }

    /// The inbound dispatcher: every request a player (or the watchdog)
    /// sends the coordinator enters here.
    ///
    /// `source` is the sender's identity, `self_id` the coordinator's
    /// own (to tell genuine watchdog self-messages from forgeries),
    /// `msg_id` the identifier the host gave the inbound request, and
    /// `outbound_id` the identifier the host will give the outbound
    /// request if a `SendToWordle` command is returned.
    pub fn handle(
        &mut self,
        source: ActorId,
        self_id: ActorId,
        msg_id: MessageId,
        outbound_id: MessageId,
        action: GameSessionAction,
    ) -> (r: Result<Vec<Command>, HandleError>)
        requires
            old(self).wf(),
        ensures
            final(self).wf(),
            handle_post(*old(self), *final(self), source, self_id, msg_id, outbound_id, action, r),
    {
        match action {
            GameSessionAction::StartGame => self.start_game(source, msg_id, outbound_id),
            GameSessionAction::CheckWord { word } => {
                self.check_word(source, word, msg_id, outbound_id)
            },
            GameSessionAction::CheckGameStatus { user, session_id } => {
                if source == self_id {
                    Ok(self.check_game_status(user, session_id))
                } else {
                    // Forged watchdog message: only the coordinator
                    // itself may deliver one.
                    Ok(Vec::new())
                }
            },
        }
    }

    /// Read-only snapshot of every session, equal in contents to the
    /// store; mutates nothing.
    pub fn state(&self) -> (r: GameSessionState)
        ensures
            r.game_sessions@.len() == self.sessions@.len(),
            forall|i: int|
                0 <= i < self.sessions@.len() ==> (#[trigger] r.game_sessions@[i]).0
                    == self.sessions@[i].0 && info_like(r.game_sessions@[i].1, self.sessions@[i].1),
    {
        let n = self.sessions.len();
        let mut out: Vec<(ActorId, SessionInfo)> = Vec::new();
        let mut i: usize = 0;
        while i < n
            invariant
                n == self.sessions@.len(),
                i <= n,
                out@.len() == i,
                forall|j: int|
                    0 <= j < i ==> (#[trigger] out@[j]).0 == self.sessions@[j].0
                        && info_like(out@[j].1, self.sessions@[j].1),
            decreases n - i,
        {
            let user = self.sessions[i].0;
            let rec = copy_info(&self.sessions[i].1);
            out.push((user, rec));
            i += 1;
        }
        GameSessionState { game_sessions: out }
    }
}

/// One-time bootstrap: validates the external service's identity and
/// starts with an empty session store.
pub fn init(config: GameSessionInit) -> (r: Result<GameSession, InitError>)
    ensures
        match r {
            Ok(g) => {
                &&& config.spec_valid()
                &&& g.wordle_program_id == config.wordle_program_id
                &&& g.sessions@ =~= Seq::<(ActorId, SessionInfo)>::empty()
                &&& g.wf()
            },
            Err(e) => !config.spec_valid() && e == InitError::InvalidServiceId,
        },
{
    if config.is_valid() {
        Ok(GameSession { wordle_program_id: config.wordle_program_id, sessions: Vec::new() })
    } else {
        Err(InitError::InvalidServiceId)
    }
}

} // verus!
