//! The laws the coordinator obeys, proved over the step functions that
//! specify the entry points (`start_step`, `check_word_step`,
//! `check_status_step`, `reply_step`).

use vstd::prelude::*;

use crate::protocol::{
    ActorId, Command, HandleError, MessageId, SessionInfo, WordleEvent, TRIES_LIMIT,
};
use crate::session::{
    check_status_step, check_word_step, reply_step, start_step, wf_record, GameSession,
};

verus! {

/// Law: in a well-formed coordinator every session's try count is
/// within the limit, and at the limit only once that game is concluded.
/// Every entry point keeps the coordinator well-formed, so this holds
/// in every reachable state.
pub proof fn lemma_all_sessions_tries_bounded(g: GameSession)
    requires
        g.wf(),
    ensures
        forall|i: int|
            0 <= i < g.sessions@.len() ==> (#[trigger] g.sessions@[i]).1.tries <= TRIES_LIMIT,
        forall|i: int|
            0 <= i < g.sessions@.len() && !((#[trigger] g.sessions@[i]).1.session_status
                is GameOver) ==> g.sessions@[i].1.tries < TRIES_LIMIT,
{
}

/// Law: no decision drives the try count past the limit, and a count
/// that reaches the limit belongs to a concluded game. Starting a round
/// keeps a record well-formed.
pub proof fn lemma_start_step_keeps_tries_bounded(
    rec: SessionInfo,
    user: ActorId,
    msg_id: MessageId,
    outbound_id: MessageId,
)
    requires
        wf_record(rec),
    ensures
        start_step(rec, user, msg_id, outbound_id) matches Ok(step) ==> wf_record(step.0),
{
}

/// Law: scoring a guess keeps a record well-formed; in particular the
/// try count never exceeds the limit before the game is concluded.
pub proof fn lemma_check_word_step_keeps_tries_bounded(
    rec: SessionInfo,
    user: ActorId,
    word: String,
    msg_id: MessageId,
    outbound_id: MessageId,
)
    requires
        wf_record(rec),
    ensures
        check_word_step(rec, user, word, msg_id, outbound_id) matches Ok(step) ==> wf_record(
            step.0,
        ),
{
}

/// Law: the watchdog keeps a record well-formed.
pub proof fn lemma_check_status_step_keeps_tries_bounded(
    rec: SessionInfo,
    user: ActorId,
    session_id: MessageId,
)
    requires
        wf_record(rec),
    ensures
        wf_record(check_status_step(rec, user, session_id).0),
{
}

/// Law: storing a matched reply keeps a record well-formed.
pub proof fn lemma_reply_step_keeps_tries_bounded(
    rec: SessionInfo,
    reply_to: MessageId,
    event: WordleEvent,
)
    requires
        wf_record(rec),
    ensures
        wf_record(reply_step(rec, reply_to, event).0),
{
}

/// Law: a concluded session refuses a guess, and the refusal commits
/// nothing.
pub proof fn lemma_concluded_refuses_guess(
    rec: SessionInfo,
    user: ActorId,
    word: String,
    msg_id: MessageId,
    outbound_id: MessageId,
)
    requires
        rec.session_status is GameOver,
    ensures
        check_word_step(rec, user, word, msg_id, outbound_id) == Err::<
            (SessionInfo, Seq<Command>),
            HandleError,
        >(HandleError::NotInGame),
{
}

/// Law: the watchdog leaves a concluded session as it stands.
pub proof fn lemma_concluded_ignores_watchdog(
    rec: SessionInfo,
    user: ActorId,
    session_id: MessageId,
)
    requires
        rec.session_status is GameOver,
    ensures
        check_status_step(rec, user, session_id) == (rec, Seq::<Command>::empty()),
{
}

/// Law: an external reply leaves a concluded session as it stands.
pub proof fn lemma_concluded_ignores_reply(
    rec: SessionInfo,
    reply_to: MessageId,
    event: WordleEvent,
)
    requires
        rec.session_status is GameOver,
    ensures
        reply_step(rec, reply_to, event) == (rec, Seq::<Command>::empty()),
{
}

/// Law: the only change a concluded session accepts is a fresh
/// `StartGame`, which begins a new generation and resets the tries.
pub proof fn lemma_concluded_changed_only_by_restart(
    rec: SessionInfo,
    user: ActorId,
    msg_id: MessageId,
    outbound_id: MessageId,
)
    requires
        rec.session_status is GameOver,
    ensures
        start_step(rec, user, msg_id, outbound_id) matches Ok(step) && step.0.session_id == msg_id
            && step.0.tries == 0 && step.0.session_status is WaitWordleStartReply,
{
}

/// Law: a session with a round in progress refuses a conflicting
/// `StartGame` instead of queuing it; at most one external request per
/// session is ever in flight.
pub proof fn lemma_busy_session_refuses_start(
    rec: SessionInfo,
    user: ActorId,
    msg_id: MessageId,
    outbound_id: MessageId,
)
    requires
        rec.session_status is WaitUserInput || rec.session_status is WaitWordleCheckWordReply,
    ensures
        start_step(rec, user, msg_id, outbound_id) == Err::<
            (SessionInfo, Seq<Command>),
            HandleError,
        >(HandleError::AlreadyInGame),
{
}

/// Law: a guess submitted while the session awaits the external
/// service is refused, and the refusal commits nothing.
pub proof fn lemma_waiting_session_refuses_guess(
    rec: SessionInfo,
    user: ActorId,
    word: String,
    msg_id: MessageId,
    outbound_id: MessageId,
)
    requires
        rec.spec_is_wait_reply_status(),
    ensures
        check_word_step(rec, user, word, msg_id, outbound_id) == Err::<
            (SessionInfo, Seq<Command>),
            HandleError,
        >(HandleError::NotInGame),
{
}

/// Law: a reply whose correlation identifier does not match the
/// session's outstanding request mutates nothing and wakes nothing.
pub proof fn lemma_stale_reply_dropped(rec: SessionInfo, reply_to: MessageId, event: WordleEvent)
    requires
        reply_to != rec.send_to_wordle_msg_id,
    ensures
        reply_step(rec, reply_to, event) == (rec, Seq::<Command>::empty()),
{
}

/// Law: a reply arriving while the session awaits none is likewise
/// dropped, whatever its identifier.
pub proof fn lemma_unawaited_reply_dropped(
    rec: SessionInfo,
    reply_to: MessageId,
    event: WordleEvent,
)
    requires
        !rec.spec_is_wait_reply_status(),
    ensures
        reply_step(rec, reply_to, event) == (rec, Seq::<Command>::empty()),
{
}

/// Law: a watchdog message carrying a stale generation never forces a
/// loss on a session that has since started a new round.
pub proof fn lemma_stale_watchdog_dropped(rec: SessionInfo, user: ActorId, session_id: MessageId)
    requires
        session_id != rec.session_id,
    ensures
        check_status_step(rec, user, session_id) == (rec, Seq::<Command>::empty()),
{
}

/// Law: no decision other than starting a round ever lowers the try
/// count; a fresh round is the only reset.
pub proof fn lemma_tries_never_decrease(
    rec: SessionInfo,
    user: ActorId,
    word: String,
    reply_to: MessageId,
    event: WordleEvent,
    msg_id: MessageId,
    outbound_id: MessageId,
    session_id: MessageId,
)
    requires
        wf_record(rec),
    ensures
        check_word_step(rec, user, word, msg_id, outbound_id) matches Ok(step) ==> step.0.tries
            >= rec.tries,
        check_status_step(rec, user, session_id).0.tries == rec.tries,
        reply_step(rec, reply_to, event).0.tries == rec.tries,
{
}

} // verus!
