//! Message and session types exchanged between the players, the
//! coordinator and the external guess-checking ("wordle") service,
//! together with the guess-format validation rule.

use vstd::prelude::*;
use vstd::string::StrSliceExecFns;

verus! {

/// Identity of an actor (a player or a program), as the host numbers them.
pub type ActorId = u64;

/// Identifier the host assigns to a message.
pub type MessageId = u64;

/// Maximum number of guesses a player may consume in one round.
pub const TRIES_LIMIT: u8 = 5;

/// Number of host execution rounds after which a scheduled watchdog
/// message is delivered back to the coordinator.
pub const TIMEOUT_DELAY_BLOCKS: u32 = 200;

/// Outcome of a concluded round.
#[derive(Debug, Clone, Copy, PartialEq, Eq, Structural)]
pub enum GameStatus {
    Win,
    Lose,
}

/// Request the coordinator sends to the external guess-checking service.
#[derive(Debug, PartialEq, Eq)]
pub enum WordleAction {
    StartGame { user: ActorId },
    CheckWord { user: ActorId, word: String },
}

/// Reply the external guess-checking service sends back: either the
/// acknowledgement of a new round, or the score of a submitted guess.
#[derive(Debug, PartialEq, Eq)]
pub enum WordleEvent {
    GameStarted { user: ActorId },
    WordChecked { user: ActorId, correct_positions: Vec<u8>, contained_in_word: Vec<u8> },
}

/// The positions a fully correct guess scores: every one of the five.
pub open spec fn winning_positions() -> Seq<u8> {
    seq![0u8, 1u8, 2u8, 3u8, 4u8]
}

impl WordleEvent {
    /// The player this reply concerns.
    pub open spec fn spec_user(self) -> ActorId {
        match self {
            WordleEvent::GameStarted { user } => user,
            WordleEvent::WordChecked { user, .. } => user,
        }
    }

    pub fn get_user(&self) -> (u: ActorId)
        ensures
            u == self.spec_user(),
    {
        match self {
            WordleEvent::GameStarted { user } => *user,
            WordleEvent::WordChecked { user, .. } => *user,
        }
    }

    /// A scored guess counts as a win exactly when every position matched.
    pub open spec fn spec_has_guessed(self) -> bool {
        self matches WordleEvent::WordChecked { correct_positions, .. }
            && correct_positions@ == winning_positions()
    }

    pub fn has_guessed(&self) -> (r: bool)
        ensures
            r == self.spec_has_guessed(),
    {
        match self {
            WordleEvent::GameStarted { .. } => false,
            WordleEvent::WordChecked { correct_positions, .. } => {
                if correct_positions.len() != 5 {
                    proof {
                        assert(correct_positions@ != winning_positions());
                    }
                    false
                } else {
                    let r = correct_positions[0] == 0 && correct_positions[1] == 1
                        && correct_positions[2] == 2 && correct_positions[3] == 3
                        && correct_positions[4] == 4;
                    proof {
                        if r {
                            assert(correct_positions@ =~= winning_positions());
                        }
                    }
                    r
                }
            },
        }
    }

    /// What the player is told when this reply resumes a parked request.
    pub open spec fn spec_to_session_event(self) -> GameSessionEvent {
        match self {
            WordleEvent::GameStarted { .. } => GameSessionEvent::StartSuccess,
            WordleEvent::WordChecked { correct_positions, contained_in_word, .. } => {
                GameSessionEvent::CheckWordResult { correct_positions, contained_in_word }
            },
        }
    }

    pub fn into_session_event(self) -> (e: GameSessionEvent)
        ensures
            e == self.spec_to_session_event(),
    {
        match self {
            WordleEvent::GameStarted { .. } => GameSessionEvent::StartSuccess,
            WordleEvent::WordChecked { correct_positions, contained_in_word, .. } => {
                GameSessionEvent::CheckWordResult { correct_positions, contained_in_word }
            },
        }
    }
}

/// Request a player (or the watchdog, for `CheckGameStatus`) sends to
/// the coordinator.
#[derive(Debug, Clone, PartialEq, Eq)]
pub enum GameSessionAction {
    StartGame,
    CheckWord { word: String },
    CheckGameStatus { user: ActorId, session_id: MessageId },
}

/// Answer the coordinator sends back to a player.
#[derive(Debug, PartialEq, Eq)]
pub enum GameSessionEvent {
    StartSuccess,
    CheckWordResult { correct_positions: Vec<u8>, contained_in_word: Vec<u8> },
    GameOver(GameStatus),
}

/// One-time initialization payload: the external service's identity.
#[derive(Debug, PartialEq, Eq, Structural)]
pub struct GameSessionInit {
    pub wordle_program_id: ActorId,
}

impl GameSessionInit {
    /// A service identity is well-formed when it is not the zero identity.
    pub open spec fn spec_valid(self) -> bool {
        self.wordle_program_id != 0
    }

    pub fn is_valid(&self) -> (r: bool)
        ensures
            r == self.spec_valid(),
    {
        self.wordle_program_id != 0
    }
}

/// Where a session stands in its round.
#[derive(Debug, PartialEq, Eq)]
pub enum SessionStatus {
    /// No round played yet.
    Init,
    /// Waiting for the external service to acknowledge a new round.
    WaitWordleStartReply,
    /// A matched reply arrived and waits to be consumed by the resumed
    /// request.
    ReplyReceived(WordleEvent),
    /// Round running; ready for a guess.
    WaitUserInput,
    /// Waiting for the external service to score a guess.
    WaitWordleCheckWordReply,
    /// Terminal: the round is over.
    GameOver(GameStatus),
}

impl SessionStatus {
    /// Statuses from which a new round may be started.
    pub open spec fn spec_startable(self) -> bool {
        self is Init || self is GameOver || self is WaitWordleStartReply
    }

    pub fn startable(&self) -> (r: bool)
        ensures
            r == self.spec_startable(),
    {
        matches!(
            self,
            SessionStatus::Init | SessionStatus::GameOver(_) | SessionStatus::WaitWordleStartReply
        )
    }

    pub fn is_reply_received(&self) -> (r: bool)
        ensures
            r == (*self is ReplyReceived),
    {
        matches!(self, SessionStatus::ReplyReceived(_))
    }

    pub fn is_wait_user_input(&self) -> (r: bool)
        ensures
            r == (*self is WaitUserInput),
    {
        matches!(self, SessionStatus::WaitUserInput)
    }

    pub fn is_game_over(&self) -> (r: bool)
        ensures
            r == (*self is GameOver),
    {
        matches!(self, SessionStatus::GameOver(_))
    }
}

/// Per-player record: correlation identifiers, guess count and status.
#[derive(Debug, PartialEq, Eq)]
pub struct SessionInfo {
    /// Generation token of the current round; a new round overwrites it,
    /// which invalidates watchdog messages armed for earlier rounds.
    pub session_id: MessageId,
    /// Inbound request currently suspended awaiting this session's reply.
    pub original_msg_id: MessageId,
    /// Outbound request to the external service still awaiting its reply.
    pub send_to_wordle_msg_id: MessageId,
    /// Guesses consumed in the current round.
    pub tries: u8,
    pub session_status: SessionStatus,
}

impl SessionInfo {
    /// The record a player starts from before any round.
    pub open spec fn spec_initial() -> SessionInfo {
        SessionInfo {
            session_id: 0,
            original_msg_id: 0,
            send_to_wordle_msg_id: 0,
            tries: 0,
            session_status: SessionStatus::Init,
        }
    }

    /// Whether this session is parked on an outstanding external request.
    pub open spec fn spec_is_wait_reply_status(self) -> bool {
        self.session_status is WaitWordleStartReply
            || self.session_status is WaitWordleCheckWordReply
    }

    pub fn is_wait_reply_status(&self) -> (r: bool)
        ensures
            r == self.spec_is_wait_reply_status(),
    {
        match self.session_status {
            SessionStatus::WaitWordleStartReply => true,
            SessionStatus::WaitWordleCheckWordReply => true,
            _ => false,
        }
    }
}

impl core::default::Default for SessionInfo {
    fn default() -> (d: Self)
        ensures
            d == SessionInfo::spec_initial(),
    {
        SessionInfo {
            session_id: 0,
            original_msg_id: 0,
            send_to_wordle_msg_id: 0,
            tries: 0,
            session_status: SessionStatus::Init,
        }
    }
}

/// Read-only snapshot of every session, for external observers.
#[derive(Debug, PartialEq, Eq)]
pub struct GameSessionState {
    pub game_sessions: Vec<(ActorId, SessionInfo)>,
}

/// Instruction the state machine hands back to the host to carry out.
///
/// The machine itself performs no message I/O: it decides, and the host
/// executes these in order.
#[derive(Debug, PartialEq, Eq)]
pub enum Command {
    /// Send this request to the external guess-checking service; the
    /// host assigns it the outbound identifier the entry point was given.
    SendToWordle(WordleAction),
    /// Park the current inbound request until a matched reply wakes it.
    Suspend,
    /// Answer the current inbound request.
    Reply(GameSessionEvent),
    /// Deliver `CheckGameStatus { user, session_id }` back to the
    /// coordinator itself after `delay_blocks` execution rounds.
    ScheduleTimeout { user: ActorId, session_id: MessageId, delay_blocks: u32 },
    /// Send a one-way notification to a player.
    Notify { user: ActorId, event: GameSessionEvent },
    /// Put a parked inbound request back into the dispatch queue.
    Wake(MessageId),
}

/// Why an inbound request was rejected; the whole message fails and no
/// state change is committed.
#[derive(Debug, Clone, Copy, PartialEq, Eq, Structural)]
pub enum HandleError {
    /// `StartGame` while a round is already running for this player.
    AlreadyInGame,
    /// `CheckWord` whose word is not five lowercase letters.
    InvalidWord,
    /// `CheckWord` while no round is ready for a guess.
    NotInGame,
}

/// Why initialization was refused.
#[derive(Debug, Clone, Copy, PartialEq, Eq, Structural)]
pub enum InitError {
    /// The external service identity is malformed (the zero identity).
    InvalidServiceId,
}

/// Two service replies carry the same data (their byte vectors are
/// compared by contents).
pub open spec fn event_like(a: WordleEvent, b: WordleEvent) -> bool {
    match a {
        WordleEvent::GameStarted { user: ua } => {
            b matches WordleEvent::GameStarted { user: ub } && ua == ub
        },
        WordleEvent::WordChecked { user: ua, correct_positions: ca, contained_in_word: wa } => {
            b matches WordleEvent::WordChecked { user: ub, correct_positions: cb, contained_in_word: wb }
                && ua == ub && ca@ == cb@ && wa@ == wb@
        },
    }
}

/// Two statuses carry the same data.
pub open spec fn status_like(a: SessionStatus, b: SessionStatus) -> bool {
    match a {
        SessionStatus::Init => b is Init,
        SessionStatus::WaitWordleStartReply => b is WaitWordleStartReply,
        SessionStatus::ReplyReceived(ea) => {
            b matches SessionStatus::ReplyReceived(eb) && event_like(ea, eb)
        },
        SessionStatus::WaitUserInput => b is WaitUserInput,
        SessionStatus::WaitWordleCheckWordReply => b is WaitWordleCheckWordReply,
        SessionStatus::GameOver(ga) => b matches SessionStatus::GameOver(gb) && ga == gb,
    }
}

/// Two records carry the same data.
pub open spec fn info_like(a: SessionInfo, b: SessionInfo) -> bool {
    &&& a.session_id == b.session_id
    &&& a.original_msg_id == b.original_msg_id
    &&& a.send_to_wordle_msg_id == b.send_to_wordle_msg_id
    &&& a.tries == b.tries
    &&& status_like(a.session_status, b.session_status)
}

/// An element-for-element copy of a byte vector.
pub fn copy_bytes(v: &Vec<u8>) -> (r: Vec<u8>)
    ensures
        r@ == v@,
{
    let mut r: Vec<u8> = Vec::new();
    let n = v.len();
    let mut i: usize = 0;
    while i < n
        invariant
            n == v@.len(),
            i <= n,
            r@ =~= v@.subrange(0, i as int),
        decreases n - i,
    {
        r.push(v[i]);
        i += 1;
    }
    proof {
        assert(r@ =~= v@);
    }
    r
}

/// A copy of a service reply, equal in contents to the original.
pub fn copy_event(e: &WordleEvent) -> (r: WordleEvent)
    ensures
        event_like(r, *e),
{
    match e {
        WordleEvent::GameStarted { user } => WordleEvent::GameStarted { user: *user },
        WordleEvent::WordChecked { user, correct_positions, contained_in_word } => {
            WordleEvent::WordChecked {
                user: *user,
                correct_positions: copy_bytes(correct_positions),
                contained_in_word: copy_bytes(contained_in_word),
            }
        },
    }
}

/// A copy of a status, equal in contents to the original.
pub fn copy_status(s: &SessionStatus) -> (r: SessionStatus)
    ensures
        status_like(r, *s),
{
    match s {
        SessionStatus::Init => SessionStatus::Init,
        SessionStatus::WaitWordleStartReply => SessionStatus::WaitWordleStartReply,
        SessionStatus::ReplyReceived(e) => SessionStatus::ReplyReceived(copy_event(e)),
        SessionStatus::WaitUserInput => SessionStatus::WaitUserInput,
        SessionStatus::WaitWordleCheckWordReply => SessionStatus::WaitWordleCheckWordReply,
        SessionStatus::GameOver(g) => SessionStatus::GameOver(*g),
    }
}

/// A copy of a record, equal in contents to the original.
pub fn copy_info(rec: &SessionInfo) -> (r: SessionInfo)
    ensures
        info_like(r, *rec),
{
    SessionInfo {
        session_id: rec.session_id,
        original_msg_id: rec.original_msg_id,
        send_to_wordle_msg_id: rec.send_to_wordle_msg_id,
        tries: rec.tries,
        session_status: copy_status(&rec.session_status),
    }
}

/// A guess is acceptable exactly when it is five lowercase letters.
pub open spec fn valid_word(w: Seq<char>) -> bool {
    w.len() == 5 && (forall|i: int| 0 <= i < w.len() ==> 'a' <= #[trigger] w[i] <= 'z')
}

/// Checks the guess-format rule on an actual string.
pub fn check_word_format(word: &str) -> (r: bool)
    ensures
        r == valid_word(word@),
{
    let n = word.unicode_len();
    if n != 5 {
        return false;
    }
    let mut i: usize = 0;
    while i < n
        invariant
            n == word@.len(),
            n == 5,
            i <= n,
            forall|j: int| 0 <= j < i ==> 'a' <= #[trigger] word@[j] <= 'z',
        decreases n - i,
    {
        let c = word.get_char(i);
        if c < 'a' || c > 'z' {
            return false;
        }
        i += 1;
    }
    true
}

} // verus!
