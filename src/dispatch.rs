//! The decisions of the event dispatcher, as state machines that the run loop
//! drives: which callback each record goes to, when a game's stream is opened,
//! how a game's context is derived, and which records end a stream.
use vstd::prelude::*;

use crate::context::{spec_game_context, GameContext};
use crate::model::bot_event::{BotEvent, GameStartFinish};
use crate::model::challenge::{Challenge, ChallengeDeclined};
use crate::model::game::event::{
    ChatLineEvent, GameEvent, GameFullEvent, GameStateEvent, OpponentGoneEvent,
};
use crate::model::game::GameId;
use crate::model::user::UserId;

verus! {

/// A record of a stream that could not be read or decoded.
#[derive(Clone, Copy, Debug, PartialEq, Eq, Hash, Structural)]
pub struct MalformedRecord;

/// Why a stream was given up. Each ends the loop that reads the stream: no
/// record is skipped and no stream is reopened.
#[derive(Clone, Copy, Debug, PartialEq, Eq, Hash, Structural)]
pub enum StreamError {
    /// A record could not be read or decoded.
    MalformedRecord,
    /// A game's stream did not start with the game's full data.
    MissingGameFull,
    /// A game's stream sent the game's full data a second time.
    RepeatedGameFull,
}

/// A call of one callback of the bot, for an event of the main stream.
#[derive(Clone, Debug, PartialEq, Eq, Hash)]
pub enum BotCall {
    OnGameStart(GameStartFinish),
    OnGameFinish(GameStartFinish),
    OnChallenge(Challenge),
    OnChallengeCancelled(Challenge),
    OnChallengeDeclined(ChallengeDeclined),
}

/// The event that a call hands to its callback. Each kind of event has its
/// own callback, so this maps calls one to one onto events.
pub open spec fn call_event(call: BotCall) -> BotEvent {
    match call {
        BotCall::OnGameStart(g) => BotEvent::GameStart(g),
        BotCall::OnGameFinish(g) => BotEvent::GameFinish(g),
        BotCall::OnChallenge(c) => BotEvent::Challenge(c),
        BotCall::OnChallengeCancelled(c) => BotEvent::ChallengeCanceled(c),
        BotCall::OnChallengeDeclined(c) => BotEvent::ChallengeDeclined(c),
    }
}

/// What the run loop does with one event of the main stream: call one
/// callback, and after a game's start, follow that game's own stream.
#[derive(Clone, Debug, PartialEq, Eq, Hash)]
pub struct BotDispatch {
    pub call: BotCall,
    /// The game whose stream to open once the callback is done.
    pub follow_game: Option<GameId>,
}

/// The dispatch of one event.
pub open spec fn spec_dispatch_bot_event(event: BotEvent) -> BotDispatch {
    match event {
        BotEvent::GameStart(g) => BotDispatch { call: BotCall::OnGameStart(g), follow_game: g.id },
        BotEvent::GameFinish(g) => BotDispatch { call: BotCall::OnGameFinish(g), follow_game: None },
        BotEvent::Challenge(c) => BotDispatch { call: BotCall::OnChallenge(c), follow_game: None },
        BotEvent::ChallengeCanceled(c) => BotDispatch {
            call: BotCall::OnChallengeCancelled(c),
            follow_game: None,
        },
        BotEvent::ChallengeDeclined(c) => BotDispatch {
            call: BotCall::OnChallengeDeclined(c),
            follow_game: None,
        },
    }
}

/// Routes an event of the main stream to the callback of its kind. A game's
/// start with an id is followed by that game's stream.
pub fn dispatch_bot_event(event: BotEvent) -> (r: BotDispatch)
    ensures
        r == spec_dispatch_bot_event(event),
        call_event(r.call) == event,
{
    match event {
        BotEvent::GameStart(g) => {
            let follow_game = match &g.id {
                Some(id) => Some(id.clone()),
                None => None,
            };
            BotDispatch { call: BotCall::OnGameStart(g), follow_game }
        },
        BotEvent::GameFinish(g) => BotDispatch { call: BotCall::OnGameFinish(g), follow_game: None },
        BotEvent::Challenge(c) => BotDispatch { call: BotCall::OnChallenge(c), follow_game: None },
        BotEvent::ChallengeCanceled(c) => BotDispatch {
            call: BotCall::OnChallengeCancelled(c),
            follow_game: None,
        },
        BotEvent::ChallengeDeclined(c) => BotDispatch {
            call: BotCall::OnChallengeDeclined(c),
            follow_game: None,
        },
    }
}

/// What the loop over the main stream does with one record: dispatch it, or
/// give the stream up.
pub open spec fn spec_on_bot_record(record: Result<BotEvent, MalformedRecord>) -> Result<
    BotDispatch,
    StreamError,
> {
    match record {
        Ok(event) => Ok(spec_dispatch_bot_event(event)),
        Err(_) => Err(StreamError::MalformedRecord),
    }
}

/// Decides on one record of the main stream: a decoded event is dispatched,
/// an undecodable record ends the stream.
pub fn on_bot_record(record: Result<BotEvent, MalformedRecord>) -> (r: Result<
    BotDispatch,
    StreamError,
>)
    ensures
        r == spec_on_bot_record(record),
{
    match record {
        Ok(event) => Ok(dispatch_bot_event(event)),
        Err(_) => Err(StreamError::MalformedRecord),
    }
}

/// The main stream read from its start: the dispatches in the order of the
/// records, up to the first record that ends the stream, and how it ended.
pub open spec fn spec_run_bot_records(records: Seq<Result<BotEvent, MalformedRecord>>) -> (
    Seq<BotDispatch>,
    Result<(), StreamError>,
)
    decreases records.len(),
{
    if records.len() == 0 {
        (seq![], Ok(()))
    } else {
        match spec_on_bot_record(records[0]) {
            Ok(d) => {
                let rest = spec_run_bot_records(records.drop_first());
                (seq![d] + rest.0, rest.1)
            },
            Err(e) => (seq![], Err(e)),
        }
    }
}

/// A finished read of a stream of the bot.
#[derive(Debug, PartialEq, Eq, Hash)]
pub struct BotRun {
    /// The dispatches, in the order in which they were scheduled.
    pub dispatched: Vec<BotDispatch>,
    pub outcome: Result<(), StreamError>,
}

/// Runs the decisions of the main loop over a finite stream of records.
pub fn run_bot_records(records: Vec<Result<BotEvent, MalformedRecord>>) -> (r: BotRun)
    ensures
        r.dispatched@ == spec_run_bot_records(records@).0,
        r.outcome == spec_run_bot_records(records@).1,
{
    let ghost all = records@;
    let mut pending = records;
    let mut dispatched: Vec<BotDispatch> = Vec::new();
    while pending.len() > 0
        invariant
            all == records@,
            spec_run_bot_records(all).0 == dispatched@ + spec_run_bot_records(pending@).0,
            spec_run_bot_records(all).1 == spec_run_bot_records(pending@).1,
        decreases pending.len(),
    {
        let ghost before = pending@;
        let record = pending.remove(0);
        assert(pending@ == before.drop_first());
        match on_bot_record(record) {
            Ok(d) => {
                dispatched.push(d);
                assert(spec_run_bot_records(all).0 == dispatched@ + spec_run_bot_records(pending@).0);
            },
            Err(e) => {
                assert(spec_run_bot_records(before) == (Seq::<BotDispatch>::empty(), Err::<(), StreamError>(e)));
                assert(dispatched@ + Seq::<BotDispatch>::empty() == dispatched@);
                return BotRun { dispatched, outcome: Err(e) };
            },
        }
    }
    BotRun { dispatched, outcome: Ok(()) }
}

/// A call of one callback of the bot, for an event of a game's stream. The
/// context is the game's, shared by all of them.
#[derive(Clone, Debug, PartialEq, Eq, Hash)]
pub enum GameCall {
    OnGameState(GameStateEvent),
    OnChatLine(ChatLineEvent),
    OnOpponentGone(OpponentGoneEvent),
}

/// The session of one game's stream: waiting for the game's full data, then
/// active with the context derived from it, or given up.
#[derive(Clone, Debug, PartialEq, Eq, Hash)]
pub enum GameSession {
    AwaitingFull { bot_id: UserId },
    Active { context: GameContext },
    Failed { error: StreamError },
}

/// The context of a session, once it is active.
pub open spec fn session_context(s: GameSession) -> Option<GameContext> {
    match s {
        GameSession::Active { context } => Some(context),
        _ => None,
    }
}

/// The call for a record of an active session.
pub open spec fn spec_game_call(event: GameEvent) -> Option<GameCall> {
    match event {
        GameEvent::GameFull(_) => None,
        GameEvent::GameState(s) => Some(GameCall::OnGameState(s)),
        GameEvent::ChatLine(c) => Some(GameCall::OnChatLine(c)),
        GameEvent::OpponentGone(o) => Some(GameCall::OnOpponentGone(o)),
    }
}

impl GameSession {
    /// One step of the session on a record: the next session, and the call
    /// to make or the error that ends the stream.
    pub open spec fn spec_advance(self, record: Result<GameEvent, MalformedRecord>) -> (
        GameSession,
        Result<GameCall, StreamError>,
    ) {
        match self {
            GameSession::AwaitingFull { bot_id } => match record {
                Ok(GameEvent::GameFull(full)) => (
                    GameSession::Active { context: spec_game_context(bot_id, full.info) },
                    Ok(GameCall::OnGameState(full.state)),
                ),
                Ok(_) => (
                    GameSession::Failed { error: StreamError::MissingGameFull },
                    Err(StreamError::MissingGameFull),
                ),
                Err(_) => (
                    GameSession::Failed { error: StreamError::MalformedRecord },
                    Err(StreamError::MalformedRecord),
                ),
            },
            GameSession::Active { context } => match record {
                Ok(GameEvent::GameFull(_)) => (
                    GameSession::Failed { error: StreamError::RepeatedGameFull },
                    Err(StreamError::RepeatedGameFull),
                ),
                Ok(event) => (GameSession::Active { context }, Ok(spec_game_call(event)->0)),
                Err(_) => (
                    GameSession::Failed { error: StreamError::MalformedRecord },
                    Err(StreamError::MalformedRecord),
                ),
            },
            GameSession::Failed { error } => (GameSession::Failed { error }, Err(error)),
        }
    }

    /// A session of the bot with id `bot_id` that waits for the first record.
    pub fn new(bot_id: UserId) -> (r: GameSession)
        ensures
            r == (GameSession::AwaitingFull { bot_id }),
    {
        GameSession::AwaitingFull { bot_id }
    }

    /// The context of the session, once it is active.
    pub fn context(&self) -> (r: Option<&GameContext>)
        ensures
            r == match session_context(*self) {
                Some(c) => Some(&c),
                None => None::<&GameContext>,
            },
    {
        match self {
            GameSession::Active { context } => Some(context),
            _ => None,
        }
    }

    /// Takes one record of the game's stream. The first must be the game's
    /// full data: it fixes the context, and its state goes to the state
    /// callback. Every later record goes to the callback of its kind with that
    /// same context, and a second full data ends the stream, as does an
    /// undecodable record.
    pub fn advance(self, record: Result<GameEvent, MalformedRecord>) -> (r: (
        GameSession,
        Result<GameCall, StreamError>,
    ))
        ensures
            r == self.spec_advance(record),
    {
        match self {
            GameSession::AwaitingFull { bot_id } => match record {
                Ok(GameEvent::GameFull(full)) => {
                    let context = GameContext::for_game(bot_id, full.info);
                    (GameSession::Active { context }, Ok(GameCall::OnGameState(full.state)))
                },
                Ok(_) => (
                    GameSession::Failed { error: StreamError::MissingGameFull },
                    Err(StreamError::MissingGameFull),
                ),
                Err(_) => (
                    GameSession::Failed { error: StreamError::MalformedRecord },
                    Err(StreamError::MalformedRecord),
                ),
            },
            GameSession::Active { context } => match record {
                Ok(GameEvent::GameFull(_)) => (
                    GameSession::Failed { error: StreamError::RepeatedGameFull },
                    Err(StreamError::RepeatedGameFull),
                ),
                Ok(GameEvent::GameState(s)) => (
                    GameSession::Active { context },
                    Ok(GameCall::OnGameState(s)),
                ),
                Ok(GameEvent::ChatLine(c)) => (
                    GameSession::Active { context },
                    Ok(GameCall::OnChatLine(c)),
                ),
                Ok(GameEvent::OpponentGone(o)) => (
                    GameSession::Active { context },
                    Ok(GameCall::OnOpponentGone(o)),
                ),
                Err(_) => (
                    GameSession::Failed { error: StreamError::MalformedRecord },
                    Err(StreamError::MalformedRecord),
                ),
            },
            GameSession::Failed { error } => (GameSession::Failed { error }, Err(error)),
        }
    }
}

/// A game's stream read through a session: the final session, and each call
/// made with the context that it was made with, up to the first record that
/// ends the stream.
pub open spec fn spec_run_session(
    session: GameSession,
    records: Seq<Result<GameEvent, MalformedRecord>>,
) -> (GameSession, Seq<(GameContext, GameCall)>)
    decreases records.len(),
{
    if records.len() == 0 {
        (session, seq![])
    } else {
        let (next, out) = session.spec_advance(records[0]);
        match out {
            Ok(call) => {
                let rest = spec_run_session(next, records.drop_first());
                (rest.0, seq![(session_context(next)->0, call)] + rest.1)
            },
            Err(_) => (next, seq![]),
        }
    }
}

/// How a session ended: with its error, if it failed.
pub open spec fn session_outcome(s: GameSession) -> Result<(), StreamError> {
    match s {
        GameSession::Failed { error } => Err(error),
        _ => Ok(()),
    }
}

/// A finished read of one game's stream.
#[derive(Debug, PartialEq, Eq, Hash)]
pub struct GameRun {
    /// The context that the calls were made with, if the game's full data came.
    pub context: Option<GameContext>,
    /// The calls, in the order in which they were scheduled.
    pub calls: Vec<GameCall>,
    pub outcome: Result<(), StreamError>,
}

/// Runs a session of the bot with id `bot_id` over a finite game stream.
pub fn run_game_records(bot_id: UserId, records: Vec<Result<GameEvent, MalformedRecord>>) -> (r:
    GameRun)
    ensures
        r.calls@ == spec_run_session(GameSession::AwaitingFull { bot_id }, records@).1.map_values(
            |p: (GameContext, GameCall)| p.1,
        ),
        r.outcome == session_outcome(
            spec_run_session(GameSession::AwaitingFull { bot_id }, records@).0,
        ),
        r.outcome is Err ==> r.context is None,
        r.outcome is Ok ==> r.context == session_context(
            spec_run_session(GameSession::AwaitingFull { bot_id }, records@).0,
        ),
{
    let ghost start = GameSession::AwaitingFull { bot_id };
    let ghost all = records@;
    let mut pending = records;
    let mut session = GameSession::new(bot_id);
    let mut calls: Vec<GameCall> = Vec::new();
    while pending.len() > 0
        invariant
            all == records@,
            start == (GameSession::AwaitingFull { bot_id }),
            !(session is Failed),
            spec_run_session(start, all).0 == spec_run_session(session, pending@).0,
            spec_run_session(start, all).1.map_values(|p: (GameContext, GameCall)| p.1) == calls@
                + spec_run_session(session, pending@).1.map_values(
                |p: (GameContext, GameCall)| p.1,
            ),
        decreases pending.len(),
    {
        let ghost before = pending@;
        let ghost prior = session;
        let record = pending.remove(0);
        assert(pending@ == before.drop_first());
        let (next, out) = session.advance(record);
        session = next;
        match out {
            Ok(call) => {
                calls.push(call);
                proof {
                    let rest = spec_run_session(session, pending@);
                    assert(spec_run_session(prior, before).1 == seq![
                        (session_context(session)->0, call),
                    ] + rest.1);
                    assert(spec_run_session(prior, before).1.map_values(
                        |p: (GameContext, GameCall)| p.1,
                    ) == seq![call] + rest.1.map_values(|p: (GameContext, GameCall)| p.1));
                }
            },
            Err(e) => {
                proof {
                    assert(spec_run_session(prior, before) == (session, Seq::<(GameContext, GameCall)>::empty()));
                    assert(session == GameSession::Failed { error: e });
                    assert(Seq::<(GameContext, GameCall)>::empty().map_values(|p: (GameContext, GameCall)| p.1) =~= Seq::<GameCall>::empty());
                    assert(calls@ + Seq::<GameCall>::empty() == calls@);
                }
                return GameRun { context: None, calls, outcome: Err(e) };
            },
        }
    }
    let context = match session {
        GameSession::Active { context } => Some(context),
        _ => None,
    };
    GameRun { context, calls, outcome: Ok(()) }
}


/// The records of a stream in which every record was decoded.
pub open spec fn decoded_records<T>(events: Seq<T>) -> Seq<Result<T, MalformedRecord>> {
    events.map_values(|e: T| Ok::<T, MalformedRecord>(e))
}

/// Every event of the main stream is dispatched exactly once, to the callback
/// of its own kind and with the event itself: the events that the callbacks
/// receive are those of the stream, as a multiset and even in the order in
/// which the calls are scheduled. The stream then ends without an error.
pub proof fn lemma_every_bot_event_dispatched_once(events: Seq<BotEvent>)
    ensures
        spec_run_bot_records(decoded_records(events)).1 == Ok::<(), StreamError>(()),
        spec_run_bot_records(decoded_records(events)).0.map_values(
            |d: BotDispatch| call_event(d.call),
        ) == events,
        spec_run_bot_records(decoded_records(events)).0.map_values(
            |d: BotDispatch| call_event(d.call),
        ).to_multiset() == events.to_multiset(),
    decreases events.len(),
{
    let records = decoded_records(events);
    let run = spec_run_bot_records(records);
    if events.len() > 0 {
        lemma_every_bot_event_dispatched_once(events.drop_first());
        assert(records.drop_first() == decoded_records(events.drop_first()));
        let rest = spec_run_bot_records(records.drop_first());
        let d = spec_dispatch_bot_event(events[0]);
        assert(run.0 == seq![d] + rest.0);
        assert(run.0.map_values(|d: BotDispatch| call_event(d.call)) == seq![events[0]]
            + rest.0.map_values(|d: BotDispatch| call_event(d.call)));
        assert(events == seq![events[0]] + events.drop_first());
    } else {
        assert(run.0.map_values(|d: BotDispatch| call_event(d.call)) == events);
    }
}

/// An undecodable record ends the main stream: the events before it are each
/// dispatched, in order, and nothing after it.
pub proof fn lemma_bot_stream_stops_at_malformed_record(
    events: Seq<BotEvent>,
    later: Seq<Result<BotEvent, MalformedRecord>>,
)
    ensures
        ({
            let run = spec_run_bot_records(decoded_records(events) + seq![Err(MalformedRecord)]
                + later);
            &&& run.1 == Err::<(), StreamError>(StreamError::MalformedRecord)
            &&& run.0.map_values(|d: BotDispatch| call_event(d.call)) == events
        }),
    decreases events.len(),
{
    let records = decoded_records(events) + seq![Err(MalformedRecord)] + later;
    let run = spec_run_bot_records(records);
    if events.len() > 0 {
        lemma_bot_stream_stops_at_malformed_record(events.drop_first(), later);
        assert(records.drop_first() == decoded_records(events.drop_first()) + seq![
            Err(MalformedRecord),
        ] + later);
        let rest = spec_run_bot_records(records.drop_first());
        let d = spec_dispatch_bot_event(events[0]);
        assert(run.0 == seq![d] + rest.0);
        assert(run.0.map_values(|d: BotDispatch| call_event(d.call)) == seq![events[0]]
            + rest.0.map_values(|d: BotDispatch| call_event(d.call)));
        assert(events == seq![events[0]] + events.drop_first());
    } else {
        assert(records[0] == Err::<BotEvent, MalformedRecord>(MalformedRecord));
        assert(run.0.map_values(|d: BotDispatch| call_event(d.call)) == events);
    }
}

/// An active session goes on with the same context through records that are
/// not full data, making the call of each record's kind.
proof fn lemma_active_session_calls(context: GameContext, events: Seq<GameEvent>)
    requires
        forall|i: int| 0 <= i < events.len() ==> !(#[trigger] events[i] is GameFull),
    ensures
        spec_run_session(GameSession::Active { context }, decoded_records(events)) == (
            GameSession::Active { context },
            events.map_values(|e: GameEvent| (context, spec_game_call(e)->0)),
        ),
    decreases events.len(),
{
    let records = decoded_records(events);
    if events.len() > 0 {
        assert(!(events[0] is GameFull));
        assert forall|i: int| 0 <= i < events.drop_first().len() implies !(
        #[trigger] events.drop_first()[i] is GameFull) by {
            assert(events.drop_first()[i] == events[i + 1]);
        }
        lemma_active_session_calls(context, events.drop_first());
        assert(records.drop_first() == decoded_records(events.drop_first()));
        assert(events.map_values(|e: GameEvent| (context, spec_game_call(e)->0)) == seq![
            (context, spec_game_call(events[0])->0),
        ] + events.drop_first().map_values(|e: GameEvent| (context, spec_game_call(e)->0)));
    } else {
        assert(events.map_values(|e: GameEvent| (context, spec_game_call(e)->0)) =~= seq![]);
    }
}

/// A game stream that starts with the game's full data and goes on with `k`
/// records of other kinds makes `k + 1` calls: first one with the state
/// embedded in the full data, then one per record, in order and of the
/// record's kind. All are made with the one context derived from the full
/// data: the bot's id, its color there, and the full data's game metadata.
/// The stream then ends without an error.
pub proof fn lemma_game_session_calls(bot_id: UserId, full: GameFullEvent, events: Seq<GameEvent>)
    requires
        forall|i: int| 0 <= i < events.len() ==> !(#[trigger] events[i] is GameFull),
    ensures
        ({
            let context = spec_game_context(bot_id, full.info);
            let run = spec_run_session(
                GameSession::AwaitingFull { bot_id },
                decoded_records(seq![GameEvent::GameFull(full)] + events),
            );
            &&& context.info == full.info
            &&& context.bot_id == bot_id
            &&& run.1.len() == events.len() + 1
            &&& run.1[0] == (context, GameCall::OnGameState(full.state))
            &&& forall|i: int|
                0 <= i < events.len() ==> run.1[i + 1] == (context, spec_game_call(
                    #[trigger] events[i],
                )->0)
            &&& session_outcome(run.0) is Ok
            &&& session_context(run.0) == Some(context)
        }),
{
    let context = spec_game_context(bot_id, full.info);
    let records = decoded_records(seq![GameEvent::GameFull(full)] + events);
    assert(records.drop_first() == decoded_records(events));
    assert(records[0] == Ok::<GameEvent, MalformedRecord>(GameEvent::GameFull(full)));
    lemma_active_session_calls(context, events);
    let run = spec_run_session(GameSession::AwaitingFull { bot_id }, records);
    let tail = events.map_values(|e: GameEvent| (context, spec_game_call(e)->0));
    assert(run.1 == seq![(context, GameCall::OnGameState(full.state))] + tail);
    assert forall|i: int| 0 <= i < events.len() implies run.1[i + 1] == (context, spec_game_call(
        #[trigger] events[i],
    )->0) by {
        assert(run.1[i + 1] == tail[i]);
    }
}

} // verus!
