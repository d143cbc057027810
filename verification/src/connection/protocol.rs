//! The rules of the conversation: which phase a connection is in, what each
//! message calls for in each phase, and what holds of every run of messages.

use crate::connection::enums::Shape;
use vstd::prelude::*;

verus! {

/// The stage a connection is in.
#[derive(Clone, Copy, Debug, PartialEq, Eq)]
pub enum Phase {
    /// Nothing has been accepted yet; only the server's handshake will be.
    AwaitingHandshake,
    /// The handshake is done and turns are being played.
    Active,
    /// The connection is over: the game was called off, the application
    /// stopped it, or the channel closed.
    Terminated,
}

/// A message that the phase forbids.
#[derive(Clone, Copy, Debug, PartialEq, Eq)]
pub enum ProtocolError {
    UnexpectedMessage,
}

/// Why the channel ended.
#[derive(Clone, Copy, Debug, PartialEq, Eq)]
pub enum TransportError {
    ConnectionClosed,
    IoFailure,
}

/// What a message calls for.
#[derive(Clone, Copy, Debug, PartialEq, Eq)]
pub enum Action {
    /// Answer with the bot's handshake.
    SendHandshake,
    /// Hand the turn to the bot and send back its intent.
    RunTick,
    /// Tell the application; nothing is sent.
    Notify,
    /// Tell the application and accept no further turns.
    Stop,
    /// Record the message and go on.
    Ignore,
    /// Refuse the message as unexpected.
    Reject,
}

/// The table of the protocol: the next phase and the action for a message of
/// a shape (`None` for an unrecognized message) in a phase.
///
/// Before the handshake only the server's handshake is accepted. After it, a
/// turn is run, the events that merely inform are passed on, the end of the
/// game stops the connection, an unrecognized message is ignored, and every
/// other message, a second server handshake too, is refused. A terminated
/// connection refuses everything.
pub open spec fn transition(phase: Phase, kind: Option<Shape>) -> (Phase, Action) {
    match phase {
        Phase::AwaitingHandshake => match kind {
            Some(Shape::ServerHandshake) => (Phase::Active, Action::SendHandshake),
            _ => (Phase::AwaitingHandshake, Action::Reject),
        },
        Phase::Active => match kind {
            None => (Phase::Active, Action::Ignore),
            Some(Shape::TickEventForBot) => (Phase::Active, Action::RunTick),
            Some(Shape::SkippedTurnEvent) => (Phase::Active, Action::Notify),
            Some(Shape::RoundStartedEvent) => (Phase::Active, Action::Notify),
            Some(Shape::RoundEndedEventForBot) => (Phase::Active, Action::Notify),
            Some(Shape::GameStartedEventForBot) => (Phase::Active, Action::Notify),
            Some(Shape::GameEndedEventForBot) => (Phase::Active, Action::Notify),
            Some(Shape::GameAbortedEvent) => (Phase::Terminated, Action::Stop),
            Some(_) => (Phase::Active, Action::Reject),
        },
        Phase::Terminated => (Phase::Terminated, Action::Reject),
    }
}

/// Looks a message up in the table of the protocol.
pub fn step(phase: Phase, kind: Option<Shape>) -> (r: (Phase, Action))
    ensures
        r == transition(phase, kind),
{
    match phase {
        Phase::AwaitingHandshake => match kind {
            Some(Shape::ServerHandshake) => (Phase::Active, Action::SendHandshake),
            _ => (Phase::AwaitingHandshake, Action::Reject),
        },
        Phase::Active => match kind {
            None => (Phase::Active, Action::Ignore),
            Some(Shape::TickEventForBot) => (Phase::Active, Action::RunTick),
            Some(Shape::SkippedTurnEvent) => (Phase::Active, Action::Notify),
            Some(Shape::RoundStartedEvent) => (Phase::Active, Action::Notify),
            Some(Shape::RoundEndedEventForBot) => (Phase::Active, Action::Notify),
            Some(Shape::GameStartedEventForBot) => (Phase::Active, Action::Notify),
            Some(Shape::GameEndedEventForBot) => (Phase::Active, Action::Notify),
            Some(Shape::GameAbortedEvent) => (Phase::Terminated, Action::Stop),
            Some(_) => (Phase::Active, Action::Reject),
        },
        Phase::Terminated => (Phase::Terminated, Action::Reject),
    }
}

/// The phase a connection is in after a run of messages.
pub open spec fn phase_after(phase: Phase, kinds: Seq<Option<Shape>>) -> Phase
    decreases kinds.len(),
{
    if kinds.len() == 0 {
        phase
    } else {
        transition(phase_after(phase, kinds.drop_last()), kinds.last()).0
    }
}

/// The action that the message at a place of a run calls for.
pub open spec fn action_at(phase: Phase, kinds: Seq<Option<Shape>>, i: int) -> Action {
    transition(phase_after(phase, kinds.take(i)), kinds[i]).1
}

/// An answer is due in two cases only: for the server's handshake while the
/// connection waits for it, and for a tick while the connection is active.
pub proof fn lemma_when_an_answer_is_due(phase: Phase, kind: Option<Shape>)
    ensures
        transition(phase, kind).1 == Action::SendHandshake ==> phase == Phase::AwaitingHandshake
            && kind == Some(Shape::ServerHandshake),
        transition(phase, kind).1 == Action::RunTick ==> phase == Phase::Active && kind == Some(
            Shape::TickEventForBot,
        ),
{
}

/// A connection never goes back to waiting for the handshake.
pub proof fn lemma_no_way_back(phase: Phase, kinds: Seq<Option<Shape>>)
    requires
        phase != Phase::AwaitingHandshake,
    ensures
        phase_after(phase, kinds) != Phase::AwaitingHandshake,
    decreases kinds.len(),
{
    if kinds.len() > 0 {
        lemma_no_way_back(phase, kinds.drop_last());
    }
}

/// The phase after a longer run is the phase after its first part, carried
/// through the rest.
pub proof fn lemma_phase_split(phase: Phase, kinds: Seq<Option<Shape>>, i: int)
    requires
        0 <= i <= kinds.len(),
    ensures
        phase_after(phase, kinds) == phase_after(
            phase_after(phase, kinds.take(i)),
            kinds.skip(i),
        ),
    decreases kinds.len() - i,
{
    if i == kinds.len() {
        assert(kinds.take(i) =~= kinds);
        assert(kinds.skip(i).len() == 0);
    } else {
        let shorter = kinds.drop_last();
        lemma_phase_split(phase, shorter, i);
        assert(shorter.take(i) =~= kinds.take(i));
        assert(kinds.skip(i).drop_last() =~= shorter.skip(i));
        assert(kinds.skip(i).last() == kinds.last());
    }
}

/// Whatever comes before the server's handshake is refused, and the
/// connection keeps waiting: no message but that handshake gets an answer.
pub proof fn lemma_handshake_comes_first(kinds: Seq<Option<Shape>>)
    requires
        forall|i: int| 0 <= i < kinds.len() ==> kinds[i] != Some(Shape::ServerHandshake),
    ensures
        phase_after(Phase::AwaitingHandshake, kinds) == Phase::AwaitingHandshake,
        forall|i: int|
            0 <= i < kinds.len() ==> action_at(Phase::AwaitingHandshake, kinds, i)
                == Action::Reject,
    decreases kinds.len(),
{
    if kinds.len() > 0 {
        lemma_handshake_comes_first(kinds.drop_last());
        assert forall|i: int| 0 <= i < kinds.len() implies action_at(
            Phase::AwaitingHandshake,
            kinds,
            i,
        ) == Action::Reject by {
            lemma_handshake_comes_first(kinds.take(i));
        }
    }
}

/// The first server handshake of a run is answered.
pub proof fn lemma_first_handshake_answered(kinds: Seq<Option<Shape>>, i: int)
    requires
        0 <= i < kinds.len(),
        kinds[i] == Some(Shape::ServerHandshake),
        forall|k: int| 0 <= k < i ==> kinds[k] != Some(Shape::ServerHandshake),
    ensures
        action_at(Phase::AwaitingHandshake, kinds, i) == Action::SendHandshake,
        phase_after(Phase::AwaitingHandshake, kinds.take(i + 1)) == Phase::Active,
{
    lemma_handshake_comes_first(kinds.take(i));
    assert(kinds.take(i + 1).drop_last() =~= kinds.take(i));
    assert(kinds.take(i + 1).last() == kinds[i]);
}

/// The handshake is answered once: after a message was answered with the
/// bot's handshake no later message is, a second server handshake neither.
pub proof fn lemma_handshake_once(kinds: Seq<Option<Shape>>, i: int, j: int)
    requires
        0 <= i < j < kinds.len(),
        action_at(Phase::AwaitingHandshake, kinds, i) == Action::SendHandshake,
    ensures
        action_at(Phase::AwaitingHandshake, kinds, j) != Action::SendHandshake,
{
    let first = kinds.take(i + 1);
    assert(first.drop_last() =~= kinds.take(i));
    assert(first.last() == kinds[i]);
    assert(phase_after(Phase::AwaitingHandshake, first) == Phase::Active);
    lemma_phase_split(Phase::AwaitingHandshake, kinds.take(j), i + 1);
    assert(kinds.take(j).take(i + 1) =~= first);
    lemma_no_way_back(Phase::Active, kinds.take(j).skip(i + 1));
}

/// Each turn is run, in the order the turns arrive: a run of nothing but
/// ticks on an active connection calls for one answer per tick and leaves the
/// connection active.
pub proof fn lemma_every_tick_runs(kinds: Seq<Option<Shape>>)
    requires
        forall|i: int| 0 <= i < kinds.len() ==> kinds[i] == Some(Shape::TickEventForBot),
    ensures
        phase_after(Phase::Active, kinds) == Phase::Active,
        forall|i: int|
            0 <= i < kinds.len() ==> action_at(Phase::Active, kinds, i) == Action::RunTick,
    decreases kinds.len(),
{
    if kinds.len() > 0 {
        lemma_every_tick_runs(kinds.drop_last());
        assert forall|i: int| 0 <= i < kinds.len() implies action_at(Phase::Active, kinds, i)
            == Action::RunTick by {
            lemma_every_tick_runs(kinds.take(i));
        }
    }
}

/// A terminated connection stays terminated and refuses every message.
pub proof fn lemma_terminated_is_final(kinds: Seq<Option<Shape>>)
    ensures
        phase_after(Phase::Terminated, kinds) == Phase::Terminated,
        forall|i: int|
            0 <= i < kinds.len() ==> action_at(Phase::Terminated, kinds, i) == Action::Reject,
    decreases kinds.len(),
{
    if kinds.len() > 0 {
        lemma_terminated_is_final(kinds.drop_last());
        assert forall|i: int| 0 <= i < kinds.len() implies action_at(Phase::Terminated, kinds, i)
            == Action::Reject by {
            lemma_terminated_is_final(kinds.take(i));
        }
    }
}

} // verus!
