//! One connection from the bot's side: its phase, the record of what was
//! accepted, and the cycle that one frame goes through. The channel itself is
//! not here: whoever owns it hands each frame in and sends what comes out.

use crate::bot::bot_handler::BotHandler;
use crate::bot::bot_info::{BotInfo, BotInfoModel};
use crate::bot::team_info::{TeamInfo, TeamInfoModel};
use crate::connection::codec::{decode, decoded, encode, encoded, DecodeError};
use crate::connection::enums::{MessageModel, MessageType, Shape};
use crate::connection::message_types::{
    BotHandshake,
    BotIntent,
    BotIntentModel,
    ServerHandshake,
    ServerHandshakeModel,
    TickEventForBot,
};
use crate::connection::protocol::{
    phase_after,
    step,
    transition,
    Action,
    Phase,
    ProtocolError,
    TransportError,
};
use crate::wire::{duplicate, opt_model, Wire};
use vstd::prelude::*;

verus! {

/// A frame as the channel delivers it. Only a text frame carries a message.
#[derive(Debug)]
pub enum Frame {
    Text(String),
    Binary(Vec<u8>),
    Ping(Vec<u8>),
    Pong(Vec<u8>),
    Close,
}

/// What came of one frame.
#[derive(Debug, PartialEq, Eq)]
pub enum Outcome {
    /// The frame held no message and was dropped.
    Dropped(DecodeError),
    /// The message was refused; the connection goes on.
    Refused(ProtocolError),
    /// The server's handshake was accepted; the frame is the bot's answer.
    Handshake(String),
    /// A turn was run; the frame is the bot's intent.
    Intent(String),
    /// An event that only informs was accepted.
    Notified,
    /// The game was called off; no further turn will be run.
    Stopped,
    /// An unrecognized message was recorded and otherwise ignored.
    Ignored,
    /// The frame was no text frame and is none of the protocol's business.
    Skipped,
    /// The channel ended, and the connection with it.
    Closed(TransportError),
}

/// The state of one connection.
pub struct Session {
    phase: Phase,
    message_log: Vec<MessageType>,
    bot_info: BotInfo,
    team_info: Option<TeamInfo>,
    is_droid: bool,
    server_secret: String,
}

/// What a [`Session`] stands for. The log holds every message that was read
/// from a frame, in the order of arrival.
pub ghost struct SessionModel {
    pub phase: Phase,
    pub log: Seq<MessageModel>,
    pub bot_info: BotInfoModel,
    pub team_info: Option<TeamInfoModel>,
    pub is_droid: bool,
    pub server_secret: Seq<char>,
}

/// The messages that a list of messages stands for.
pub open spec fn messages_model(log: Seq<MessageType>) -> Seq<MessageModel> {
    Seq::new(log.len(), |i: int| log[i].model())
}

/// The frame that carries an intent.
pub open spec fn intent_text(intent: BotIntentModel) -> Seq<char> {
    encoded(MessageModel::BotIntent(intent))
}

/// Whether a frame carries some intent.
pub open spec fn is_intent_frame(frame: Seq<char>) -> bool {
    exists|intent: BotIntentModel| frame == #[trigger] intent_text(intent)
}

/// The messages read from a run of frames: one for each frame that holds a
/// message, in the order of the frames.
pub open spec fn accepted(texts: Seq<Seq<char>>) -> Seq<MessageModel>
    decreases texts.len(),
{
    if texts.len() == 0 {
        Seq::empty()
    } else {
        match decoded(texts.last()) {
            Some(m) => accepted(texts.drop_last()).push(m),
            None => accepted(texts.drop_last()),
        }
    }
}

/// The shapes of a run of messages.
pub open spec fn kinds(messages: Seq<MessageModel>) -> Seq<Option<Shape>> {
    Seq::new(messages.len(), |i: int| messages[i].shape())
}

impl SessionModel {
    /// The session after a text frame. A frame that holds no message changes
    /// nothing; a message is recorded, whatever the table says of it, and
    /// moves the phase as the table says.
    pub open spec fn after(self, text: Seq<char>) -> SessionModel {
        match decoded(text) {
            Some(m) => SessionModel {
                phase: transition(self.phase, m.shape()).0,
                log: self.log.push(m),
                ..self
            },
            None => self,
        }
    }

    /// The session after a run of text frames.
    pub open spec fn after_all(self, texts: Seq<Seq<char>>) -> SessionModel
        decreases texts.len(),
    {
        if texts.len() == 0 {
            self
        } else {
            self.after_all(texts.drop_last()).after(texts.last())
        }
    }

    /// The session once the channel has ended or the application has stopped
    /// it.
    pub open spec fn ended(self) -> SessionModel {
        SessionModel { phase: Phase::Terminated, ..self }
    }

    /// The frame that answers a server's handshake: the bot's own record, the
    /// session the server named and the secret, as a bot handshake.
    pub open spec fn handshake(self, server: ServerHandshakeModel) -> Seq<char> {
        encoded(
            MessageModel::BotHandshake(
                BotHandshake::answer(
                    server.session_id,
                    self.bot_info,
                    self.team_info,
                    self.is_droid,
                    self.server_secret,
                ),
            ),
        )
    }

    /// Whether an outcome is the one that a text frame has in this session.
    pub open spec fn answers(self, text: Seq<char>, r: Outcome) -> bool {
        match decoded(text) {
            None => r == Outcome::Dropped(DecodeError::Malformed),
            Some(m) => match transition(self.phase, m.shape()).1 {
                Action::SendHandshake => {
                    &&& r matches Outcome::Handshake(frame)
                    &&& m matches MessageModel::ServerHandshake(server)
                    &&& frame@ == self.handshake(server)
                },
                Action::RunTick => r matches Outcome::Intent(frame) && is_intent_frame(frame@),
                Action::Notify => r == Outcome::Notified,
                Action::Stop => r == Outcome::Stopped,
                Action::Ignore => r == Outcome::Ignored,
                Action::Reject => r == Outcome::Refused(ProtocolError::UnexpectedMessage),
            },
        }
    }

    /// Every frame that holds a message adds one entry to the log, and no
    /// other frame adds any: the log after a run of frames is the log before
    /// it followed by the messages read from the run.
    pub proof fn lemma_log_grows_by_what_was_accepted(self, texts: Seq<Seq<char>>)
        ensures
            self.after_all(texts).log == self.log + accepted(texts),
            accepted(texts).len() <= texts.len(),
        decreases texts.len(),
    {
        if texts.len() > 0 {
            self.lemma_log_grows_by_what_was_accepted(texts.drop_last());
            assert(self.after_all(texts).log =~= self.log + accepted(texts));
        } else {
            assert(self.log =~= self.log + accepted(texts));
        }
    }

    /// One frame adds one entry if it holds a message and none if it does
    /// not.
    pub proof fn lemma_one_entry_for_one_frame(self, text: Seq<char>)
        ensures
            decoded(text) is Some ==> self.after(text).log == self.log.push(decoded(text)->0),
            decoded(text) is None ==> self.after(text) == self,
    {
    }

    /// The phase after a run of frames is the one that the table gives for
    /// the messages read from the run.
    pub proof fn lemma_phase_follows_table(self, texts: Seq<Seq<char>>)
        ensures
            self.after_all(texts).phase == phase_after(self.phase, kinds(accepted(texts))),
        decreases texts.len(),
    {
        if texts.len() > 0 {
            self.lemma_phase_follows_table(texts.drop_last());
            match decoded(texts.last()) {
                Some(m) => {
                    let all = kinds(accepted(texts));
                    assert(all.drop_last() =~= kinds(accepted(texts.drop_last())));
                    assert(all.last() == m.shape());
                },
                None => {},
            }
        }
    }

    /// Before the server's handshake every other message is refused: nothing
    /// is sent, no intent either, and the connection keeps waiting.
    pub proof fn lemma_refused_before_handshake(self, text: Seq<char>, r: Outcome)
        requires
            self.phase == Phase::AwaitingHandshake,
            decoded(text) matches Some(m) && m.shape() != Some(Shape::ServerHandshake),
            self.answers(text, r),
        ensures
            r == Outcome::Refused(ProtocolError::UnexpectedMessage),
            self.after(text).phase == Phase::AwaitingHandshake,
    {
    }

    /// Once the handshake is done no message is answered with the bot's
    /// handshake again, another server handshake neither.
    pub proof fn lemma_handshake_not_repeated(self, text: Seq<char>, r: Outcome)
        requires
            self.phase != Phase::AwaitingHandshake,
            self.answers(text, r),
        ensures
            !(r is Handshake),
            self.after(text).phase != Phase::AwaitingHandshake,
    {
    }

    /// A tick that an active connection is sent is answered with an intent,
    /// and nothing else is.
    pub proof fn lemma_intent_answers_tick(self, text: Seq<char>, r: Outcome)
        requires
            self.answers(text, r),
        ensures
            r is Intent <==> (self.phase == Phase::Active && decoded(text) is Some && decoded(
                text,
            )->0 is TickEventForBot),
            r is Intent ==> self.after(text).phase == Phase::Active,
    {
    }

    /// A run of frames can be taken in two parts.
    pub proof fn lemma_after_all_split(self, texts: Seq<Seq<char>>, i: int)
        requires
            0 <= i <= texts.len(),
        ensures
            self.after_all(texts) == self.after_all(texts.take(i)).after_all(texts.skip(i)),
        decreases texts.len() - i,
    {
        if i == texts.len() {
            assert(texts.take(i) =~= texts);
            assert(texts.skip(i).len() == 0);
        } else {
            let shorter = texts.drop_last();
            self.lemma_after_all_split(shorter, i);
            assert(shorter.take(i) =~= texts.take(i));
            assert(texts.skip(i).drop_last() =~= shorter.skip(i));
            assert(texts.skip(i).last() == texts.last());
        }
    }

    /// A connection that is past the handshake stays past it.
    pub proof fn lemma_past_handshake_stays(self, texts: Seq<Seq<char>>)
        requires
            self.phase != Phase::AwaitingHandshake,
        ensures
            self.after_all(texts).phase != Phase::AwaitingHandshake,
        decreases texts.len(),
    {
        if texts.len() > 0 {
            self.lemma_past_handshake_stays(texts.drop_last());
        }
    }

    /// One bot handshake is sent on a connection, and no more: if a frame of
    /// a run was answered with the handshake, no later frame of the run is.
    pub proof fn lemma_one_handshake_per_connection(
        self,
        texts: Seq<Seq<char>>,
        i: int,
        j: int,
        first: Outcome,
        later: Outcome,
    )
        requires
            0 <= i < j < texts.len(),
            self.after_all(texts.take(i)).answers(texts[i], first),
            first is Handshake,
            self.after_all(texts.take(j)).answers(texts[j], later),
        ensures
            !(later is Handshake),
    {
        let head = texts.take(i + 1);
        assert(head.drop_last() =~= texts.take(i));
        assert(head.last() == texts[i]);
        let answered = self.after_all(head);
        assert(answered.phase == Phase::Active);
        self.lemma_after_all_split(texts.take(j), i + 1);
        assert(texts.take(j).take(i + 1) =~= head);
        answered.lemma_past_handshake_stays(texts.take(j).skip(i + 1));
        self.after_all(texts.take(j)).lemma_handshake_not_repeated(texts[j], later);
    }

    /// Every tick of a run of ticks is answered with an intent, in the order
    /// of arrival: each frame of the run is answered with one, the log grows
    /// by one entry for each, and the connection stays active.
    pub proof fn lemma_every_tick_is_answered(self, texts: Seq<Seq<char>>)
        requires
            self.phase == Phase::Active,
            forall|i: int|
                0 <= i < texts.len() ==> decoded(#[trigger] texts[i]) is Some && decoded(
                    texts[i],
                )->0 is TickEventForBot,
        ensures
            self.after_all(texts).phase == Phase::Active,
            accepted(texts).len() == texts.len(),
            forall|i: int, r: Outcome|
                0 <= i < texts.len() && #[trigger] self.after_all(texts.take(i)).answers(
                    texts[i],
                    r,
                ) ==> r is Intent,
        decreases texts.len(),
    {
        if texts.len() > 0 {
            let shorter = texts.drop_last();
            self.lemma_every_tick_is_answered(shorter);
            assert(decoded(texts[texts.len() - 1]) is Some);
            assert forall|i: int, r: Outcome|
                0 <= i < texts.len() && #[trigger] self.after_all(texts.take(i)).answers(
                    texts[i],
                    r,
                ) implies r is Intent by {
                if i < texts.len() - 1 {
                    assert(texts.take(i) =~= shorter.take(i));
                    assert(texts[i] == shorter[i]);
                } else {
                    assert(texts.take(i) =~= shorter);
                    assert(decoded(texts[i]) is Some);
                }
            }
        }
    }

    /// No turn is run before the handshake is done: on a connection that
    /// started out waiting, a frame that is answered with an intent comes after
    /// a frame that was answered with the bot's handshake.
    pub proof fn lemma_handshake_before_any_intent(
        self,
        texts: Seq<Seq<char>>,
        j: int,
        r: Outcome,
    ) -> (i: int)
        requires
            self.phase == Phase::AwaitingHandshake,
            0 <= j < texts.len(),
            self.after_all(texts.take(j)).answers(texts[j], r),
            r is Intent,
        ensures
            0 <= i < j,
            decoded(texts[i]) is Some,
            transition(self.after_all(texts.take(i)).phase, decoded(texts[i])->0.shape()).1
                == Action::SendHandshake,
    {
        self.lemma_left_waiting_by_handshake(texts, j)
    }

    /// A connection leaves the wait for the handshake only by answering it.
    pub proof fn lemma_left_waiting_by_handshake(self, texts: Seq<Seq<char>>, n: int) -> (i: int)
        requires
            self.phase == Phase::AwaitingHandshake,
            0 <= n <= texts.len(),
            self.after_all(texts.take(n)).phase != Phase::AwaitingHandshake,
        ensures
            0 <= i < n,
            decoded(texts[i]) is Some,
            transition(self.after_all(texts.take(i)).phase, decoded(texts[i])->0.shape()).1
                == Action::SendHandshake,
        decreases n,
    {
        assert(n > 0) by {
            if n == 0 {
                assert(texts.take(0).len() == 0);
            }
        }
        let before = self.after_all(texts.take(n - 1));
        assert(texts.take(n).drop_last() =~= texts.take(n - 1));
        assert(texts.take(n).last() == texts[n - 1]);
        if before.phase == Phase::AwaitingHandshake {
            n - 1
        } else {
            self.lemma_left_waiting_by_handshake(texts, n - 1)
        }
    }

    /// A connection that is over stays over, and nothing is sent on it.
    pub proof fn lemma_nothing_after_the_end(self, text: Seq<char>, r: Outcome)
        requires
            self.phase == Phase::Terminated,
            self.answers(text, r),
        ensures
            self.after(text).phase == Phase::Terminated,
            !(r is Handshake),
            !(r is Intent),
    {
    }

    /// Nothing but the log and the phase ever changes.
    pub proof fn lemma_identity_is_kept(self, texts: Seq<Seq<char>>)
        ensures
            self.after_all(texts).bot_info == self.bot_info,
            self.after_all(texts).team_info == self.team_info,
            self.after_all(texts).is_droid == self.is_droid,
            self.after_all(texts).server_secret == self.server_secret,
        decreases texts.len(),
    {
        if texts.len() > 0 {
            self.lemma_identity_is_kept(texts.drop_last());
        }
    }
}

impl View for Session {
    type V = SessionModel;

    closed spec fn view(&self) -> SessionModel {
        SessionModel {
            phase: self.phase,
            log: messages_model(self.message_log@),
            bot_info: self.bot_info.model(),
            team_info: opt_model(self.team_info),
            is_droid: self.is_droid,
            server_secret: self.server_secret@,
        }
    }
}

impl Session {
    /// A connection that has accepted nothing yet.
    pub fn new(
        bot_info: BotInfo,
        team_info: Option<TeamInfo>,
        is_droid: bool,
        server_secret: String,
    ) -> (s: Session)
        ensures
            s@ == (SessionModel {
                phase: Phase::AwaitingHandshake,
                log: Seq::empty(),
                bot_info: bot_info.model(),
                team_info: opt_model(team_info),
                is_droid,
                server_secret: server_secret@,
            }),
    {
        let s = Session {
            phase: Phase::AwaitingHandshake,
            message_log: Vec::new(),
            bot_info,
            team_info,
            is_droid,
            server_secret,
        };
        assert(messages_model(s.message_log@) =~= Seq::empty());
        s
    }

    /// The phase the connection is in.
    pub fn phase(&self) -> (p: Phase)
        ensures
            p == self@.phase,
    {
        self.phase
    }

    /// Whether the connection is over.
    pub fn is_terminated(&self) -> (r: bool)
        ensures
            r == (self@.phase == Phase::Terminated),
    {
        match self.phase {
            Phase::Terminated => true,
            _ => false,
        }
    }

    /// The messages accepted so far, in the order of arrival.
    pub fn message_log(&self) -> (log: &Vec<MessageType>)
        ensures
            messages_model(log@) == self@.log,
    {
        &self.message_log
    }

    /// The frame that carries an intent.
    pub fn intent_frame(intent: BotIntent) -> (frame: String)
        ensures
            frame@ == intent_text(intent.model()),
            is_intent_frame(frame@),
    {
        let frame = encode(MessageType::BotIntent(intent));
        assert(frame@ == intent_text(intent.model()));
        frame
    }

    /// The frame that answers a server's handshake.
    pub fn handshake_frame(&self, server: &ServerHandshake) -> (frame: String)
        ensures
            frame@ == self@.handshake(server.model()),
    {
        let info = duplicate(&self.bot_info);
        let team = match &self.team_info {
            Some(team) => Some(duplicate(team)),
            None => None,
        };
        let handshake = BotHandshake::from_bot_info(
            &server.session_id,
            info,
            team,
            self.is_droid,
            self.server_secret.clone(),
        );
        encode(MessageType::BotHandshake(handshake))
    }

    /// Takes one text frame through the cycle: read it, look the message up
    /// in the table, let the bot decide where a turn is due, and record the
    /// message. The outcome holds the frame to send, if there is one.
    ///
    /// The bot is asked only for a tick that an active connection accepts: its
    /// `tick` is called once, with the tick that was read, and the frame that
    /// comes out carries the intent it returned. In every other case the bot
    /// is left alone.
    pub fn on_text<T: BotHandler>(&mut self, bot: &mut T, text: &str) -> (r: Outcome)
        ensures
            final(self)@ == old(self)@.after(text@),
            old(self)@.answers(text@, r),
            !(r is Intent) ==> *final(bot) == *old(bot),
            r matches Outcome::Intent(frame) ==> exists|
                asked: &mut T,
                tick: TickEventForBot,
                intent: BotIntent,
            |
                {
                    &&& *asked == *old(bot)
                    &&& *final(asked) == *final(bot)
                    &&& decoded(text@) == Some(MessageModel::TickEventForBot(tick.model()))
                    &&& #[trigger] call_ensures(T::tick, (asked, &tick), intent)
                    &&& frame@ == intent_text(intent.model())
                },
    {
        let message = match decode(text) {
            Ok(message) => message,
            Err(e) => {
                return Outcome::Dropped(e);
            },
        };
        let (next, action) = step(self.phase, message.shape());
        let outcome = match action {
            Action::SendHandshake => match &message {
                MessageType::ServerHandshake(server) => Outcome::Handshake(
                    self.handshake_frame(server),
                ),
                _ => vstd::pervasive::unreached(),
            },
            Action::RunTick => match &message {
                MessageType::TickEventForBot(tick) => {
                    let intent = bot.tick(tick);
                    Outcome::Intent(Session::intent_frame(intent))
                },
                _ => vstd::pervasive::unreached(),
            },
            Action::Notify => Outcome::Notified,
            Action::Stop => Outcome::Stopped,
            Action::Ignore => Outcome::Ignored,
            Action::Reject => Outcome::Refused(ProtocolError::UnexpectedMessage),
        };
        let ghost before = self.message_log@;
        let ghost added = message.model();
        self.phase = next;
        self.message_log.push(message);
        assert(messages_model(self.message_log@) =~= messages_model(before).push(added));
        outcome
    }

    /// Takes one frame of any kind. A text frame goes through the cycle; a
    /// close frame ends the connection; any other frame is passed over.
    pub fn on_frame<T: BotHandler>(&mut self, bot: &mut T, frame: &Frame) -> (r: Outcome)
        ensures
            match *frame {
                Frame::Text(text) => {
                    &&& final(self)@ == old(self)@.after(text@)
                    &&& old(self)@.answers(text@, r)
                },
                Frame::Close => {
                    &&& final(self)@ == old(self)@.ended()
                    &&& r == Outcome::Closed(TransportError::ConnectionClosed)
                },
                _ => final(self)@ == old(self)@ && r == Outcome::Skipped,
            },
            !(r is Intent) ==> *final(bot) == *old(bot),
            r matches Outcome::Intent(sent) ==> exists|
                asked: &mut T,
                tick: TickEventForBot,
                intent: BotIntent,
            |
                {
                    &&& *asked == *old(bot)
                    &&& *final(asked) == *final(bot)
                    &&& *frame matches Frame::Text(text) && decoded(text@) == Some(
                        MessageModel::TickEventForBot(tick.model()),
                    )
                    &&& #[trigger] call_ensures(T::tick, (asked, &tick), intent)
                    &&& sent@ == intent_text(intent.model())
                },
    {
        match frame {
            Frame::Text(text) => self.on_text(bot, text.as_str()),
            Frame::Close => {
                self.phase = Phase::Terminated;
                Outcome::Closed(TransportError::ConnectionClosed)
            },
            _ => Outcome::Skipped,
        }
    }

    /// The channel failed: the connection is over.
    pub fn on_failure(&mut self) -> (r: Outcome)
        ensures
            final(self)@ == old(self)@.ended(),
            r == Outcome::Closed(TransportError::IoFailure),
    {
        self.phase = Phase::Terminated;
        Outcome::Closed(TransportError::IoFailure)
    }

    /// The application stops the connection.
    pub fn stop(&mut self)
        ensures
            final(self)@ == old(self)@.ended(),
    {
        self.phase = Phase::Terminated;
    }
}

} // verus!
