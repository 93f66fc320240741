use vstd::prelude::*;
use crate::protocol::{parsed_view, route_frame, route_of, Reaction, ReactionModel, WireMessage};
use crate::text::trimmed;

verus! {

/// The states of one accepted channel.
#[derive(Clone, Copy, Debug, PartialEq, Eq, Structural)]
pub enum SessionPhase {
    /// The protocol upgrade is under way.
    Handshaking,
    /// Frames are read and acted on.
    Open,
    /// The channel is over.
    Closed,
}

/// What happens on a channel.
pub enum Event {
    /// The protocol upgrade ended: accepted (`true`) or rejected.
    Handshake(bool),
    /// A text frame, and what it parsed to (`None` where it is no
    /// structured message).
    Text(String, Option<WireMessage>),
    /// The peer closed the channel.
    Close,
    /// The transport failed.
    TransportError,
    /// Any other frame (binary, ping, pong).
    Other,
}

/// One accepted channel, from its handshake to its end.
pub struct Session {
    pub phase: SessionPhase,
}

impl Session {
    /// The next state and the reaction to event `e` in state `self`.
    pub open spec fn next(self, e: Event) -> (Session, ReactionModel) {
        match self.phase {
            SessionPhase::Handshaking => match e {
                Event::Handshake(true) => (Session { phase: SessionPhase::Open }, ReactionModel::Ignore),
                Event::Handshake(false) => (
                    Session { phase: SessionPhase::Closed },
                    ReactionModel::End,
                ),
                _ => (self, ReactionModel::Ignore),
            },
            SessionPhase::Open => match e {
                Event::Text(raw, parsed) => (self, route_of(raw@, parsed_view(parsed))),
                Event::Close => (Session { phase: SessionPhase::Closed }, ReactionModel::End),
                Event::TransportError => (
                    Session { phase: SessionPhase::Closed },
                    ReactionModel::End,
                ),
                _ => (self, ReactionModel::Ignore),
            },
            SessionPhase::Closed => (self, ReactionModel::End),
        }
    }

    /// A session whose handshake has not ended yet.
    pub fn new() -> (r: Session)
        ensures
            r.phase == SessionPhase::Handshaking,
    {
        Session { phase: SessionPhase::Handshaking }
    }

    /// Takes one event and returns what to do about it.
    pub fn handle(&mut self, e: Event) -> (r: Reaction)
        ensures
            (*final(self), r@) == old(self).next(e),
    {
        match self.phase {
            SessionPhase::Handshaking => match e {
                Event::Handshake(accepted) => {
                    if accepted {
                        self.phase = SessionPhase::Open;
                        Reaction::Ignore
                    } else {
                        self.phase = SessionPhase::Closed;
                        Reaction::End
                    }
                },
                _ => Reaction::Ignore,
            },
            SessionPhase::Open => match e {
                Event::Text(raw, parsed) => route_frame(raw.as_str(), parsed),
                Event::Close => {
                    self.phase = SessionPhase::Closed;
                    Reaction::End
                },
                Event::TransportError => {
                    self.phase = SessionPhase::Closed;
                    Reaction::End
                },
                _ => Reaction::Ignore,
            },
            SessionPhase::Closed => Reaction::End,
        }
    }

    /// The session is over.
    pub fn is_closed(&self) -> (r: bool)
        ensures
            r == (self.phase == SessionPhase::Closed),
    {
        self.phase == SessionPhase::Closed
    }
}

/// A frame that is no structured message is delivered exactly as a
/// structured `text` message with the frame as its content would be.
pub proof fn lemma_unstructured_frame_as_text(s: Session, raw: String, other: String, m: WireMessage)
    requires
        m.msg_type@ == "text"@,
        m.content == Some(raw),
    ensures
        s.next(Event::Text(raw, None)).1 == s.next(Event::Text(other, Some(m))).1,
        s.phase == SessionPhase::Open && trimmed(raw@).len() > 0 ==> s.next(
            Event::Text(raw, None),
        ).1 == ReactionModel::Deliver(trimmed(raw@)),
{
}

/// A structured message of a type other than `text` or `register` is
/// unrecognised: the frame is handled exactly as a bare frame would be.
pub proof fn lemma_unrecognised_type_as_raw(s: Session, raw: String, m: WireMessage)
    requires
        m.msg_type@ != "text"@,
        m.msg_type@ != "register"@,
    ensures
        s.next(Event::Text(raw, Some(m))).1 == s.next(Event::Text(raw, None)).1,
{
}

/// A `register` message never leads to a delivery.
pub proof fn lemma_register_never_delivers(s: Session, raw: String, m: WireMessage)
    requires
        m.msg_type@ == "register"@,
    ensures
        !(s.next(Event::Text(raw, Some(m))).1 is Deliver),
{
    reveal_strlit("register");
    reveal_strlit("text");
    assert("register"@[0] != "text"@[0]);
}

/// Text that is empty or only white space, as the content of a structured
/// `text` message or as a bare frame, never leads to a delivery.
pub proof fn lemma_blank_text_never_delivers(s: Session, raw: String, parsed: Option<WireMessage>)
    requires
        match parsed {
            Some(m) => m.msg_type@ == "text"@ && m.content is Some && trimmed(
                m.content->0@,
            ).len() == 0,
            None => trimmed(raw@).len() == 0,
        },
    ensures
        !(s.next(Event::Text(raw, parsed)).1 is Deliver),
{
}

} // verus!
