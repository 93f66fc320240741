use vstd::prelude::*;
use vstd::string::*;
use crate::text::{trim_str, trimmed};

verus! {

/// A frame that parsed as the structured message
/// `{"type": ..., "content"?: ..., "device"?: ...}`.
pub struct WireMessage {
    pub msg_type: String,
    pub content: Option<String>,
    pub device: Option<String>,
}

/// A structured message as values.
pub struct MessageModel {
    pub kind: Seq<char>,
    pub content: Option<Seq<char>>,
    pub device: Option<Seq<char>>,
}

pub open spec fn opt_view(o: Option<String>) -> Option<Seq<char>> {
    match o {
        Some(s) => Some(s@),
        None => None,
    }
}

impl View for WireMessage {
    type V = MessageModel;

    open spec fn view(&self) -> MessageModel {
        MessageModel { kind: self.msg_type@, content: opt_view(self.content), device: opt_view(self.device) }
    }
}

/// What a session does in answer to one event.
pub enum Reaction {
    /// Type this text at the cursor.
    Deliver(String),
    /// A peer announced itself under this device name; only logged.
    Register(String),
    /// Nothing to do.
    Ignore,
    /// The session is over.
    End,
}

/// A reaction as values.
pub enum ReactionModel {
    Deliver(Seq<char>),
    Register(Seq<char>),
    Ignore,
    End,
}

impl View for Reaction {
    type V = ReactionModel;

    open spec fn view(&self) -> ReactionModel {
        match self {
            Reaction::Deliver(s) => ReactionModel::Deliver(s@),
            Reaction::Register(s) => ReactionModel::Register(s@),
            Reaction::Ignore => ReactionModel::Ignore,
            Reaction::End => ReactionModel::End,
        }
    }
}

/// Delivers `text` trimmed, unless nothing is left of it.
pub open spec fn deliver_trimmed(text: Seq<char>) -> ReactionModel {
    if trimmed(text).len() > 0 {
        ReactionModel::Deliver(trimmed(text))
    } else {
        ReactionModel::Ignore
    }
}

/// The reaction to a text frame `raw`, given what it parsed to (`None`
/// where it is no structured message). A structured `text` message
/// delivers its content; a `register` message is only logged, with an
/// empty name where it gave none; any other frame, a structured message of
/// another type included, is unrecognised and delivered as raw text.
pub open spec fn route_of(raw: Seq<char>, parsed: Option<MessageModel>) -> ReactionModel {
    match parsed {
        Some(m) => if m.kind == "text"@ {
            match m.content {
                Some(c) => deliver_trimmed(c),
                None => ReactionModel::Ignore,
            }
        } else if m.kind == "register"@ {
            match m.device {
                Some(d) => ReactionModel::Register(d),
                None => ReactionModel::Register(Seq::empty()),
            }
        } else {
            deliver_trimmed(raw)
        },
        None => deliver_trimmed(raw),
    }
}

pub open spec fn parsed_view(parsed: Option<WireMessage>) -> Option<MessageModel> {
    match parsed {
        Some(m) => Some(m@),
        None => None,
    }
}

fn deliver_text(text: &str) -> (r: Reaction)
    ensures
        r@ == deliver_trimmed(text@),
{
    let t = trim_str(text);
    if t.is_empty() {
        Reaction::Ignore
    } else {
        Reaction::Deliver(String::from_str(t))
    }
}

/// Decides what to do with a text frame `raw`, given what it parsed to.
pub fn route_frame(raw: &str, parsed: Option<WireMessage>) -> (r: Reaction)
    ensures
        r@ == route_of(raw@, parsed_view(parsed)),
{
    match parsed {
        Some(m) => {
            if m.msg_type == String::from_str("text") {
                match m.content {
                    Some(c) => deliver_text(c.as_str()),
                    None => Reaction::Ignore,
                }
            } else if m.msg_type == String::from_str("register") {
                match m.device {
                    Some(d) => Reaction::Register(d),
                    None => Reaction::Register(String::new()),
                }
            } else {
                deliver_text(raw)
            }
        },
        None => deliver_text(raw),
    }
}

} // verus!
