use vstd::prelude::*;
use vstd::string::*;
use crate::corpus::{next_match, App};
use crate::event::EventView;
use crate::span::span_phrase;
use crate::text::str_strip_prefix;

verus! {

/// Milliseconds to wait before a reply is sent, so that the chat service
/// does not take the replies for a flood. A fixed pace, not a computed one.
pub const REPLY_DELAY_MILLIS: u64 = 500;

/// A text to send, and how long to wait before sending it.
pub struct Reply {
    pub text: String,
    pub delay_millis: u64,
}

/// What the chat service handed over: a message, or word that reading or
/// sending failed, with the service's account of the failure.
pub enum Inbound {
    Message(String),
    ReceiveFailed(String),
    SendFailed(String),
}

/// What to do next. After each of them the next message is awaited: no
/// failure ends the exchange, and a reply that could not be sent is not sent
/// again.
pub enum Action {
    /// Nothing to say.
    Wait,
    /// Send a reply once its delay has passed.
    Send(Reply),
    /// Tell the operator.
    Report(String),
}

/// The query that a chat message carries: what follows the command word and
/// one space, taken as it stands. A message that does not begin with the
/// command word and a space carries none.
pub open spec fn query_of(message: Seq<char>, command: Seq<char>) -> Option<Seq<char>> {
    if command.push(' ').is_prefix_of(message) {
        Some(message.skip(command.len() as int + 1))
    } else {
        None
    }
}

/// Seconds from `now` until `start`, for a start that is not before `now`.
pub open spec fn span_between(now: i64, start: i64) -> nat {
    (start - now) as nat
}

/// The reply that names an event and the time left until it starts.
pub open spec fn reply_text(title: Seq<char>, seconds: nat) -> Seq<char> {
    span_phrase(seconds) + " until "@ + title
}

/// The reply owed to a message that arrives at `now`, if one is owed: none
/// to a message without the command, none to a query without an answer.
pub open spec fn reply_to(events: Seq<EventView>, command: Seq<char>, message: Seq<char>, now: i64) -> Option<Seq<char>> {
    match query_of(message, command) {
        Some(query) => match next_match(events, query, now) {
            Some((title, start)) => Some(reply_text(title, span_between(now, start))),
            None => None,
        },
        None => None,
    }
}

/// Takes the query out of a chat message.
pub fn extract_query(message: &str, command: &str) -> (r: Option<String>)
    ensures
        match r {
            Some(query) => query_of(message@, command@) == Some(query@),
            None => query_of(message@, command@) is None,
        },
{
    let mut prefix = String::from_str(command);
    prefix.append(" ");
    proof {
        reveal_strlit(" ");
        assert(prefix@ =~= command@.push(' '));
    }
    match str_strip_prefix(message, prefix.as_str()) {
        Some(rest) => {
            assert(rest@ =~= message@.skip(command@.len() as int + 1));
            assert(prefix@.is_prefix_of(message@)) by {
                assert(message@.subrange(0, prefix@.len() as int) =~= prefix@);
            }
            Some(String::from_str(rest))
        },
        None => None,
    }
}

/// Seconds from `now` until `start`.
pub fn span_until(now: i64, start: i64) -> (r: u64)
    requires
        now <= start,
    ensures
        r == span_between(now, start),
{
    (start as i128 - now as i128) as u64
}

impl App {
    /// Decides what to say to a chat message that arrived at `now`. A message
    /// that begins with `command` and a space is a query; where an event
    /// answers it, the reply tells how long it is until that event starts.
    /// Every other message, and a query without an answer, gets no reply.
    pub fn respond(&self, command: &str, message: &str, now: i64) -> (r: Option<Reply>)
        ensures
            match r {
                Some(reply) => {
                    &&& reply_to(self@, command@, message@, now) == Some(reply.text@)
                    &&& reply.delay_millis == REPLY_DELAY_MILLIS
                },
                None => reply_to(self@, command@, message@, now) is None,
            },
            !command@.push(' ').is_prefix_of(message@) ==> r is None,
    {
        let query = match extract_query(message, command) {
            Some(query) => query,
            None => {
                return None;
            },
        };
        match self.search(query, now) {
            Some((title, start)) => {
                proof {
                    crate::laws::law_answer_is_an_event(self@, query@, now);
                }
                let mut text = App::format_duration(span_until(now, start));
                text.append(" until ");
                text.append(title.as_str());
                Some(Reply { text, delay_millis: REPLY_DELAY_MILLIS })
            },
            None => None,
        }
    }
}

impl App {
    /// Decides what follows from what the chat service handed over at `now`:
    /// a message is answered as `respond` says, a failure is put into a line
    /// for the operator.
    pub fn step(&self, command: &str, inbound: &Inbound, now: i64) -> (r: Action)
        ensures
            match *inbound {
                Inbound::Message(text) => match reply_to(self@, command@, text@, now) {
                    Some(answer) => r matches Action::Send(reply) && reply.text@ == answer
                        && reply.delay_millis == REPLY_DELAY_MILLIS,
                    None => r is Wait,
                },
                Inbound::ReceiveFailed(why) => r matches Action::Report(line) && line@ == "Error: "@
                    + why@,
                Inbound::SendFailed(why) => r matches Action::Report(line) && line@
                    == "Error while sending: "@ + why@,
            },
    {
        match inbound {
            Inbound::Message(text) => match self.respond(command, text.as_str(), now) {
                Some(reply) => Action::Send(reply),
                None => Action::Wait,
            },
            Inbound::ReceiveFailed(why) => {
                let mut line = String::from_str("Error: ");
                line.append(why.as_str());
                Action::Report(line)
            },
            Inbound::SendFailed(why) => {
                let mut line = String::from_str("Error while sending: ");
                line.append(why.as_str());
                Action::Report(line)
            },
        }
    }
}

} // verus!
