//! Chat messages and the lines the relay writes to clients.
//!
//! Every line a client sees has one of two shapes: the greeting
//! `"Your username is: <name>"`, sent once when a connection opens, and
//! `"<timestamp> <author>: <body>"` for history and live messages alike.

use vstd::prelude::*;
use vstd::string::StringExecFns;

use crate::decimal::{dec_digits, dec_int, i64_to_dec, lemma_dec_int_nonempty, u64_to_dec};

verus! {

/// One durably stored chat message. Immutable once created: it is written
/// by the inbound pump and removed only by the retention sweeper.
pub struct Message {
    /// Identifier the store assigned when the message was persisted.
    pub id: i64,
    /// Display name of the connection that sent the message.
    pub username: String,
    /// The message body.
    pub message: String,
    /// Seconds since the Unix epoch at the moment of receipt.
    pub created_at: i64,
}

impl Message {
    /// A message the relay accepted: empty bodies are filtered out by the
    /// inbound pump before anything is stored or broadcast.
    pub open spec fn valid(self) -> bool {
        self.message@.len() > 0
    }

    /// The broadcast line this message is shown as.
    pub open spec fn line_view(self) -> Seq<char> {
        spec_line(self.created_at as int, self.username@, self.message@)
    }

    /// Format this message the way the outbound pump sends it.
    pub fn render_line(&self) -> (s: String)
        ensures
            s@ == self.line_view(),
    {
        format_line(self.created_at, self.username.as_str(), self.message.as_str())
    }
}

impl Clone for Message {
    fn clone(&self) -> (m: Message)
        ensures
            m == *self,
    {
        Message {
            id: self.id,
            username: self.username.clone(),
            message: self.message.clone(),
            created_at: self.created_at,
        }
    }
}

/// The broadcast line for a message: `"<timestamp> <author>: <body>"`.
pub open spec fn spec_line(ts: int, author: Seq<char>, body: Seq<char>) -> Seq<char> {
    dec_int(ts) + seq![' '] + author + seq![':', ' '] + body
}

/// A broadcast line is never empty, whatever the message was:
/// it always starts with the timestamp's digits.
pub proof fn lemma_line_nonempty(ts: int, author: Seq<char>, body: Seq<char>)
    ensures
        spec_line(ts, author, body).len() > 0,
{
    lemma_dec_int_nonempty(ts);
}

/// Build the broadcast line for a message.
pub fn format_line(ts: i64, author: &str, body: &str) -> (s: String)
    ensures
        s@ == spec_line(ts as int, author@, body@),
{
    proof {
        reveal_strlit(" ");
        reveal_strlit(": ");
    }
    let mut s = i64_to_dec(ts);
    s.append(" ");
    s.append(author);
    s.append(": ");
    s.append(body);
    proof {
        assert(s@ =~= spec_line(ts as int, author@, body@));
    }
    s
}

/// The greeting sent exactly once, before any history line.
pub open spec fn spec_greeting(name: Seq<char>) -> Seq<char> {
    "Your username is: "@ + name
}

/// Build the greeting line announcing a connection's display name.
pub fn greeting_line(name: &str) -> (s: String)
    ensures
        s@ == spec_greeting(name@),
{
    let mut s = "Your username is: ".to_owned();
    s.append(name);
    proof {
        assert(s@ =~= spec_greeting(name@));
    }
    s
}

/// A generated guest display name, `"Guest"` followed by a number.
pub open spec fn spec_guest_name(n: nat) -> Seq<char> {
    "Guest"@ + dec_digits(n)
}

/// Build the display name for the `n`-th guest. The caller picks `n`;
/// the relay promises no uniqueness across connections.
pub fn guest_name(n: u64) -> (s: String)
    ensures
        s@ == spec_guest_name(n as nat),
{
    let mut s = "Guest".to_owned();
    s.append(u64_to_dec(n).as_str());
    proof {
        assert(s@ =~= spec_guest_name(n as nat));
    }
    s
}

} // verus!
