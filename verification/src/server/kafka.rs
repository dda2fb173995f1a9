//! The announcements that go out on the message bus. They are sent and
//! forgotten: nothing waits for the bus, and nothing is read from it.

use vstd::prelude::*;
use vstd::string::*;

verus! {

/// One announcement: the topic it goes out on, and its text.
#[derive(Debug, PartialEq, Eq)]
pub struct KafkaMessage {
    pub topic: String,
    pub message: String,
}

pub struct KafkaMessageView {
    pub topic: Seq<char>,
    pub message: Seq<char>,
}

impl View for KafkaMessage {
    type V = KafkaMessageView;

    open spec fn view(&self) -> KafkaMessageView {
        KafkaMessageView { topic: self.topic@, message: self.message@ }
    }
}

/// What is announced.
#[derive(Clone, Copy, Debug, PartialEq, Eq, Structural)]
pub enum Change {
    Created,
    Updated,
    Deleted,
}

/// How many announcements may wait to be sent.
pub const QUEUE_CAPACITY: usize = 100;

/// The topic on which a change is announced.
pub open spec fn topic_view(change: Change) -> Seq<char> {
    match change {
        Change::Created => "ponglehub.auth.create-user"@,
        Change::Updated => "ponglehub.auth.update-user"@,
        Change::Deleted => "ponglehub.auth.delete-user"@,
    }
}

/// The announcement of a change: its topic, and as its text the lead
/// followed by the name.
pub open spec fn notice_view(change: Change, lead: Seq<char>, name: Seq<char>) -> KafkaMessageView {
    KafkaMessageView { topic: topic_view(change), message: lead + name }
}

/// The topic on which a change is announced.
pub fn topic(change: Change) -> (r: &'static str)
    ensures
        r@ == topic_view(change),
{
    match change {
        Change::Created => "ponglehub.auth.create-user",
        Change::Updated => "ponglehub.auth.update-user",
        Change::Deleted => "ponglehub.auth.delete-user",
    }
}

/// The key under which every announcement is sent.
pub fn record_key() -> (r: &'static str)
    ensures
        r@ == "Key: 1"@,
{
    "Key: 1"
}

/// The announcement of a change.
pub fn notice(change: Change, lead: &str, name: &str) -> (r: KafkaMessage)
    ensures
        r@ == notice_view(change, lead@, name@),
{
    let mut message = lead.to_owned();
    message.append(name);
    KafkaMessage { topic: topic(change).to_owned(), message }
}

} // verus!
