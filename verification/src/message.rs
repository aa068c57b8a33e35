//! A message as fetched from the remote store, and equality by value.

use vstd::prelude::*;
use crate::ids::{ConversationId, MessageId, ParticipantId, same_reply};

verus! {

/// One message of a conversation. Nothing in this crate changes a message
/// after it has been handed over.
#[derive(Debug)]
pub struct Message {
    pub id: MessageId,
    pub conversation: ConversationId,
    pub sender: ParticipantId,
    /// When it was sent, in milliseconds of the store's clock.
    pub sent_at: u64,
    /// The text, line by line.
    pub body: Vec<String>,
    /// The names of the attached files.
    pub attachments: Vec<String>,
    pub reply_to: Option<MessageId>,
}

/// What a message is, as a mathematical value.
pub struct MessageView {
    pub id: MessageId,
    pub conversation: ConversationId,
    pub sender: ParticipantId,
    pub sent_at: u64,
    pub body: Seq<Seq<char>>,
    pub attachments: Seq<Seq<char>>,
    pub reply_to: Option<MessageId>,
}

/// The texts of a list of strings.
pub open spec fn texts(lines: Seq<String>) -> Seq<Seq<char>> {
    Seq::new(lines.len(), |i: int| lines[i]@)
}

/// The values of a list of messages.
pub open spec fn values(messages: Seq<Message>) -> Seq<MessageView> {
    Seq::new(messages.len(), |i: int| messages[i]@)
}

impl View for Message {
    type V = MessageView;

    open spec fn view(&self) -> MessageView {
        MessageView {
            id: self.id,
            conversation: self.conversation,
            sender: self.sender,
            sent_at: self.sent_at,
            body: texts(self.body@),
            attachments: texts(self.attachments@),
            reply_to: self.reply_to,
        }
    }
}

/// Whether two lists of strings hold the same texts in the same order.
pub fn same_texts(a: &Vec<String>, b: &Vec<String>) -> (same: bool)
    ensures
        same == (texts(a@) == texts(b@)),
{
    if a.len() != b.len() {
        assert(texts(a@).len() != texts(b@).len());
        return false;
    }
    let mut i: usize = 0;
    while i < a.len()
        invariant
            a.len() == b.len(),
            i <= a.len(),
            forall|k: int| 0 <= k < i ==> a@[k]@ == b@[k]@,
        decreases a.len() - i,
    {
        if a[i] != b[i] {
            assert(texts(a@)[i as int] != texts(b@)[i as int]);
            return false;
        }
        i += 1;
    }
    assert(texts(a@) =~= texts(b@));
    true
}

/// A copy of a list of strings.
pub fn copy_texts(a: &Vec<String>) -> (copy: Vec<String>)
    ensures
        texts(copy@) == texts(a@),
{
    let mut out: Vec<String> = Vec::new();
    let mut i: usize = 0;
    while i < a.len()
        invariant
            i <= a.len(),
            out.len() == i,
            forall|k: int| 0 <= k < i ==> out@[k]@ == a@[k]@,
        decreases a.len() - i,
    {
        out.push(a[i].clone());
        i += 1;
    }
    assert(texts(out@) =~= texts(a@));
    out
}

impl Message {
    /// Equality by value: every field equal, texts compared character by
    /// character.
    pub fn same(&self, other: &Message) -> (same: bool)
        ensures
            same == (self@ == other@),
    {
        self.id == other.id && self.conversation == other.conversation
            && self.sender == other.sender && self.sent_at == other.sent_at
            && same_reply(self.reply_to, other.reply_to) && same_texts(&self.body, &other.body)
            && same_texts(&self.attachments, &other.attachments)
    }

    /// A copy with the same value.
    pub fn copy(&self) -> (copy: Message)
        ensures
            copy@ == self@,
    {
        Message {
            id: self.id,
            conversation: self.conversation,
            sender: self.sender,
            sent_at: self.sent_at,
            body: copy_texts(&self.body),
            attachments: copy_texts(&self.attachments),
            reply_to: self.reply_to,
        }
    }
}

/// Whether two lists of messages are equal by value: the same messages in the
/// same order.
pub fn same_messages(a: &Vec<Message>, b: &Vec<Message>) -> (same: bool)
    ensures
        same == (values(a@) == values(b@)),
{
    if a.len() != b.len() {
        assert(values(a@).len() != values(b@).len());
        return false;
    }
    let mut i: usize = 0;
    while i < a.len()
        invariant
            a.len() == b.len(),
            i <= a.len(),
            forall|k: int| 0 <= k < i ==> a@[k]@ == b@[k]@,
        decreases a.len() - i,
    {
        if !a[i].same(&b[i]) {
            assert(values(a@)[i as int] != values(b@)[i as int]);
            return false;
        }
        i += 1;
    }
    assert(values(a@) =~= values(b@));
    true
}

} // verus!
