//! The mirror: the local, ordered copy of one conversation's messages.
//!
//! A mirror belongs to one conversation at a time. It never holds two
//! messages with the same id, nor a message of another conversation, and it
//! keeps messages in the order in which they arrived.

use vstd::prelude::*;
use crate::ids::{ConversationId, MessageId, same_context};
use crate::message::{Message, MessageView, values, same_messages};

verus! {

/// Whether some message of `kept` has the id `id`.
pub open spec fn holds_id(kept: Seq<MessageView>, id: MessageId) -> bool {
    exists|i: int| 0 <= i < kept.len() && (#[trigger] kept[i]).id == id
}

/// Whether a mirror of `conversation` that holds `kept` takes `message` in:
/// it belongs to that conversation and its id is new.
pub open spec fn admits(
    conversation: Option<ConversationId>,
    kept: Seq<MessageView>,
    message: MessageView,
) -> bool {
    conversation == Some(message.conversation) && !holds_id(kept, message.id)
}

/// What a mirror of `conversation` keeps of a fetched list: the messages of
/// that conversation, each id once (its first occurrence), in the list's
/// order.
pub open spec fn admitted(
    conversation: Option<ConversationId>,
    fetched: Seq<MessageView>,
) -> Seq<MessageView>
    decreases fetched.len(),
{
    if fetched.len() == 0 {
        Seq::empty()
    } else {
        let before = admitted(conversation, fetched.drop_last());
        if admits(conversation, before, fetched.last()) {
            before.push(fetched.last())
        } else {
            before
        }
    }
}

/// The mirror's invariant on its contents: every message belongs to
/// `conversation`, and no id occurs twice.
pub open spec fn coherent(conversation: Option<ConversationId>, kept: Seq<MessageView>) -> bool {
    &&& forall|i: int|
        0 <= i < kept.len() ==> conversation == Some((#[trigger] kept[i]).conversation)
    &&& forall|i: int, j: int|
        0 <= i < j < kept.len() ==> (#[trigger] kept[i]).id != (#[trigger] kept[j]).id
}

/// What is kept of any list is coherent.
pub proof fn lemma_admitted_coherent(
    conversation: Option<ConversationId>,
    fetched: Seq<MessageView>,
)
    ensures
        coherent(conversation, admitted(conversation, fetched)),
    decreases fetched.len(),
{
    if fetched.len() > 0 {
        lemma_admitted_coherent(conversation, fetched.drop_last());
    }
}

/// A coherent list is kept whole.
pub proof fn lemma_admitted_fixed(conversation: Option<ConversationId>, kept: Seq<MessageView>)
    requires
        coherent(conversation, kept),
    ensures
        admitted(conversation, kept) == kept,
    decreases kept.len(),
{
    if kept.len() > 0 {
        let front = kept.drop_last();
        lemma_admitted_fixed(conversation, front);
        assert(!holds_id(front, kept.last().id)) by {
            if holds_id(front, kept.last().id) {
                let i = choose|i: int| 0 <= i < front.len() && (#[trigger] front[i]).id == kept.last().id;
                assert(kept[i].id != kept[kept.len() - 1].id);
            }
        }
        assert(front.push(kept.last()) =~= kept);
    } else {
        assert(kept =~= Seq::empty());
    }
}

/// What a mirror is: the conversation it belongs to, and its messages.
pub struct MirrorView {
    pub conversation: Option<ConversationId>,
    pub messages: Seq<MessageView>,
}

/// The mirror of the conversation that is currently shown.
pub struct MessageMirror {
    conversation: Option<ConversationId>,
    messages: Vec<Message>,
}

impl View for MessageMirror {
    type V = MirrorView;

    closed spec fn view(&self) -> MirrorView {
        MirrorView { conversation: self.conversation, messages: values(self.messages@) }
    }
}

/// Whether a list of messages holds one with the id `id`.
fn holds(kept: &Vec<Message>, id: MessageId) -> (found: bool)
    ensures
        found == holds_id(values(kept@), id),
{
    let mut i: usize = 0;
    while i < kept.len()
        invariant
            i <= kept.len(),
            forall|k: int| 0 <= k < i ==> (#[trigger] values(kept@)[k]).id != id,
        decreases kept.len() - i,
    {
        if kept[i].id == id {
            assert(values(kept@)[i as int].id == id);
            return true;
        }
        i += 1;
    }
    false
}

impl MessageMirror {
    /// The invariant: the contents are coherent with the conversation.
    pub open spec fn wf(&self) -> bool {
        coherent(self@.conversation, self@.messages)
    }

    /// An empty mirror that belongs to no conversation.
    pub fn new() -> (mirror: MessageMirror)
        ensures
            mirror.wf(),
            mirror@.conversation.is_none(),
            mirror@.messages == Seq::<MessageView>::empty(),
    {
        let mirror = MessageMirror { conversation: None, messages: Vec::new() };
        assert(mirror@.messages =~= Seq::<MessageView>::empty());
        mirror
    }

    /// The conversation that the mirror belongs to.
    pub fn conversation(&self) -> (conversation: Option<ConversationId>)
        ensures
            conversation == self@.conversation,
    {
        self.conversation
    }

    /// The number of messages.
    pub fn len(&self) -> (len: usize)
        ensures
            len == self@.messages.len(),
    {
        self.messages.len()
    }

    /// The message at position `index`, counted from the oldest.
    pub fn get(&self, index: usize) -> (message: Option<&Message>)
        ensures
            index < self@.messages.len() ==> message.is_some() && message.unwrap()@
                == self@.messages[index as int],
            index >= self@.messages.len() ==> message.is_none(),
    {
        if index < self.messages.len() {
            Some(&self.messages[index])
        } else {
            None
        }
    }

    /// Whether the mirror holds a message with the id `id`.
    pub fn contains(&self, id: MessageId) -> (found: bool)
        ensures
            found == holds_id(self@.messages, id),
    {
        holds(&self.messages, id)
    }

    /// Follows the selection to `conversation`. When that is another one
    /// than before, the mirror is emptied and belongs to the new one;
    /// nothing is carried over. The result says whether it changed hands.
    pub fn switch_to(&mut self, conversation: Option<ConversationId>) -> (switched: bool)
        requires
            old(self).wf(),
        ensures
            final(self).wf(),
            switched == (conversation != old(self)@.conversation),
            switched ==> final(self)@ == (MirrorView {
                conversation,
                messages: Seq::<MessageView>::empty(),
            }),
            !switched ==> final(self)@ == old(self)@,
    {
        if same_context(self.conversation, conversation) {
            false
        } else {
            self.conversation = conversation;
            self.messages = Vec::new();
            assert(self@.messages =~= Seq::<MessageView>::empty());
            true
        }
    }

    /// Takes one message that arrived on the live feed. It is appended when
    /// the mirror admits it, and dropped otherwise; the result says which.
    pub fn append(&mut self, message: Message) -> (appended: bool)
        requires
            old(self).wf(),
        ensures
            final(self).wf(),
            appended == admits(old(self)@.conversation, old(self)@.messages, message@),
            final(self)@.conversation == old(self)@.conversation,
            appended ==> final(self)@.messages == old(self)@.messages.push(message@),
            !appended ==> final(self)@.messages == old(self)@.messages,
    {
        if same_context(self.conversation, Some(message.conversation)) && !holds(
            &self.messages,
            message.id,
        ) {
            self.messages.push(message);
            assert(self@.messages =~= old(self)@.messages.push(message@));
            true
        } else {
            false
        }
    }

    /// Brings the mirror in line with a full fetch of the conversation. The
    /// mirror then holds what it admits of the fetched list. It is replaced
    /// only where that differs by value from what it held: the result says
    /// whether it was, and so whether anyone needs to be told.
    pub fn reconcile(&mut self, fetched: &Vec<Message>) -> (changed: bool)
        requires
            old(self).wf(),
        ensures
            final(self).wf(),
            final(self)@.conversation == old(self)@.conversation,
            final(self)@.messages == admitted(old(self)@.conversation, values(fetched@)),
            changed == (final(self)@.messages != old(self)@.messages),
            values(fetched@) == old(self)@.messages ==> !changed,
    {
        let ghost all = values(fetched@);
        let mut kept: Vec<Message> = Vec::new();
        let mut i: usize = 0;
        assert(all.take(0) =~= Seq::<MessageView>::empty());
        assert(values(kept@) =~= Seq::<MessageView>::empty());
        while i < fetched.len()
            invariant
                i <= fetched.len(),
                all == values(fetched@),
                values(kept@) == admitted(self.conversation, all.take(i as int)),
            decreases fetched.len() - i,
        {
            let ghost before = values(kept@);
            proof {
                assert(all.take(i + 1).drop_last() =~= all.take(i as int));
                assert(all.take(i + 1).last() == fetched@[i as int]@);
            }
            if same_context(self.conversation, Some(fetched[i].conversation)) && !holds(
                &kept,
                fetched[i].id,
            ) {
                kept.push(fetched[i].copy());
                assert(values(kept@) =~= before.push(fetched@[i as int]@));
            }
            i += 1;
        }
        proof {
            assert(all.take(fetched.len() as int) =~= all);
            lemma_admitted_coherent(self.conversation, all);
            if all == self@.messages {
                lemma_admitted_fixed(self.conversation, all);
            }
        }
        let changed = !same_messages(&kept, &self.messages);
        if changed {
            self.messages = kept;
        }
        changed
    }
}

/// A full fetch that returns, by value, what the mirror already holds
/// leaves the mirror as it is and calls for no notification.
pub proof fn lemma_reconcile_equal_is_silent(mirror: MirrorView, fetched: Seq<MessageView>)
    requires
        coherent(mirror.conversation, mirror.messages),
        fetched == mirror.messages,
    ensures
        admitted(mirror.conversation, fetched) == mirror.messages,
{
    lemma_admitted_fixed(mirror.conversation, fetched);
}

/// A message tagged with another conversation than the mirror's is never
/// admitted, whatever the mirror holds.
pub proof fn lemma_foreign_message_rejected(mirror: MirrorView, message: MessageView)
    requires
        mirror.conversation != Some(message.conversation),
    ensures
        !admits(mirror.conversation, mirror.messages, message),
{
}

} // verus!
