//! The event stream consumer: the decisions of the task that keeps one
//! conversation's mirror current.
//!
//! A consumer is made for one conversation and never changes it. It does no
//! work of its own: each method takes what happened (a subscribe attempt
//! failed, an event arrived, a fetch came back) and answers with a
//! [`Directive`], the next thing for the caller to do. Because the task of
//! an earlier conversation may still deliver something after the selection
//! has moved on, every method that could touch the mirror first compares
//! conversations and does nothing unless all of them agree.

use vstd::prelude::*;
use crate::ids::{ConversationId, MessageId, ParticipantId, same_context};
use crate::message::{Message, MessageView, values};
use crate::mirror::{
    MessageMirror, MirrorView, admitted, coherent, holds_id, lemma_admitted_fixed,
};
use crate::presence::{Command, CommandView, Signal};

verus! {

/// The wait, in milliseconds, before subscribing again after the store said
/// that it is not ready yet.
pub const RETRY_SOON_MS: u64 = 10;

/// The wait, in milliseconds, before subscribing again after any other
/// failure.
pub const RETRY_LATER_MS: u64 = 1000;

/// Where a consumer stands.
#[derive(Clone, Copy, Debug, PartialEq, Eq, Structural)]
pub enum Phase {
    /// Made, not yet opened.
    Disconnected,
    /// Subscribing for the first time.
    Connecting,
    /// Subscribed: events are taken.
    Streaming,
    /// The feed closed; subscribing again.
    Reconnecting,
    /// Stopped for good.
    Cancelled,
}

/// Why a subscribe attempt failed.
#[derive(Clone, Copy, Debug, PartialEq, Eq, Structural)]
pub enum SubscribeFailure {
    /// The store is still starting up.
    TransientUnavailable,
    /// Anything else.
    TransientOther,
}

/// What the live feed reports.
#[derive(Clone, Copy, Debug, PartialEq, Eq, Structural)]
pub enum Event {
    MessageReceived { conversation: ConversationId, message: MessageId },
    MessageSent { conversation: ConversationId, message: MessageId },
    /// A participant is typing.
    TypingReceived { conversation: ConversationId, participant: ParticipantId },
    /// A participant's typing was called off.
    TypingCancelled { conversation: ConversationId, participant: ParticipantId },
    /// Any other kind of event.
    Other,
}

/// What the caller is to do next.
#[derive(Clone, Copy, Debug, PartialEq, Eq, Structural)]
pub enum Directive {
    /// Nothing: what came in was dropped.
    Nothing,
    /// Where `zero_unread` is set, first send the registry one silent update
    /// that sets the conversation's unread counter to zero. Then subscribe.
    Open { conversation: ConversationId, zero_unread: bool },
    /// Wait `delay_ms`, then subscribe.
    Subscribe { conversation: ConversationId, delay_ms: u64 },
    /// Fetch the conversation's whole message list and hand it to
    /// [`Consumer::reconciled`].
    FetchAll { conversation: ConversationId },
    /// Fetch this message and hand it to [`Consumer::message_fetched`].
    FetchMessage { conversation: ConversationId, message: MessageId },
    /// Tell the presence coordinator what `participant` did.
    Indicate { conversation: ConversationId, participant: ParticipantId, signal: Signal },
    /// The mirror was replaced: tell whoever shows it.
    Publish { conversation: ConversationId },
    /// `message` was appended to the mirror: tell the presence coordinator
    /// that `sender` stopped typing, and send the registry a notifying
    /// update of the conversation's last-message summary.
    Delivered { conversation: ConversationId, sender: ParticipantId, message: MessageId },
    /// Let go of the feed and of any pending timer.
    Release { conversation: ConversationId },
}

/// What a consumer is.
pub struct ConsumerView {
    pub conversation: ConversationId,
    /// The local user, whose own typing is never shown.
    pub own: ParticipantId,
    pub phase: Phase,
}

/// The consumer of one conversation.
pub struct Consumer {
    conversation: ConversationId,
    own: ParticipantId,
    phase: Phase,
}

impl View for Consumer {
    type V = ConsumerView;

    closed spec fn view(&self) -> ConsumerView {
        ConsumerView { conversation: self.conversation, own: self.own, phase: self.phase }
    }
}

/// The wait before the next subscribe attempt after `failure`.
pub open spec fn retry_delay(failure: SubscribeFailure) -> u64 {
    match failure {
        SubscribeFailure::TransientUnavailable => RETRY_SOON_MS,
        SubscribeFailure::TransientOther => RETRY_LATER_MS,
    }
}

/// Whether the consumer is trying to subscribe.
pub open spec fn subscribing(phase: Phase) -> bool {
    phase == Phase::Connecting || phase == Phase::Reconnecting
}

/// Whether the consumer may act on what arrives: it is streaming, and its
/// conversation is the one that is selected.
pub open spec fn live(consumer: ConsumerView, active: Option<ConversationId>) -> bool {
    consumer.phase == Phase::Streaming && active == Some(consumer.conversation)
}

/// The conversation that an event is tagged with.
pub open spec fn tag(event: Event) -> Option<ConversationId> {
    match event {
        Event::MessageReceived { conversation, .. } => Some(conversation),
        Event::MessageSent { conversation, .. } => Some(conversation),
        Event::TypingReceived { conversation, .. } => Some(conversation),
        Event::TypingCancelled { conversation, .. } => Some(conversation),
        Event::Other => None,
    }
}

/// The answer to an event of the live feed.
pub open spec fn reaction(
    consumer: ConsumerView,
    active: Option<ConversationId>,
    event: Event,
) -> Directive {
    let conversation = consumer.conversation;
    if !live(consumer, active) || tag(event) != Some(conversation) {
        Directive::Nothing
    } else {
        match event {
            Event::MessageReceived { message, .. } => Directive::FetchMessage {
                conversation,
                message,
            },
            Event::MessageSent { message, .. } => Directive::FetchMessage { conversation, message },
            Event::TypingReceived { participant, .. } => if participant != consumer.own {
                Directive::Indicate { conversation, participant, signal: Signal::Started }
            } else {
                Directive::Nothing
            },
            Event::TypingCancelled { participant, .. } => Directive::Indicate {
                conversation,
                participant,
                signal: Signal::Stopped,
            },
            Event::Other => Directive::Nothing,
        }
    }
}

/// Whether a fetched message is taken at all: the consumer is live on the
/// mirror's conversation, and the message is tagged with it.
pub open spec fn takes(consumer: ConsumerView, mirror: MirrorView, message: MessageView) -> bool {
    live(consumer, mirror.conversation) && message.conversation == consumer.conversation
}

/// The mirror after the fetch of one message came back.
pub open spec fn mirror_after_fetch(
    consumer: ConsumerView,
    mirror: MirrorView,
    fetched: Option<MessageView>,
) -> MirrorView {
    match fetched {
        Some(message) => if takes(consumer, mirror, message) && !holds_id(
            mirror.messages,
            message.id,
        ) {
            MirrorView { messages: mirror.messages.push(message), ..mirror }
        } else {
            mirror
        },
        None => mirror,
    }
}

/// The answer after the fetch of one message came back. A failed fetch is
/// dropped. A message that is taken is reported as delivered if it is new
/// to the mirror; if the mirror holds it already, only its sender's typing
/// is stopped.
pub open spec fn answer_after_fetch(
    consumer: ConsumerView,
    mirror: MirrorView,
    fetched: Option<MessageView>,
) -> Directive {
    match fetched {
        Some(message) => if !takes(consumer, mirror, message) {
            Directive::Nothing
        } else if holds_id(mirror.messages, message.id) {
            Directive::Indicate {
                conversation: consumer.conversation,
                participant: message.sender,
                signal: Signal::Stopped,
            }
        } else {
            Directive::Delivered {
                conversation: consumer.conversation,
                sender: message.sender,
                message: message.id,
            }
        },
        None => Directive::Nothing,
    }
}

/// What a full fetch counts as: the list it returned, or no messages at all
/// where it failed.
pub open spec fn fetched_or_none(fetched: Option<Seq<MessageView>>) -> Seq<MessageView> {
    match fetched {
        Some(list) => list,
        None => Seq::empty(),
    }
}

/// The mirror after the full fetch came back.
pub open spec fn mirror_after_reconciliation(
    consumer: ConsumerView,
    mirror: MirrorView,
    fetched: Option<Seq<MessageView>>,
) -> MirrorView {
    if live(consumer, mirror.conversation) {
        MirrorView {
            messages: admitted(mirror.conversation, fetched_or_none(fetched)),
            ..mirror
        }
    } else {
        mirror
    }
}

/// The answer after the full fetch came back: there is something to publish
/// exactly where the mirror was replaced.
pub open spec fn answer_after_reconciliation(
    consumer: ConsumerView,
    mirror: MirrorView,
    fetched: Option<Seq<MessageView>>,
) -> Directive {
    if mirror_after_reconciliation(consumer, mirror, fetched) != mirror {
        Directive::Publish { conversation: consumer.conversation }
    } else {
        Directive::Nothing
    }
}

/// The values of an optional list of messages.
pub open spec fn optional_values(fetched: Option<Vec<Message>>) -> Option<Seq<MessageView>> {
    match fetched {
        Some(list) => Some(values(list@)),
        None => None,
    }
}

/// The value of an optional message.
pub open spec fn optional_value(fetched: Option<Message>) -> Option<MessageView> {
    match fetched {
        Some(message) => Some(message@),
        None => None,
    }
}

/// The command for the presence coordinator that a directive calls for, if
/// it calls for one; `display_name` is the name under which the participant
/// is shown.
pub open spec fn command_of(directive: Directive, display_name: Seq<char>) -> Option<
    CommandView,
> {
    match directive {
        Directive::Indicate { conversation, participant, signal } => Some(
            CommandView::Indicator {
                context: Some(conversation),
                participant,
                display_name,
                signal,
            },
        ),
        Directive::Delivered { conversation, sender, .. } => Some(
            CommandView::Indicator {
                context: Some(conversation),
                participant: sender,
                display_name,
                signal: Signal::Stopped,
            },
        ),
        _ => None,
    }
}

/// The value of an optional command.
pub open spec fn optional_command(command: Option<Command>) -> Option<CommandView> {
    match command {
        Some(c) => Some(c@),
        None => None,
    }
}

impl Directive {
    /// The participant whose display name the caller has to look up before
    /// it can ask for the directive's command.
    pub fn participant(&self) -> (participant: Option<ParticipantId>)
        ensures
            participant == match *self {
                Directive::Indicate { participant, .. } => Some(participant),
                Directive::Delivered { sender, .. } => Some(sender),
                _ => None,
            },
    {
        match *self {
            Directive::Indicate { participant, .. } => Some(participant),
            Directive::Delivered { sender, .. } => Some(sender),
            _ => None,
        }
    }

    /// The command to send to the presence coordinator, if the directive
    /// calls for one.
    pub fn command(&self, display_name: String) -> (command: Option<Command>)
        ensures
            optional_command(command) == command_of(*self, display_name@),
    {
        match *self {
            Directive::Indicate { conversation, participant, signal } => Some(
                Command::Indicator {
                    context: Some(conversation),
                    participant,
                    display_name,
                    signal,
                },
            ),
            Directive::Delivered { conversation, sender, .. } => Some(
                Command::Indicator {
                    context: Some(conversation),
                    participant: sender,
                    display_name,
                    signal: Signal::Stopped,
                },
            ),
            _ => None,
        }
    }
}

/// The wait before the next subscribe attempt after `failure`.
pub fn retry_delay_ms(failure: SubscribeFailure) -> (delay: u64)
    ensures
        delay == retry_delay(failure),
{
    match failure {
        SubscribeFailure::TransientUnavailable => RETRY_SOON_MS,
        SubscribeFailure::TransientOther => RETRY_LATER_MS,
    }
}

impl Consumer {
    /// A consumer for `conversation`, not yet opened. `own` is the local
    /// user.
    pub fn new(conversation: ConversationId, own: ParticipantId) -> (consumer: Consumer)
        ensures
            consumer@ == (ConsumerView { conversation, own, phase: Phase::Disconnected }),
    {
        Consumer { conversation, own, phase: Phase::Disconnected }
    }

    /// The conversation that the consumer was made for.
    pub fn conversation(&self) -> (conversation: ConversationId)
        ensures
            conversation == self@.conversation,
    {
        self.conversation
    }

    /// Where the consumer stands.
    pub fn phase(&self) -> (phase: Phase)
        ensures
            phase == self@.phase,
    {
        self.phase
    }

    /// Whether the consumer is streaming on the selected conversation.
    fn is_live(&self, active: Option<ConversationId>) -> (yes: bool)
        ensures
            yes == live(self@, active),
    {
        let streaming = match self.phase {
            Phase::Streaming => true,
            _ => false,
        };
        streaming && same_context(active, Some(self.conversation))
    }

    /// Opens the conversation. `unread` is the unread counter as locally
    /// known. A consumer that was opened or cancelled before does nothing.
    pub fn open(&mut self, unread: u64) -> (directive: Directive)
        ensures
            old(self)@.phase == Phase::Disconnected ==> final(self)@ == (ConsumerView {
                phase: Phase::Connecting,
                ..old(self)@
            }) && directive == (Directive::Open {
                conversation: old(self)@.conversation,
                zero_unread: unread != 0,
            }),
            old(self)@.phase != Phase::Disconnected ==> final(self)@ == old(self)@ && directive
                == Directive::Nothing,
    {
        match self.phase {
            Phase::Disconnected => {
                self.phase = Phase::Connecting;
                Directive::Open { conversation: self.conversation, zero_unread: unread != 0 }
            },
            _ => Directive::Nothing,
        }
    }

    /// A subscribe attempt failed. While the consumer is subscribing it
    /// always asks for another attempt, after the wait that the failure
    /// calls for: it never gives up.
    pub fn subscribe_failed(&self, failure: SubscribeFailure) -> (directive: Directive)
        ensures
            subscribing(self@.phase) ==> directive == (Directive::Subscribe {
                conversation: self@.conversation,
                delay_ms: retry_delay(failure),
            }),
            !subscribing(self@.phase) ==> directive == Directive::Nothing,
    {
        match self.phase {
            Phase::Connecting | Phase::Reconnecting => Directive::Subscribe {
                conversation: self.conversation,
                delay_ms: retry_delay_ms(failure),
            },
            _ => Directive::Nothing,
        }
    }

    /// A subscribe attempt succeeded. The consumer starts streaming, and
    /// asks for the full fetch with which the mirror is reconciled.
    pub fn subscribed(&mut self) -> (directive: Directive)
        ensures
            subscribing(old(self)@.phase) ==> final(self)@ == (ConsumerView {
                phase: Phase::Streaming,
                ..old(self)@
            }) && directive == (Directive::FetchAll { conversation: old(self)@.conversation }),
            !subscribing(old(self)@.phase) ==> final(self)@ == old(self)@ && directive
                == Directive::Nothing,
    {
        match self.phase {
            Phase::Connecting | Phase::Reconnecting => {
                self.phase = Phase::Streaming;
                Directive::FetchAll { conversation: self.conversation }
            },
            _ => Directive::Nothing,
        }
    }

    /// The feed closed. A streaming consumer subscribes again, at once.
    pub fn stream_closed(&mut self) -> (directive: Directive)
        ensures
            old(self)@.phase == Phase::Streaming ==> final(self)@ == (ConsumerView {
                phase: Phase::Reconnecting,
                ..old(self)@
            }) && directive == (Directive::Subscribe {
                conversation: old(self)@.conversation,
                delay_ms: 0,
            }),
            old(self)@.phase != Phase::Streaming ==> final(self)@ == old(self)@ && directive
                == Directive::Nothing,
    {
        match self.phase {
            Phase::Streaming => {
                self.phase = Phase::Reconnecting;
                Directive::Subscribe { conversation: self.conversation, delay_ms: 0 }
            },
            _ => Directive::Nothing,
        }
    }

    /// Stops the consumer for good. The first call asks the caller to let
    /// go of the feed; any later call does nothing.
    pub fn cancel(&mut self) -> (directive: Directive)
        ensures
            final(self)@ == (ConsumerView { phase: Phase::Cancelled, ..old(self)@ }),
            old(self)@.phase != Phase::Cancelled ==> directive == (Directive::Release {
                conversation: old(self)@.conversation,
            }),
            old(self)@.phase == Phase::Cancelled ==> directive == Directive::Nothing,
    {
        match self.phase {
            Phase::Cancelled => Directive::Nothing,
            _ => {
                self.phase = Phase::Cancelled;
                Directive::Release { conversation: self.conversation }
            },
        }
    }

    /// An event of the live feed arrived while `active` was the selected
    /// conversation.
    pub fn on_event(&self, active: Option<ConversationId>, event: Event) -> (directive: Directive)
        ensures
            directive == reaction(self@, active, event),
    {
        if !self.is_live(active) {
            return Directive::Nothing;
        }
        let conversation = self.conversation;
        match event {
            Event::MessageReceived { conversation: tagged, message } => {
                if tagged == conversation {
                    Directive::FetchMessage { conversation, message }
                } else {
                    Directive::Nothing
                }
            },
            Event::MessageSent { conversation: tagged, message } => {
                if tagged == conversation {
                    Directive::FetchMessage { conversation, message }
                } else {
                    Directive::Nothing
                }
            },
            Event::TypingReceived { conversation: tagged, participant } => {
                if tagged == conversation && participant != self.own {
                    Directive::Indicate { conversation, participant, signal: Signal::Started }
                } else {
                    Directive::Nothing
                }
            },
            Event::TypingCancelled { conversation: tagged, participant } => {
                if tagged == conversation {
                    Directive::Indicate { conversation, participant, signal: Signal::Stopped }
                } else {
                    Directive::Nothing
                }
            },
            Event::Other => Directive::Nothing,
        }
    }

    /// The fetch of one message came back: `None` where it failed.
    pub fn message_fetched(
        &self,
        mirror: &mut MessageMirror,
        fetched: Option<Message>,
    ) -> (directive: Directive)
        requires
            old(mirror).wf(),
        ensures
            final(mirror).wf(),
            final(mirror)@ == mirror_after_fetch(self@, old(mirror)@, optional_value(fetched)),
            directive == answer_after_fetch(self@, old(mirror)@, optional_value(fetched)),
    {
        match fetched {
            None => Directive::Nothing,
            Some(message) => {
                if !self.is_live(mirror.conversation()) || message.conversation
                    != self.conversation {
                    return Directive::Nothing;
                }
                let conversation = self.conversation;
                let sender = message.sender;
                let id = message.id;
                if mirror.append(message) {
                    Directive::Delivered { conversation, sender, message: id }
                } else {
                    Directive::Indicate { conversation, participant: sender, signal: Signal::Stopped }
                }
            },
        }
    }

    /// The full fetch came back: `None` where it failed, which counts as a
    /// conversation without messages. The mirror is replaced only if what it
    /// would hold differs by value from what it holds, and only then is
    /// there anything to publish.
    pub fn reconciled(
        &self,
        mirror: &mut MessageMirror,
        fetched: Option<Vec<Message>>,
    ) -> (directive: Directive)
        requires
            old(mirror).wf(),
        ensures
            final(mirror).wf(),
            final(mirror)@ == mirror_after_reconciliation(
                self@,
                old(mirror)@,
                optional_values(fetched),
            ),
            directive == answer_after_reconciliation(
                self@,
                old(mirror)@,
                optional_values(fetched),
            ),
    {
        if !self.is_live(mirror.conversation()) {
            return Directive::Nothing;
        }
        let list = match fetched {
            Some(list) => list,
            None => Vec::new(),
        };
        assert(fetched.is_none() ==> values(list@) =~= Seq::<MessageView>::empty());
        if mirror.reconcile(&list) {
            Directive::Publish { conversation: self.conversation }
        } else {
            Directive::Nothing
        }
    }
}

/// Race safety. Whatever arrives tagged with another conversation than the
/// selected one is dropped: the answer is `Nothing` and the mirror stays as
/// it is. This holds for every consumer, so also for one that outlived its
/// conversation.
pub proof fn lemma_stale_arrival_is_dropped(
    consumer: ConsumerView,
    mirror: MirrorView,
    event: Event,
    message: MessageView,
)
    ensures
        tag(event) != mirror.conversation ==> reaction(consumer, mirror.conversation, event)
            == Directive::Nothing,
        Some(message.conversation) != mirror.conversation ==> mirror_after_fetch(
            consumer,
            mirror,
            Some(message),
        ) == mirror && answer_after_fetch(consumer, mirror, Some(message)) == Directive::Nothing,
{
}

/// A consumer whose conversation is no longer the selected one changes
/// nothing, whatever it is handed.
pub proof fn lemma_outlived_consumer_is_inert(
    consumer: ConsumerView,
    mirror: MirrorView,
    event: Event,
    message: Option<MessageView>,
    list: Option<Seq<MessageView>>,
)
    requires
        mirror.conversation != Some(consumer.conversation),
    ensures
        reaction(consumer, mirror.conversation, event) == Directive::Nothing,
        mirror_after_fetch(consumer, mirror, message) == mirror,
        answer_after_fetch(consumer, mirror, message) == Directive::Nothing,
        mirror_after_reconciliation(consumer, mirror, list) == mirror,
        answer_after_reconciliation(consumer, mirror, list) == Directive::Nothing,
{
}

/// Idempotence of reconciliation. A full fetch that returns, by value, what
/// the mirror holds leaves the mirror as it is, so that nothing is
/// published.
pub proof fn lemma_equal_fetch_changes_nothing(
    consumer: ConsumerView,
    mirror: MirrorView,
    fetched: Seq<MessageView>,
)
    requires
        coherent(mirror.conversation, mirror.messages),
        fetched == mirror.messages,
    ensures
        mirror_after_reconciliation(consumer, mirror, Some(fetched)) == mirror,
        answer_after_reconciliation(consumer, mirror, Some(fetched)) == Directive::Nothing,
{
    lemma_admitted_fixed(mirror.conversation, fetched);
}

} // verus!
