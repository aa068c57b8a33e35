use chat_sync::consumer::{
    retry_delay_ms, Consumer, Directive, Event, Phase, SubscribeFailure, RETRY_LATER_MS,
    RETRY_SOON_MS,
};
use chat_sync::coordinator::Coordinator;
use chat_sync::ids::{ConversationId, MessageId, ParticipantId};
use chat_sync::message::Message;
use chat_sync::mirror::MessageMirror;
use chat_sync::presence::{Command, Signal};

const ME: ParticipantId = ParticipantId { raw: 1 };

fn conv(raw: u128) -> ConversationId {
    ConversationId { raw }
}

fn who(raw: u64) -> ParticipantId {
    ParticipantId { raw }
}

fn mid(raw: u128) -> MessageId {
    MessageId { raw }
}

fn msg(id: u128, conversation: u128, sender: u64, text: &str) -> Message {
    Message {
        id: mid(id),
        conversation: conv(conversation),
        sender: who(sender),
        sent_at: 77,
        body: vec![text.to_string()],
        attachments: Vec::new(),
        reply_to: None,
    }
}

fn streaming(conversation: u128) -> (Consumer, MessageMirror) {
    let mut consumer = Consumer::new(conv(conversation), ME);
    let mut mirror = MessageMirror::new();
    mirror.switch_to(Some(conv(conversation)));
    consumer.open(0);
    consumer.subscribed();
    (consumer, mirror)
}

fn ids(mirror: &MessageMirror) -> Vec<u128> {
    let mut out = Vec::new();
    let mut i = 0;
    while let Some(m) = mirror.get(i) {
        out.push(m.id.raw);
        i += 1;
    }
    out
}

#[test]
fn retry_delays_have_their_values() {
    assert_eq!(RETRY_SOON_MS, 10);
    assert_eq!(RETRY_LATER_MS, 1000);
    assert_eq!(retry_delay_ms(SubscribeFailure::TransientUnavailable), 10);
    assert_eq!(retry_delay_ms(SubscribeFailure::TransientOther), 1000);
}

#[test]
fn open_zeroes_a_stale_unread_counter_once() {
    let mut consumer = Consumer::new(conv(5), ME);
    assert_eq!(consumer.phase(), Phase::Disconnected);
    assert_eq!(consumer.conversation(), conv(5));
    assert_eq!(consumer.open(3), Directive::Open { conversation: conv(5), zero_unread: true });
    assert_eq!(consumer.phase(), Phase::Connecting);
    assert_eq!(consumer.open(3), Directive::Nothing);
    assert_eq!(consumer.phase(), Phase::Connecting);

    let mut other = Consumer::new(conv(6), ME);
    assert_eq!(other.open(0), Directive::Open { conversation: conv(6), zero_unread: false });
}

#[test]
fn subscribe_fails_twice_then_succeeds() {
    let mut consumer = Consumer::new(conv(5), ME);
    let mut attempts = 0;
    let mut waits = Vec::new();
    let mut outcomes = vec![
        Err(SubscribeFailure::TransientUnavailable),
        Err(SubscribeFailure::TransientUnavailable),
        Ok(()),
    ]
    .into_iter();
    let mut directive = consumer.open(0);
    let mut fetch_asked = false;
    loop {
        match directive {
            Directive::Open { conversation, .. } => {
                assert_eq!(conversation, conv(5));
            }
            Directive::Subscribe { conversation, delay_ms } => {
                assert_eq!(conversation, conv(5));
                waits.push(delay_ms);
            }
            Directive::FetchAll { conversation } => {
                assert_eq!(conversation, conv(5));
                fetch_asked = true;
                break;
            }
            other => panic!("unexpected directive {:?}", other),
        }
        attempts += 1;
        // nothing streams before the subscription stands
        assert_ne!(consumer.phase(), Phase::Streaming);
        let typing = Event::TypingReceived { conversation: conv(5), participant: who(2) };
        assert_eq!(consumer.on_event(Some(conv(5)), typing), Directive::Nothing);
        directive = match outcomes.next().unwrap() {
            Err(failure) => consumer.subscribe_failed(failure),
            Ok(()) => consumer.subscribed(),
        };
    }
    assert_eq!(attempts, 3);
    assert_eq!(waits, vec![10, 10]);
    assert!(fetch_asked);
    assert_eq!(consumer.phase(), Phase::Streaming);
}

#[test]
fn other_failures_wait_a_second_and_never_give_up() {
    let mut consumer = Consumer::new(conv(5), ME);
    consumer.open(0);
    for _ in 0..500 {
        assert_eq!(
            consumer.subscribe_failed(SubscribeFailure::TransientOther),
            Directive::Subscribe { conversation: conv(5), delay_ms: 1000 }
        );
        assert_eq!(consumer.phase(), Phase::Connecting);
    }
}

#[test]
fn subscribe_results_outside_connecting_are_dropped() {
    let mut consumer = Consumer::new(conv(5), ME);
    assert_eq!(
        consumer.subscribe_failed(SubscribeFailure::TransientUnavailable),
        Directive::Nothing
    );
    assert_eq!(consumer.subscribed(), Directive::Nothing);
    assert_eq!(consumer.phase(), Phase::Disconnected);
    consumer.open(0);
    consumer.subscribed();
    assert_eq!(consumer.subscribed(), Directive::Nothing);
    assert_eq!(consumer.subscribe_failed(SubscribeFailure::TransientOther), Directive::Nothing);
    assert_eq!(consumer.phase(), Phase::Streaming);
}

#[test]
fn closed_feed_reconnects_and_reconciles_again() {
    let (mut consumer, _mirror) = streaming(5);
    assert_eq!(
        consumer.stream_closed(),
        Directive::Subscribe { conversation: conv(5), delay_ms: 0 }
    );
    assert_eq!(consumer.phase(), Phase::Reconnecting);
    assert_eq!(consumer.stream_closed(), Directive::Nothing);
    assert_eq!(
        consumer.subscribe_failed(SubscribeFailure::TransientUnavailable),
        Directive::Subscribe { conversation: conv(5), delay_ms: 10 }
    );
    assert_eq!(consumer.subscribed(), Directive::FetchAll { conversation: conv(5) });
    assert_eq!(consumer.phase(), Phase::Streaming);
}

#[test]
fn cancel_releases_exactly_once_and_is_terminal() {
    let (mut consumer, mut mirror) = streaming(5);
    assert_eq!(consumer.cancel(), Directive::Release { conversation: conv(5) });
    assert_eq!(consumer.phase(), Phase::Cancelled);
    assert_eq!(consumer.cancel(), Directive::Nothing);
    assert_eq!(consumer.open(1), Directive::Nothing);
    assert_eq!(consumer.subscribed(), Directive::Nothing);
    assert_eq!(consumer.stream_closed(), Directive::Nothing);
    assert_eq!(consumer.subscribe_failed(SubscribeFailure::TransientOther), Directive::Nothing);
    let event = Event::MessageReceived { conversation: conv(5), message: mid(1) };
    assert_eq!(consumer.on_event(Some(conv(5)), event), Directive::Nothing);
    assert_eq!(consumer.message_fetched(&mut mirror, Some(msg(1, 5, 2, "x"))), Directive::Nothing);
    assert_eq!(consumer.reconciled(&mut mirror, Some(vec![msg(1, 5, 2, "x")])), Directive::Nothing);
    assert_eq!(mirror.len(), 0);
    assert_eq!(consumer.phase(), Phase::Cancelled);

    let mut waiting = Consumer::new(conv(6), ME);
    waiting.open(0);
    assert_eq!(waiting.cancel(), Directive::Release { conversation: conv(6) });
    assert_eq!(waiting.subscribe_failed(SubscribeFailure::TransientUnavailable), Directive::Nothing);
}

#[test]
fn message_events_ask_for_the_message() {
    let (consumer, _mirror) = streaming(5);
    let received = Event::MessageReceived { conversation: conv(5), message: mid(9) };
    let sent = Event::MessageSent { conversation: conv(5), message: mid(10) };
    assert_eq!(
        consumer.on_event(Some(conv(5)), received),
        Directive::FetchMessage { conversation: conv(5), message: mid(9) }
    );
    assert_eq!(
        consumer.on_event(Some(conv(5)), sent),
        Directive::FetchMessage { conversation: conv(5), message: mid(10) }
    );
    assert_eq!(consumer.on_event(Some(conv(5)), Event::Other), Directive::Nothing);
}

#[test]
fn typing_events_become_indicators() {
    let (consumer, _mirror) = streaming(5);
    let typing = Event::TypingReceived { conversation: conv(5), participant: who(2) };
    let own = Event::TypingReceived { conversation: conv(5), participant: ME };
    let cancelled = Event::TypingCancelled { conversation: conv(5), participant: who(2) };
    assert_eq!(
        consumer.on_event(Some(conv(5)), typing),
        Directive::Indicate { conversation: conv(5), participant: who(2), signal: Signal::Started }
    );
    assert_eq!(consumer.on_event(Some(conv(5)), own), Directive::Nothing);
    assert_eq!(
        consumer.on_event(Some(conv(5)), cancelled),
        Directive::Indicate { conversation: conv(5), participant: who(2), signal: Signal::Stopped }
    );
}

#[test]
fn events_of_another_conversation_are_dropped() {
    let (consumer, _mirror) = streaming(5);
    let events = vec![
        Event::MessageReceived { conversation: conv(6), message: mid(9) },
        Event::MessageSent { conversation: conv(6), message: mid(9) },
        Event::TypingReceived { conversation: conv(6), participant: who(2) },
        Event::TypingCancelled { conversation: conv(6), participant: who(2) },
    ];
    for event in events {
        assert_eq!(consumer.on_event(Some(conv(5)), event), Directive::Nothing);
    }
}

#[test]
fn stale_event_after_switch_touches_no_mirror() {
    // the consumer of conversation 5 outlives the switch to conversation 6
    let (old_consumer, mut mirror) = streaming(5);
    mirror.append(msg(1, 5, 2, "old"));
    mirror.switch_to(Some(conv(6)));
    let mut new_consumer = Consumer::new(conv(6), ME);
    new_consumer.open(0);
    new_consumer.subscribed();
    new_consumer.message_fetched(&mut mirror, Some(msg(20, 6, 2, "new")));
    assert_eq!(ids(&mirror), vec![20]);

    let event = Event::MessageReceived { conversation: conv(5), message: mid(2) };
    assert_eq!(old_consumer.on_event(Some(conv(6)), event), Directive::Nothing);
    assert_eq!(new_consumer.on_event(Some(conv(6)), event), Directive::Nothing);
    let typing = Event::TypingReceived { conversation: conv(5), participant: who(2) };
    assert_eq!(old_consumer.on_event(Some(conv(6)), typing), Directive::Nothing);
    assert_eq!(new_consumer.on_event(Some(conv(6)), typing), Directive::Nothing);

    assert_eq!(
        old_consumer.message_fetched(&mut mirror, Some(msg(2, 5, 2, "late"))),
        Directive::Nothing
    );
    assert_eq!(
        new_consumer.message_fetched(&mut mirror, Some(msg(2, 5, 2, "late"))),
        Directive::Nothing
    );
    assert_eq!(
        old_consumer.message_fetched(&mut mirror, Some(msg(3, 6, 2, "forged"))),
        Directive::Nothing
    );
    assert_eq!(
        old_consumer.reconciled(&mut mirror, Some(vec![msg(2, 5, 2, "late")])),
        Directive::Nothing
    );
    assert_eq!(old_consumer.reconciled(&mut mirror, None), Directive::Nothing);
    assert_eq!(ids(&mirror), vec![20]);
    assert_eq!(mirror.conversation(), Some(conv(6)));
}

#[test]
fn failed_message_fetch_drops_the_event() {
    let (consumer, mut mirror) = streaming(5);
    mirror.append(msg(1, 5, 2, "a"));
    assert_eq!(consumer.message_fetched(&mut mirror, None), Directive::Nothing);
    assert_eq!(ids(&mirror), vec![1]);
    assert_eq!(consumer.phase(), Phase::Streaming);
}

#[test]
fn fetched_message_is_appended_and_reported() {
    let (consumer, mut mirror) = streaming(5);
    assert_eq!(
        consumer.message_fetched(&mut mirror, Some(msg(1, 5, 2, "a"))),
        Directive::Delivered { conversation: conv(5), sender: who(2), message: mid(1) }
    );
    assert_eq!(
        consumer.message_fetched(&mut mirror, Some(msg(2, 5, 1, "mine"))),
        Directive::Delivered { conversation: conv(5), sender: ME, message: mid(2) }
    );
    assert_eq!(ids(&mirror), vec![1, 2]);
    // a message that the mirror holds already only stops its sender's typing
    assert_eq!(
        consumer.message_fetched(&mut mirror, Some(msg(1, 5, 2, "a"))),
        Directive::Indicate { conversation: conv(5), participant: who(2), signal: Signal::Stopped }
    );
    assert_eq!(ids(&mirror), vec![1, 2]);
}

#[test]
fn received_message_clears_the_senders_typing() {
    let (consumer, mut mirror) = streaming(5);
    let mut coordinator = Coordinator::new();
    mirror.append(msg(1, 5, 3, "earlier"));

    let typing = consumer.on_event(
        Some(conv(5)),
        Event::TypingReceived { conversation: conv(5), participant: who(2) },
    );
    coordinator.handle(typing.command("pat".to_string()).unwrap(), 1_000);
    assert!(coordinator.is_typing(who(2)));

    let before = mirror.len();
    let ask = consumer.on_event(
        Some(conv(5)),
        Event::MessageReceived { conversation: conv(5), message: mid(40) },
    );
    assert_eq!(ask, Directive::FetchMessage { conversation: conv(5), message: mid(40) });
    let done = consumer.message_fetched(&mut mirror, Some(msg(40, 5, 2, "hi")));
    assert_eq!(done.participant(), Some(who(2)));
    assert!(coordinator.handle(done.command("pat".to_string()).unwrap(), 1_200));

    assert!(!coordinator.is_typing(who(2)));
    assert_eq!(coordinator.typing_count(), 0);
    assert_eq!(mirror.len(), before + 1);
    assert_eq!(ids(&mirror), vec![1, 40]);
    assert_eq!(ids(&mirror).iter().filter(|id| **id == 40).count(), 1);
}

#[test]
fn received_message_stops_only_its_sender() {
    let (consumer, mut mirror) = streaming(5);
    let mut coordinator = Coordinator::new();
    let start = Directive::Indicate {
        conversation: conv(5),
        participant: who(2),
        signal: Signal::Started,
    };
    coordinator.handle(start.command("pat".to_string()).unwrap(), 0);
    let done = consumer.message_fetched(&mut mirror, Some(msg(40, 5, 3, "hi")));
    assert!(!coordinator.handle(done.command("sam".to_string()).unwrap(), 10));
    assert!(coordinator.is_typing(who(2)));
}

#[test]
fn reconnect_fetch_equal_to_mirror_publishes_nothing() {
    let (mut consumer, mut mirror) = streaming(5);
    assert_eq!(
        consumer.reconciled(&mut mirror, Some(vec![msg(1, 5, 2, "a"), msg(2, 5, 3, "b")])),
        Directive::Publish { conversation: conv(5) }
    );
    consumer.stream_closed();
    consumer.subscribed();
    assert_eq!(
        consumer.reconciled(&mut mirror, Some(vec![msg(1, 5, 2, "a"), msg(2, 5, 3, "b")])),
        Directive::Nothing
    );
    assert_eq!(ids(&mirror), vec![1, 2]);
    assert_eq!(mirror.get(1).unwrap().body, vec!["b".to_string()]);
}

#[test]
fn reconcile_catches_up_after_a_dropped_event() {
    let (mut consumer, mut mirror) = streaming(5);
    consumer.message_fetched(&mut mirror, Some(msg(1, 5, 2, "a")));
    consumer.message_fetched(&mut mirror, None);
    consumer.stream_closed();
    consumer.subscribed();
    assert_eq!(
        consumer.reconciled(&mut mirror, Some(vec![msg(1, 5, 2, "a"), msg(2, 5, 3, "b")])),
        Directive::Publish { conversation: conv(5) }
    );
    assert_eq!(ids(&mirror), vec![1, 2]);
}

#[test]
fn failed_full_fetch_counts_as_no_messages() {
    let (consumer, mut mirror) = streaming(5);
    assert_eq!(consumer.reconciled(&mut mirror, None), Directive::Nothing);
    consumer.message_fetched(&mut mirror, Some(msg(1, 5, 2, "a")));
    assert_eq!(
        consumer.reconciled(&mut mirror, None),
        Directive::Publish { conversation: conv(5) }
    );
    assert_eq!(mirror.len(), 0);
}

#[test]
fn reconcile_before_streaming_is_dropped() {
    let mut consumer = Consumer::new(conv(5), ME);
    let mut mirror = MessageMirror::new();
    mirror.switch_to(Some(conv(5)));
    consumer.open(0);
    assert_eq!(consumer.reconciled(&mut mirror, Some(vec![msg(1, 5, 2, "a")])), Directive::Nothing);
    assert_eq!(consumer.message_fetched(&mut mirror, Some(msg(1, 5, 2, "a"))), Directive::Nothing);
    assert_eq!(mirror.len(), 0);
}

#[test]
fn directives_name_their_command() {
    let indicate = Directive::Indicate {
        conversation: conv(5),
        participant: who(2),
        signal: Signal::Started,
    };
    match indicate.command("pat".to_string()) {
        Some(Command::Indicator { context, participant, display_name, signal }) => {
            assert_eq!(context, Some(conv(5)));
            assert_eq!(participant, who(2));
            assert_eq!(display_name, "pat");
            assert_eq!(signal, Signal::Started);
        }
        other => panic!("unexpected command {:?}", other),
    }
    let delivered = Directive::Delivered { conversation: conv(5), sender: who(3), message: mid(1) };
    match delivered.command("sam".to_string()) {
        Some(Command::Indicator { context, participant, display_name, signal }) => {
            assert_eq!(context, Some(conv(5)));
            assert_eq!(participant, who(3));
            assert_eq!(display_name, "sam");
            assert_eq!(signal, Signal::Stopped);
        }
        other => panic!("unexpected command {:?}", other),
    }
    assert_eq!(indicate.participant(), Some(who(2)));
    assert_eq!(delivered.participant(), Some(who(3)));
    for quiet in [
        Directive::Nothing,
        Directive::Open { conversation: conv(5), zero_unread: true },
        Directive::Subscribe { conversation: conv(5), delay_ms: 10 },
        Directive::FetchAll { conversation: conv(5) },
        Directive::FetchMessage { conversation: conv(5), message: mid(1) },
        Directive::Publish { conversation: conv(5) },
        Directive::Release { conversation: conv(5) },
    ] {
        assert!(quiet.command("x".to_string()).is_none());
        assert_eq!(quiet.participant(), None);
    }
}
