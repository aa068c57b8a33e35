//! Typing presence: who, among the remote participants of the conversation
//! that is shown, is composing a message right now.
//!
//! The coordinator owns this state and changes it only in answer to a
//! [`Command`]. It has no clock of its own: every command comes with the
//! caller's reading of a monotonic clock, in milliseconds.

use vstd::prelude::*;
use crate::ids::{ConversationId, ParticipantId, same_context};

verus! {

/// A participant who has been silent for longer than this, in milliseconds,
/// is taken to have stopped typing.
pub const STALE_AFTER_MS: u64 = 3000;

/// The period, in milliseconds, at which the caller's timer sends a sweep.
/// It is longer than [`STALE_AFTER_MS`], so that an entry which one sweep
/// finds just fresh is stale at the next.
pub const SWEEP_INTERVAL_MS: u64 = 4000;

/// What a participant was seen to do.
#[derive(Clone, Copy, Debug, PartialEq, Eq, Structural)]
pub enum Signal {
    Started,
    Stopped,
}

/// The two things that the coordinator can be told.
#[derive(Debug)]
pub enum Command {
    /// A participant started or stopped typing.
    Indicator {
        context: Option<ConversationId>,
        participant: ParticipantId,
        display_name: String,
        signal: Signal,
    },
    /// The periodic timer fired: drop whoever has gone stale.
    Sweep { context: Option<ConversationId> },
}

/// A command as a mathematical value.
pub enum CommandView {
    Indicator {
        context: Option<ConversationId>,
        participant: ParticipantId,
        display_name: Seq<char>,
        signal: Signal,
    },
    Sweep { context: Option<ConversationId> },
}

impl View for Command {
    type V = CommandView;

    open spec fn view(&self) -> CommandView {
        match *self {
            Command::Indicator { context, participant, display_name, signal } => {
                CommandView::Indicator {
                    context,
                    participant,
                    display_name: display_name@,
                    signal,
                }
            },
            Command::Sweep { context } => CommandView::Sweep { context },
        }
    }
}

impl CommandView {
    /// The conversation that the command was issued for.
    pub open spec fn context(self) -> Option<ConversationId> {
        match self {
            CommandView::Indicator { context, .. } => context,
            CommandView::Sweep { context } => context,
        }
    }
}

/// One tracked participant, as a mathematical value.
pub struct EntryView {
    pub participant: ParticipantId,
    pub display_name: Seq<char>,
    /// The clock's reading at the last `Started` signal.
    pub last_signal: u64,
}

/// What the coordinator knows: the conversation it tracks, and the
/// participants who are typing in it, in the order in which each first
/// signalled.
pub struct PresenceView {
    pub active: Option<ConversationId>,
    pub entries: Seq<EntryView>,
}

/// The time that has passed at `now` since `last`; none if the clock reads
/// less than it did then.
pub open spec fn elapsed(now: u64, last: u64) -> int {
    if now >= last {
        now - last
    } else {
        0
    }
}

/// Whether an entry has gone stale at `now`.
pub open spec fn stale(entry: EntryView, now: u64) -> bool {
    elapsed(now, entry.last_signal) > STALE_AFTER_MS
}

/// Whether `participant` is in the display set.
pub open spec fn is_typing(entries: Seq<EntryView>, participant: ParticipantId) -> bool {
    exists|i: int| 0 <= i < entries.len() && (#[trigger] entries[i]).participant == participant
}

/// The display set: each typing participant with the name to show.
pub open spec fn display(entries: Seq<EntryView>) -> Seq<(ParticipantId, Seq<char>)> {
    Seq::new(entries.len(), |i: int| (entries[i].participant, entries[i].display_name))
}

/// No participant is tracked twice.
pub open spec fn distinct(entries: Seq<EntryView>) -> bool {
    forall|i: int, j: int|
        0 <= i < j < entries.len() ==> (#[trigger] entries[i]).participant != (
        #[trigger] entries[j]).participant
}

/// An entry after a new signal of `participant` at `now`: its own time is
/// renewed, its name stays; any other entry is untouched.
pub open spec fn renewed(entry: EntryView, participant: ParticipantId, now: u64) -> EntryView {
    if entry.participant == participant {
        EntryView { last_signal: now, ..entry }
    } else {
        entry
    }
}

/// The entries after `participant` signalled `Started` at `now`.
pub open spec fn started(
    entries: Seq<EntryView>,
    participant: ParticipantId,
    display_name: Seq<char>,
    now: u64,
) -> Seq<EntryView> {
    if is_typing(entries, participant) {
        Seq::new(entries.len(), |i: int| renewed(entries[i], participant, now))
    } else {
        entries.push(EntryView { participant, display_name, last_signal: now })
    }
}

/// The test "is not `participant`".
pub open spec fn is_other(participant: ParticipantId) -> spec_fn(EntryView) -> bool {
    |entry: EntryView| entry.participant != participant
}

/// The test "is not stale at `now`".
pub open spec fn is_fresh(now: u64) -> spec_fn(EntryView) -> bool {
    |entry: EntryView| !stale(entry, now)
}

/// The entries after `participant` signalled `Stopped`.
pub open spec fn stopped(entries: Seq<EntryView>, participant: ParticipantId) -> Seq<EntryView> {
    entries.filter(is_other(participant))
}

/// The entries after a sweep at `now`.
pub open spec fn swept(entries: Seq<EntryView>, now: u64) -> Seq<EntryView> {
    entries.filter(is_fresh(now))
}

/// The state after the context of an incoming command has been looked at:
/// unchanged where it is the active one, else empty and bound to the new
/// one.
pub open spec fn adopted(state: PresenceView, context: Option<ConversationId>) -> PresenceView {
    if context == state.active {
        state
    } else {
        PresenceView { active: context, entries: Seq::empty() }
    }
}

/// What a command does to the entries of its own context.
pub open spec fn effect(entries: Seq<EntryView>, command: CommandView, now: u64) -> Seq<
    EntryView,
> {
    match command {
        CommandView::Indicator { participant, display_name, signal: Signal::Started, .. } => {
            started(entries, participant, display_name, now)
        },
        CommandView::Indicator { participant, signal: Signal::Stopped, .. } => {
            stopped(entries, participant)
        },
        CommandView::Sweep { .. } => swept(entries, now),
    }
}

/// The state after `command` was handled at `now`. The command's context is
/// adopted first. A command for no conversation at all does nothing more.
pub open spec fn step(state: PresenceView, command: CommandView, now: u64) -> PresenceView {
    let base = adopted(state, command.context());
    if base.active.is_some() {
        PresenceView { active: base.active, entries: effect(base.entries, command, now) }
    } else {
        base
    }
}

/// Filtering tracks `participant` exactly where the unfiltered entries hold
/// an entry of that participant which passes the test; and entries that
/// were distinct stay so.
pub proof fn lemma_filter_entries(entries: Seq<EntryView>, test: spec_fn(EntryView) -> bool)
    ensures
        forall|p: ParticipantId|
            is_typing(entries.filter(test), p) <==> exists|i: int|
                0 <= i < entries.len() && (#[trigger] entries[i]).participant == p && test(
                    entries[i],
                ),
        distinct(entries) ==> distinct(entries.filter(test)),
    decreases entries.len(),
{
    reveal(Seq::filter);
    if entries.len() > 0 {
        let front = entries.drop_last();
        let last = entries.last();
        let kept = entries.filter(test);
        let kept_front = front.filter(test);
        lemma_filter_entries(front, test);
        assert forall|p: ParticipantId| is_typing(kept, p) implies exists|i: int|
            0 <= i < entries.len() && (#[trigger] entries[i]).participant == p && test(
                entries[i],
            ) by {
            let k = choose|k: int| 0 <= k < kept.len() && (#[trigger] kept[k]).participant == p;
            if test(last) && k == kept.len() - 1 {
                assert(entries[entries.len() - 1] == last);
            } else {
                assert(kept_front[k] == kept[k]);
                assert(is_typing(kept_front, p));
                let i = choose|i: int|
                    0 <= i < front.len() && (#[trigger] front[i]).participant == p && test(
                        front[i],
                    );
                assert(entries[i] == front[i]);
            }
        }
        assert forall|p: ParticipantId|
            (exists|i: int|
                0 <= i < entries.len() && (#[trigger] entries[i]).participant == p && test(
                    entries[i],
                )) implies is_typing(kept, p) by {
            let i = choose|i: int|
                0 <= i < entries.len() && (#[trigger] entries[i]).participant == p && test(
                    entries[i],
                );
            if i == entries.len() - 1 {
                assert(kept[kept.len() - 1] == last);
            } else {
                assert(front[i] == entries[i]);
                assert(is_typing(kept_front, p));
                let k = choose|k: int|
                    0 <= k < kept_front.len() && (#[trigger] kept_front[k]).participant == p;
                assert(kept[k] == kept_front[k]);
            }
        }
        if distinct(entries) {
            assert(distinct(front)) by {
                assert forall|i: int, j: int| 0 <= i < j < front.len() implies (
                #[trigger] front[i]).participant != (#[trigger] front[j]).participant by {
                    assert(front[i] == entries[i] && front[j] == entries[j]);
                }
            }
            assert forall|i: int, j: int| 0 <= i < j < kept.len() implies (
            #[trigger] kept[i]).participant != (#[trigger] kept[j]).participant by {
                if test(last) && j == kept.len() - 1 {
                    assert(kept_front[i] == kept[i]);
                    assert(is_typing(kept_front, kept[i].participant));
                    let m = choose|m: int|
                        0 <= m < front.len() && (#[trigger] front[m]).participant
                            == kept[i].participant && test(front[m]);
                    assert(entries[m] == front[m]);
                    assert(entries[m].participant != entries[entries.len() - 1].participant);
                } else {
                    assert(kept_front[i] == kept[i] && kept_front[j] == kept[j]);
                }
            }
        }
    }
}

/// `Started` keeps distinct entries distinct, and tracks the participant.
pub proof fn lemma_started(
    entries: Seq<EntryView>,
    participant: ParticipantId,
    display_name: Seq<char>,
    now: u64,
)
    requires
        distinct(entries),
    ensures
        distinct(started(entries, participant, display_name, now)),
        is_typing(started(entries, participant, display_name, now), participant),
        forall|i: int|
            0 <= i < started(entries, participant, display_name, now).len() && (
            #[trigger] started(entries, participant, display_name, now)[i]).participant
                == participant ==> started(
                entries,
                participant,
                display_name,
                now,
            )[i].last_signal == now,
{
    let after = started(entries, participant, display_name, now);
    if is_typing(entries, participant) {
        let i = choose|i: int|
            0 <= i < entries.len() && (#[trigger] entries[i]).participant == participant;
        assert(after[i].participant == participant);
        assert forall|a: int, b: int| 0 <= a < b < after.len() implies (
        #[trigger] after[a]).participant != (#[trigger] after[b]).participant by {
            assert(entries[a].participant != entries[b].participant);
        }
    } else {
        assert(after[entries.len() as int].participant == participant);
        assert forall|a: int, b: int| 0 <= a < b < after.len() implies (
        #[trigger] after[a]).participant != (#[trigger] after[b]).participant by {
            if b == entries.len() {
                assert(after[a] == entries[a]);
            } else {
                assert(entries[a].participant != entries[b].participant);
            }
        }
    }
}

/// A step keeps distinct entries distinct.
pub proof fn lemma_step_distinct(state: PresenceView, command: CommandView, now: u64)
    requires
        distinct(state.entries),
    ensures
        distinct(step(state, command, now).entries),
{
    let base = adopted(state, command.context());
    match command {
        CommandView::Indicator { participant, display_name, signal: Signal::Started, .. } => {
            lemma_started(base.entries, participant, display_name, now);
        },
        CommandView::Indicator { participant, signal: Signal::Stopped, .. } => {
            lemma_filter_entries(base.entries, is_other(participant));
        },
        CommandView::Sweep { .. } => {
            lemma_filter_entries(base.entries, is_fresh(now));
        },
    }
}

} // verus!
