//! The presence coordinator: the one owner of the typing state.

use vstd::prelude::*;
use crate::ids::{ConversationId, ParticipantId, same_context};
use crate::presence::{
    Command, CommandView, EntryView, PresenceView, Signal, STALE_AFTER_MS, SWEEP_INTERVAL_MS,
    adopted, display, distinct, elapsed, is_fresh, is_typing, lemma_filter_entries,
    lemma_started, lemma_step_distinct, renewed, stale, started, step, stopped, swept,
};

verus! {

/// One tracked participant.
struct TypingEntry {
    participant: ParticipantId,
    display_name: String,
    last_signal: u64,
}

impl View for TypingEntry {
    type V = EntryView;

    closed spec fn view(&self) -> EntryView {
        EntryView {
            participant: self.participant,
            display_name: self.display_name@,
            last_signal: self.last_signal,
        }
    }
}

/// The values of a list of entries.
closed spec fn views(entries: Seq<TypingEntry>) -> Seq<EntryView> {
    Seq::new(entries.len(), |i: int| entries[i]@)
}

/// The coordinator. It tracks one conversation at a time and forgets
/// everything when a command names another.
pub struct Coordinator {
    active: Option<ConversationId>,
    entries: Vec<TypingEntry>,
}

impl View for Coordinator {
    type V = PresenceView;

    closed spec fn view(&self) -> PresenceView {
        PresenceView { active: self.active, entries: views(self.entries@) }
    }
}

/// The entries after `participant` signalled `Started` at `now`.
fn with_signal(
    base: &Vec<TypingEntry>,
    participant: ParticipantId,
    display_name: String,
    now: u64,
) -> (next: Vec<TypingEntry>)
    ensures
        views(next@) == started(views(base@), participant, display_name@, now),
{
    let ghost before = views(base@);
    let mut next: Vec<TypingEntry> = Vec::new();
    let mut found = false;
    let mut i: usize = 0;
    while i < base.len()
        invariant
            i <= base.len(),
            before == views(base@),
            next.len() == i,
            forall|k: int| 0 <= k < i ==> (#[trigger] next@[k])@ == renewed(before[k], participant, now),
            found == is_typing(before.take(i as int), participant),
        decreases base.len() - i,
    {
        let ghost seen = before.take(i as int);
        let ghost seen_more = before.take(i + 1);
        let renew = base[i].participant == participant;
        let last_signal = if renew {
            now
        } else {
            base[i].last_signal
        };
        next.push(
            TypingEntry {
                participant: base[i].participant,
                display_name: base[i].display_name.clone(),
                last_signal,
            },
        );
        proof {
            if found {
                let k = choose|k: int|
                    0 <= k < seen.len() && (#[trigger] seen[k]).participant == participant;
                assert(seen_more[k].participant == participant);
            }
            if renew {
                assert(seen_more[i as int].participant == participant);
            }
            if is_typing(seen_more, participant) {
                let k = choose|k: int|
                    0 <= k < seen_more.len() && (#[trigger] seen_more[k]).participant
                        == participant;
                if k < i {
                    assert(seen[k].participant == participant);
                }
            }
        }
        found = found || renew;
        i += 1;
    }
    assert(before.take(base.len() as int) =~= before);
    if !found {
        next.push(TypingEntry { participant, display_name, last_signal: now });
    }
    assert(views(next@) =~= started(before, participant, display_name@, now));
    next
}

/// The entries after `participant` signalled `Stopped`.
fn without(base: &Vec<TypingEntry>, participant: ParticipantId) -> (next: Vec<TypingEntry>)
    ensures
        views(next@) == stopped(views(base@), participant),
{
    let ghost before = views(base@);
    let mut next: Vec<TypingEntry> = Vec::new();
    let mut i: usize = 0;
    proof {
        reveal(Seq::filter);
        assert(before.take(0) =~= Seq::<EntryView>::empty());
        assert(views(next@) =~= Seq::<EntryView>::empty());
    }
    while i < base.len()
        invariant
            i <= base.len(),
            before == views(base@),
            views(next@) == stopped(before.take(i as int), participant),
        decreases base.len() - i,
    {
        let ghost kept = views(next@);
        proof {
            reveal(Seq::filter);
            assert(before.take(i + 1).drop_last() =~= before.take(i as int));
            assert(before.take(i + 1).last() == base@[i as int]@);
        }
        if base[i].participant != participant {
            next.push(
                TypingEntry {
                    participant: base[i].participant,
                    display_name: base[i].display_name.clone(),
                    last_signal: base[i].last_signal,
                },
            );
            assert(views(next@) =~= kept.push(base@[i as int]@));
        }
        i += 1;
    }
    assert(before.take(base.len() as int) =~= before);
    next
}

/// The entries after a sweep at `now`.
fn fresh(base: &Vec<TypingEntry>, now: u64) -> (next: Vec<TypingEntry>)
    ensures
        views(next@) == swept(views(base@), now),
{
    let ghost before = views(base@);
    let mut next: Vec<TypingEntry> = Vec::new();
    let mut i: usize = 0;
    proof {
        reveal(Seq::filter);
        assert(before.take(0) =~= Seq::<EntryView>::empty());
        assert(views(next@) =~= Seq::<EntryView>::empty());
    }
    while i < base.len()
        invariant
            i <= base.len(),
            before == views(base@),
            views(next@) == swept(before.take(i as int), now),
        decreases base.len() - i,
    {
        let ghost kept = views(next@);
        proof {
            reveal(Seq::filter);
            assert(before.take(i + 1).drop_last() =~= before.take(i as int));
            assert(before.take(i + 1).last() == base@[i as int]@);
        }
        let last: u64 = base[i].last_signal;
        let is_stale = now >= last && now - last > STALE_AFTER_MS;
        assert(is_stale == stale(base@[i as int]@, now));
        if !is_stale {
            next.push(
                TypingEntry {
                    participant: base[i].participant,
                    display_name: base[i].display_name.clone(),
                    last_signal: last,
                },
            );
            assert(views(next@) =~= kept.push(base@[i as int]@));
        }
        i += 1;
    }
    assert(before.take(base.len() as int) =~= before);
    next
}

/// Whether two lists of entries show the same display set.
fn same_display(a: &Vec<TypingEntry>, b: &Vec<TypingEntry>) -> (same: bool)
    ensures
        same == (display(views(a@)) == display(views(b@))),
{
    if a.len() != b.len() {
        assert(display(views(a@)).len() != display(views(b@)).len());
        return false;
    }
    let mut i: usize = 0;
    while i < a.len()
        invariant
            a.len() == b.len(),
            i <= a.len(),
            forall|k: int|
                0 <= k < i ==> display(views(a@))[k] == display(views(b@))[k],
        decreases a.len() - i,
    {
        if a[i].participant != b[i].participant || a[i].display_name != b[i].display_name {
            assert(display(views(a@))[i as int] != display(views(b@))[i as int]);
            return false;
        }
        i += 1;
    }
    assert(display(views(a@)) =~= display(views(b@)));
    true
}

impl Coordinator {
    /// The invariant: no participant is tracked twice.
    pub open spec fn wf(&self) -> bool {
        distinct(self@.entries)
    }

    /// A coordinator that tracks no conversation and nobody.
    pub fn new() -> (coordinator: Coordinator)
        ensures
            coordinator.wf(),
            coordinator@.active.is_none(),
            coordinator@.entries == Seq::<EntryView>::empty(),
    {
        let coordinator = Coordinator { active: None, entries: Vec::new() };
        assert(coordinator@.entries =~= Seq::<EntryView>::empty());
        coordinator
    }

    /// The conversation that is tracked.
    pub fn active(&self) -> (active: Option<ConversationId>)
        ensures
            active == self@.active,
    {
        self.active
    }

    /// How many participants are in the display set.
    pub fn typing_count(&self) -> (count: usize)
        ensures
            count == display(self@.entries).len(),
    {
        self.entries.len()
    }

    /// Whether `participant` is in the display set.
    pub fn is_typing(&self, participant: ParticipantId) -> (typing: bool)
        ensures
            typing == is_typing(self@.entries, participant),
    {
        let mut i: usize = 0;
        while i < self.entries.len()
            invariant
                i <= self.entries.len(),
                forall|k: int|
                    0 <= k < i ==> (#[trigger] self@.entries[k]).participant != participant,
            decreases self.entries.len() - i,
        {
            if self.entries[i].participant == participant {
                assert(self@.entries[i as int].participant == participant);
                return true;
            }
            i += 1;
        }
        false
    }

    /// The member of the display set at position `index`, counted from the
    /// one who has been typing longest: the participant and the name to
    /// show.
    pub fn shown(&self, index: usize) -> (member: Option<(ParticipantId, String)>)
        ensures
            index < display(self@.entries).len() ==> member.is_some() && (
                member.unwrap().0,
                member.unwrap().1@,
            ) == display(self@.entries)[index as int],
            index >= display(self@.entries).len() ==> member.is_none(),
    {
        if index < self.entries.len() {
            Some((self.entries[index].participant, self.entries[index].display_name.clone()))
        } else {
            None
        }
    }

    /// Handles one command at the clock reading `now`.
    ///
    /// A command for another conversation than the tracked one first empties
    /// the state and binds it to the command's conversation. Then, unless
    /// the command names no conversation at all, its own effect applies:
    /// `Started` renews the participant's time and adds them to the display
    /// set if they were absent; `Stopped` removes them; a sweep removes
    /// everyone whose last signal is more than [`STALE_AFTER_MS`] old.
    ///
    /// The result says whether the display set now differs by value from
    /// what it was: only then is there anything to publish.
    pub fn handle(&mut self, command: Command, now: u64) -> (changed: bool)
        requires
            old(self).wf(),
        ensures
            final(self).wf(),
            final(self)@ == step(old(self)@, command@, now),
            changed == (display(final(self)@.entries) != display(old(self)@.entries)),
    {
        let context = match &command {
            Command::Indicator { context, .. } => *context,
            Command::Sweep { context } => *context,
        };
        let switched = !same_context(context, self.active);
        let blank: Vec<TypingEntry> = Vec::new();
        proof {
            reveal(Seq::filter);
            assert(views(blank@) =~= Seq::<EntryView>::empty());
            assert(adopted(self@, context).entries == views(
                if switched {
                    blank@
                } else {
                    self.entries@
                },
            ));
            lemma_step_distinct(self@, command@, now);
        }
        if context.is_none() {
            if switched {
                let changed = self.entries.len() > 0;
                self.active = context;
                self.entries = blank;
                assert(display(old(self)@.entries).len() == old(self).entries.len());
                assert(!changed ==> display(self@.entries) =~= display(old(self)@.entries));
                return changed;
            }
            return false;
        }
        let next = {
            let base: &Vec<TypingEntry> = if switched {
                &blank
            } else {
                &self.entries
            };
            match command {
                Command::Indicator { participant, display_name, signal, .. } => match signal {
                    Signal::Started => with_signal(base, participant, display_name, now),
                    Signal::Stopped => without(base, participant),
                },
                Command::Sweep { .. } => fresh(base, now),
            }
        };
        let changed = !same_display(&self.entries, &next);
        self.active = context;
        self.entries = next;
        changed
    }
}

/// Context isolation. A command for another conversation than the tracked
/// one empties the display set before anything else: afterwards nobody of
/// the earlier conversation is shown, whatever was shown before. The only
/// participant who can be shown is the one the command itself reports as
/// having started.
pub proof fn lemma_switch_clears_display(state: PresenceView, command: CommandView, now: u64)
    requires
        command.context() != state.active,
    ensures
        display(adopted(state, command.context()).entries).len() == 0,
        step(state, command, now).active == command.context(),
        step(state, command, now) == step(
            PresenceView { active: command.context(), entries: Seq::empty() },
            command,
            now,
        ),
        forall|p: ParticipantId| #[trigger]
            is_typing(step(state, command, now).entries, p) ==> command == (
            CommandView::Indicator {
                context: command.context(),
                participant: p,
                display_name: command->Indicator_display_name,
                signal: Signal::Started,
            }),
{
    reveal(Seq::filter);
    let after = step(state, command, now).entries;
    assert forall|p: ParticipantId| #[trigger] is_typing(after, p) implies command == (
    CommandView::Indicator {
        context: command.context(),
        participant: p,
        display_name: command->Indicator_display_name,
        signal: Signal::Started,
    }) by {
        let i = choose|i: int| 0 <= i < after.len() && (#[trigger] after[i]).participant == p;
        assert(after.len() > 0);
        assert(!is_typing(Seq::<EntryView>::empty(), p));
    }
}

/// Staleness. Let `participant` signal `Started` at `then` in the tracked
/// conversation, with no signal after. They are then in the display set. A
/// sweep at `now` keeps them there while no more than [`STALE_AFTER_MS`]
/// have passed, and removes them once more have; so a sweep that comes a
/// whole [`SWEEP_INTERVAL_MS`] after the signal always removes them.
pub proof fn lemma_stale_after_threshold(
    state: PresenceView,
    conversation: ConversationId,
    participant: ParticipantId,
    display_name: Seq<char>,
    then: u64,
    now: u64,
)
    requires
        distinct(state.entries),
        state.active == Some(conversation),
    ensures
        ({
            let signal = CommandView::Indicator {
                context: Some(conversation),
                participant,
                display_name,
                signal: Signal::Started,
            };
            let sweep = CommandView::Sweep { context: Some(conversation) };
            let signalled = step(state, signal, then);
            let swept_state = step(signalled, sweep, now);
            &&& is_typing(signalled.entries, participant)
            &&& elapsed(now, then) <= STALE_AFTER_MS ==> is_typing(
                swept_state.entries,
                participant,
            )
            &&& elapsed(now, then) > STALE_AFTER_MS ==> !is_typing(
                swept_state.entries,
                participant,
            )
            &&& elapsed(now, then) >= SWEEP_INTERVAL_MS ==> !is_typing(
                swept_state.entries,
                participant,
            )
        }),
{
    let signalled = started(state.entries, participant, display_name, then);
    lemma_started(state.entries, participant, display_name, then);
    lemma_filter_entries(signalled, is_fresh(now));
    let after = swept(signalled, now);
    if elapsed(now, then) <= STALE_AFTER_MS {
        let i = choose|i: int|
            0 <= i < signalled.len() && (#[trigger] signalled[i]).participant == participant;
        assert(is_fresh(now)(signalled[i]));
    } else {
        if is_typing(after, participant) {
            let i = choose|i: int|
                0 <= i < signalled.len() && (#[trigger] signalled[i]).participant == participant
                    && is_fresh(now)(signalled[i]);
            assert(signalled[i].last_signal == then);
        }
    }
}

} // verus!
