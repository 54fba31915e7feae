//! The ingest step: what one chat message does to the record of its author.
//!
//! A message from an unknown channel creates a record with zero counters. A
//! message from a known channel overwrites the display name, credits the time
//! since the last message when that gap exceeded the idle threshold, and
//! moves `last_seen_at` to the time of the message.

use vstd::prelude::*;
use crate::accrual::{accrued, calculate_hours_and_money, can_accrue};
use crate::store::{
    holds, lemma_lookup_after_upsert, lookup, table_wf, upsert, UserTable,
};
use crate::time::{Span, Timestamp, NANOS_PER_SECOND};
use crate::user::{User, UserData};

verus! {

/// The idle threshold used when none is configured, in minutes.
pub const IDLE_THRESHOLD_MINUTES: u64 = 5;

/// The idle threshold used when none is configured: five minutes.
pub fn default_idle_threshold() -> (threshold: Span)
    ensures
        threshold == (Span { secs: 300, nanos: 0 }),
{
    Span::from_seconds(IDLE_THRESHOLD_MINUTES * 60)
}

/// A chat message, as far as the ledger reads it.
#[derive(Debug)]
pub struct Message {
    pub channel_id: String,
    pub display_name: String,
}

/// What a `Message` means in contracts.
pub ghost struct MessageData {
    pub channel_id: Seq<char>,
    pub display_name: Seq<char>,
}

impl View for Message {
    type V = MessageData;

    open spec fn view(&self) -> MessageData {
        MessageData { channel_id: self.channel_id@, display_name: self.display_name@ }
    }
}

/// The view of a record that may be absent.
pub open spec fn view_of(existing: Option<User>) -> Option<UserData> {
    match existing {
        Some(user) => Some(user@),
        None => None,
    }
}

/// The active-session rule: the gap from `last_seen` to `now` is strictly
/// longer than the threshold.
pub open spec fn idle_gap_exceeded(last_seen: Timestamp, now: Timestamp, threshold: Span) -> bool {
    last_seen.as_nanos() + threshold.as_nanos() < now.as_nanos()
}

/// The record of the author after a message received at `now`.
///
/// The rule is tested against the `last_seen_at` that was stored before the
/// message; only then does `last_seen_at` move to `now`.
pub open spec fn observed(
    existing: Option<UserData>,
    message: MessageData,
    now: Timestamp,
    threshold: Span,
) -> UserData {
    let known = match existing {
        Some(u) => u,
        None => UserData::fresh(message.channel_id, message.display_name, now),
    };
    let renamed = UserData { display_name: message.display_name, ..known };
    let credited = if idle_gap_exceeded(known.last_seen_at, now, threshold) {
        accrued(renamed, now)
    } else {
        renamed
    };
    UserData { last_seen_at: now, ..credited }
}

/// The inputs on which a message can be applied: the message names its
/// channel, the clock has not run backwards past the stored record, and the
/// counters after the message fit the machine integers.
pub open spec fn observable(
    existing: Option<UserData>,
    message: MessageData,
    now: Timestamp,
    threshold: Span,
) -> bool {
    &&& message.channel_id.len() > 0
    &&& now.wf()
    &&& threshold.wf()
    &&& match existing {
        Some(u) => {
            &&& u.wf()
            &&& u.channel_id == message.channel_id
            &&& u.last_seen_at.as_nanos() <= now.as_nanos()
            &&& observed(existing, message, now, threshold).in_range()
        },
        None => true,
    }
}

/// Whether the active-session rule asks for crediting.
pub fn is_idle_return(last_seen: &Timestamp, now: &Timestamp, threshold: &Span) -> (idle: bool)
    ensures
        idle == idle_gap_exceeded(*last_seen, *now, *threshold),
{
    last_seen.total_nanos() + threshold.total_nanos() < now.total_nanos()
}

/// Whether `message`, received at `now`, can be applied to `existing`.
pub fn can_process(
    existing: &Option<User>,
    message: &Message,
    now: &Timestamp,
    threshold: &Span,
) -> (ok: bool)
    ensures
        ok == observable(view_of(*existing), message@, *now, *threshold),
{
    if message.channel_id.as_str().is_empty() || now.nanos >= NANOS_PER_SECOND || threshold.nanos
        >= NANOS_PER_SECOND {
        return false;
    }
    match existing {
        None => true,
        Some(user) => {
            if !user.is_valid() || user.channel_id != message.channel_id || now.is_before(
                &user.last_seen_at,
            ) {
                false
            } else if is_idle_return(&user.last_seen_at, now, threshold) {
                can_accrue(user, now)
            } else {
                true
            }
        },
    }
}

/// Applies one message: the record to be saved for its author.
pub fn process_message(
    existing: Option<User>,
    message: &Message,
    now: &Timestamp,
    threshold: &Span,
) -> (user: User)
    requires
        observable(view_of(existing), message@, *now, *threshold),
    ensures
        user@ == observed(view_of(existing), message@, *now, *threshold),
        user.wf(),
{
    let mut user = match existing {
        Some(user) => user,
        None => User::new(
            message.channel_id.clone(),
            message.display_name.clone(),
            0,
            0,
            0,
            *now,
            *now,
        ),
    };
    user.display_name = message.display_name.clone();
    if is_idle_return(&user.last_seen_at, now, threshold) {
        calculate_hours_and_money(&mut user, now);
    }
    user.last_seen_at = *now;
    user
}

/// Whether `message`, received at `now`, can be applied to the table.
pub open spec fn ingestible(
    rows: Seq<UserData>,
    message: MessageData,
    now: Timestamp,
    threshold: Span,
) -> bool {
    observable(lookup(rows, message.channel_id), message, now, threshold)
}

/// The table after `message`, received at `now`, has been applied: the
/// record of its author is looked up, updated, and saved.
pub open spec fn ingested(
    rows: Seq<UserData>,
    message: MessageData,
    now: Timestamp,
    threshold: Span,
) -> Seq<UserData> {
    upsert(rows, observed(lookup(rows, message.channel_id), message, now, threshold))
}

/// A message together with the clock reading taken when it arrived.
#[derive(Debug)]
pub struct Event {
    pub message: Message,
    pub received_at: Timestamp,
}

/// What an `Event` means in contracts.
pub ghost struct EventData {
    pub message: MessageData,
    pub received_at: Timestamp,
}

impl View for Event {
    type V = EventData;

    open spec fn view(&self) -> EventData {
        EventData { message: self.message@, received_at: self.received_at }
    }
}

/// The views of a sequence of events.
pub open spec fn event_views(events: Seq<Event>) -> Seq<EventData> {
    events.map_values(|e: Event| e@)
}

/// The table after the events have been applied one after the other, in the
/// order of the sequence.
pub open spec fn ingested_all(
    rows: Seq<UserData>,
    events: Seq<EventData>,
    threshold: Span,
) -> Seq<UserData>
    decreases events.len(),
{
    if events.len() == 0 {
        rows
    } else {
        let e = events.last();
        let before = ingested_all(rows, events.drop_last(), threshold);
        ingested(before, e.message, e.received_at, threshold)
    }
}

/// Every event can be applied at the point at which its turn comes.
pub open spec fn all_ingestible(
    rows: Seq<UserData>,
    events: Seq<EventData>,
    threshold: Span,
) -> bool
    decreases events.len(),
{
    events.len() == 0 || {
        let e = events.last();
        &&& all_ingestible(rows, events.drop_last(), threshold)
        &&& ingestible(
            ingested_all(rows, events.drop_last(), threshold),
            e.message,
            e.received_at,
            threshold,
        )
    }
}

impl UserTable {
    /// Applies one message to the table. Returns `false`, and leaves the
    /// table as it was, when the message cannot be applied.
    pub fn ingest(&mut self, message: &Message, now: &Timestamp, threshold: &Span) -> (applied:
        bool)
        requires
            old(self).wf(),
        ensures
            final(self).wf(),
            applied == ingestible(old(self)@, message@, *now, *threshold),
            final(self)@ == if applied {
                ingested(old(self)@, message@, *now, *threshold)
            } else {
                old(self)@
            },
    {
        let existing = self.load(&message.channel_id);
        if !can_process(&existing, message, now, threshold) {
            return false;
        }
        let user = process_message(existing, message, now, threshold);
        self.save(user);
        true
    }

    /// Applies the events in order and stops before the first one that
    /// cannot be applied. Returns the number of events applied.
    pub fn ingest_all(&mut self, events: &Vec<Event>, threshold: &Span) -> (applied: usize)
        requires
            old(self).wf(),
        ensures
            final(self).wf(),
            applied <= events.len(),
            all_ingestible(old(self)@, event_views(events@).take(applied as int), *threshold),
            final(self)@ == ingested_all(
                old(self)@,
                event_views(events@).take(applied as int),
                *threshold,
            ),
            applied < events.len() ==> !ingestible(
                final(self)@,
                events[applied as int]@.message,
                events[applied as int].received_at,
                *threshold,
            ),
    {
        let ghost start = self@;
        let ghost all = event_views(events@);
        let mut i: usize = 0;
        while i < events.len()
            invariant
                self.wf(),
                i <= events.len(),
                start == old(self)@,
                all == event_views(events@),
                all_ingestible(start, all.take(i as int), *threshold),
                self@ == ingested_all(start, all.take(i as int), *threshold),
            decreases events.len() - i,
        {
            let event = &events[i];
            if !self.ingest(&event.message, &event.received_at, threshold) {
                return i;
            }
            assert(all.take(i + 1).drop_last() =~= all.take(i as int));
            i += 1;
        }
        i
    }
}

/// A message that can be applied leaves a valid record under the channel id
/// of the message: the sub-second remainder stays below one second and
/// `last_seen_at` does not fall before `first_seen_at`.
pub proof fn lemma_observed_wf(
    existing: Option<UserData>,
    message: MessageData,
    now: Timestamp,
    threshold: Span,
)
    requires
        observable(existing, message, now, threshold),
    ensures
        observed(existing, message, now, threshold).wf(),
        observed(existing, message, now, threshold).channel_id == message.channel_id,
{
}

/// Applying a message keeps the table valid, so every stored record keeps
/// its invariant.
pub proof fn lemma_ingested_wf(
    rows: Seq<UserData>,
    message: MessageData,
    now: Timestamp,
    threshold: Span,
)
    requires
        table_wf(rows),
        ingestible(rows, message, now, threshold),
    ensures
        table_wf(ingested(rows, message, now, threshold)),
{
}

/// Applying any number of messages keeps the table valid.
pub proof fn lemma_ingested_all_wf(rows: Seq<UserData>, events: Seq<EventData>, threshold: Span)
    requires
        table_wf(rows),
        all_ingestible(rows, events, threshold),
    ensures
        table_wf(ingested_all(rows, events, threshold)),
    decreases events.len(),
{
    if events.len() > 0 {
        lemma_ingested_all_wf(rows, events.drop_last(), threshold);
    }
}

/// One message never lowers a counter: the author's watch time and currency
/// after the message are at least what they were, and every other record is
/// untouched.
pub proof fn lemma_ingested_counters(
    rows: Seq<UserData>,
    message: MessageData,
    now: Timestamp,
    threshold: Span,
    id: Seq<char>,
)
    requires
        table_wf(rows),
        ingestible(rows, message, now, threshold),
        holds(rows, id),
    ensures
        holds(ingested(rows, message, now, threshold), id),
        lookup(ingested(rows, message, now, threshold), id).unwrap().hours_seconds >= lookup(
            rows,
            id,
        ).unwrap().hours_seconds,
        lookup(ingested(rows, message, now, threshold), id).unwrap().money >= lookup(
            rows,
            id,
        ).unwrap().money,
        id != message.channel_id ==> lookup(ingested(rows, message, now, threshold), id) == lookup(
            rows,
            id,
        ),
{
    let after = observed(lookup(rows, message.channel_id), message, now, threshold);
    lemma_lookup_after_upsert(rows, after, id);
}

/// Ingest is monotonic: of two messages for the same channel applied in
/// order, the second leaves watch time and currency at least where the first
/// left them.
pub proof fn lemma_ingest_monotonic(
    rows: Seq<UserData>,
    first: EventData,
    second: EventData,
    threshold: Span,
)
    requires
        table_wf(rows),
        first.message.channel_id == second.message.channel_id,
        ingestible(rows, first.message, first.received_at, threshold),
        ingestible(
            ingested(rows, first.message, first.received_at, threshold),
            second.message,
            second.received_at,
            threshold,
        ),
    ensures
        ({
            let id = first.message.channel_id;
            let once = ingested(rows, first.message, first.received_at, threshold);
            let twice = ingested(once, second.message, second.received_at, threshold);
            &&& lookup(once, id).is_some()
            &&& lookup(twice, id).is_some()
            &&& lookup(twice, id).unwrap().hours_seconds >= lookup(once, id).unwrap().hours_seconds
            &&& lookup(twice, id).unwrap().money >= lookup(once, id).unwrap().money
        }),
{
    let id = first.message.channel_id;
    let once = ingested(rows, first.message, first.received_at, threshold);
    lemma_lookup_after_upsert(
        rows,
        observed(lookup(rows, id), first.message, first.received_at, threshold),
        id,
    );
    lemma_ingested_counters(once, second.message, second.received_at, threshold, id);
}

/// Over any run of messages, the watch time and currency of a stored record
/// never decrease.
pub proof fn lemma_ingested_all_counters(
    rows: Seq<UserData>,
    events: Seq<EventData>,
    threshold: Span,
    id: Seq<char>,
)
    requires
        table_wf(rows),
        all_ingestible(rows, events, threshold),
        holds(rows, id),
    ensures
        holds(ingested_all(rows, events, threshold), id),
        lookup(ingested_all(rows, events, threshold), id).unwrap().hours_seconds >= lookup(
            rows,
            id,
        ).unwrap().hours_seconds,
        lookup(ingested_all(rows, events, threshold), id).unwrap().money >= lookup(
            rows,
            id,
        ).unwrap().money,
    decreases events.len(),
{
    if events.len() > 0 {
        let e = events.last();
        let before = ingested_all(rows, events.drop_last(), threshold);
        lemma_ingested_all_counters(rows, events.drop_last(), threshold, id);
        lemma_ingested_all_wf(rows, events.drop_last(), threshold);
        lemma_ingested_counters(before, e.message, e.received_at, threshold, id);
    }
}

/// The display name is the last one written: after a run of messages, the
/// record of a channel carries the display name of the last message of the
/// run that came from that channel.
pub proof fn lemma_last_display_name_wins(
    rows: Seq<UserData>,
    events: Seq<EventData>,
    threshold: Span,
    k: int,
)
    requires
        table_wf(rows),
        all_ingestible(rows, events, threshold),
        0 <= k < events.len(),
        forall|j: int|
            k < j < events.len() ==> (#[trigger] events[j]).message.channel_id
                != events[k].message.channel_id,
    ensures
        lookup(ingested_all(rows, events, threshold), events[k].message.channel_id).is_some(),
        lookup(
            ingested_all(rows, events, threshold),
            events[k].message.channel_id,
        ).unwrap().display_name == events[k].message.display_name,
    decreases events.len(),
{
    let id = events[k].message.channel_id;
    let e = events.last();
    let before = ingested_all(rows, events.drop_last(), threshold);
    let existing = lookup(before, e.message.channel_id);
    let after = observed(existing, e.message, e.received_at, threshold);
    lemma_ingested_all_wf(rows, events.drop_last(), threshold);
    lemma_lookup_after_upsert(before, after, id);
    if k < events.len() - 1 {
        lemma_last_display_name_wins(rows, events.drop_last(), threshold, k);
    }
}

/// Create on first contact: a message from a channel without a record adds
/// exactly one record, with zero counters and both timestamps at the time of
/// the message, and changes no other.
pub proof fn lemma_first_contact(
    rows: Seq<UserData>,
    message: MessageData,
    now: Timestamp,
    threshold: Span,
)
    requires
        !holds(rows, message.channel_id),
    ensures
        ingested(rows, message, now, threshold) == rows.push(
            UserData::fresh(message.channel_id, message.display_name, now),
        ),
{
}

/// A message that arrives no later than the idle threshold after the last
/// one changes only the display name and `last_seen_at`.
pub proof fn lemma_active_session(
    u: UserData,
    message: MessageData,
    now: Timestamp,
    threshold: Span,
)
    requires
        now.as_nanos() <= u.last_seen_at.as_nanos() + threshold.as_nanos(),
    ensures
        observed(Some(u), message, now, threshold) == (UserData {
            display_name: message.display_name,
            last_seen_at: now,
            ..u
        }),
{
}

/// The comparison with the idle threshold is strict: a message that arrives
/// exactly one threshold after the last one credits nothing.
pub proof fn lemma_exactly_at_threshold(
    u: UserData,
    message: MessageData,
    now: Timestamp,
    threshold: Span,
)
    requires
        now.as_nanos() == u.last_seen_at.as_nanos() + threshold.as_nanos(),
    ensures
        !idle_gap_exceeded(u.last_seen_at, now, threshold),
        observed(Some(u), message, now, threshold).hours_seconds == u.hours_seconds,
        observed(Some(u), message, now, threshold).hours_nanos == u.hours_nanos,
        observed(Some(u), message, now, threshold).money == u.money,
{
}

/// A message that arrives later than the idle threshold after the last one
/// credits the whole gap: the watch time grows by the gap, and the currency
/// by its whole minutes.
pub proof fn lemma_idle_return(u: UserData, message: MessageData, now: Timestamp, threshold: Span)
    requires
        u.wf(),
        idle_gap_exceeded(u.last_seen_at, now, threshold),
    ensures
        ({
            let after = observed(Some(u), message, now, threshold);
            let gap = now.as_nanos() - u.last_seen_at.as_nanos();
            &&& after.watch_nanos() == u.watch_nanos() + gap
            &&& 0 <= after.hours_nanos < 1_000_000_000
            &&& after.money == u.money + (gap / 1_000_000_000) / 60
            &&& after.display_name == message.display_name
            &&& after.last_seen_at == now
            &&& after.first_seen_at == u.first_seen_at
            &&& after.channel_id == u.channel_id
        }),
{
}

} // verus!
