//! The viewer record kept by the ledger and its mathematical view.

use vstd::prelude::*;
use crate::time::{Timestamp, NANOS_PER_SECOND};

verus! {

/// A chat participant, as held in memory for one request or one ingest step.
#[derive(Debug)]
pub struct User {
    /// Stable identity supplied by the chat source; the key of the record.
    pub channel_id: String,
    /// The name most recently seen for the participant.
    pub display_name: String,
    /// Whole seconds of cumulative watch time.
    pub hours_seconds: i64,
    /// Sub-second remainder of the watch time, in nanoseconds.
    pub hours_nanos: i32,
    /// Balance of the in-app currency.
    pub money: i64,
    /// When the participant first appeared.
    pub first_seen_at: Timestamp,
    /// When the participant was last heard from.
    pub last_seen_at: Timestamp,
}

/// What a `User` means in contracts: its strings as character sequences and
/// its counters as unbounded integers.
pub ghost struct UserData {
    pub channel_id: Seq<char>,
    pub display_name: Seq<char>,
    pub hours_seconds: int,
    pub hours_nanos: int,
    pub money: int,
    pub first_seen_at: Timestamp,
    pub last_seen_at: Timestamp,
}

impl UserData {
    /// The invariant of every record the ledger keeps.
    pub open spec fn wf(self) -> bool {
        &&& self.channel_id.len() > 0
        &&& 0 <= self.hours_seconds
        &&& 0 <= self.hours_nanos < 1_000_000_000
        &&& 0 <= self.money
        &&& self.first_seen_at.wf()
        &&& self.last_seen_at.wf()
        &&& self.first_seen_at.as_nanos() <= self.last_seen_at.as_nanos()
    }

    /// The counters fit the machine integers of a `User`.
    pub open spec fn in_range(self) -> bool {
        &&& i64::MIN <= self.hours_seconds <= i64::MAX
        &&& i32::MIN <= self.hours_nanos <= i32::MAX
        &&& i64::MIN <= self.money <= i64::MAX
    }

    /// The cumulative watch time in nanoseconds.
    pub open spec fn watch_nanos(self) -> int {
        self.hours_seconds * 1_000_000_000 + self.hours_nanos
    }

    /// The record of a participant first seen at `now`: zero counters, and
    /// both timestamps at `now`.
    pub open spec fn fresh(
        channel_id: Seq<char>,
        display_name: Seq<char>,
        now: Timestamp,
    ) -> UserData {
        UserData {
            channel_id,
            display_name,
            hours_seconds: 0,
            hours_nanos: 0,
            money: 0,
            first_seen_at: now,
            last_seen_at: now,
        }
    }
}

impl View for User {
    type V = UserData;

    open spec fn view(&self) -> UserData {
        UserData {
            channel_id: self.channel_id@,
            display_name: self.display_name@,
            hours_seconds: self.hours_seconds as int,
            hours_nanos: self.hours_nanos as int,
            money: self.money as int,
            first_seen_at: self.first_seen_at,
            last_seen_at: self.last_seen_at,
        }
    }
}

impl Clone for User {
    fn clone(&self) -> (copy: User)
        ensures
            copy@ == self@,
    {
        User {
            channel_id: self.channel_id.clone(),
            display_name: self.display_name.clone(),
            hours_seconds: self.hours_seconds,
            hours_nanos: self.hours_nanos,
            money: self.money,
            first_seen_at: self.first_seen_at,
            last_seen_at: self.last_seen_at,
        }
    }
}

impl User {
    /// The record satisfies the ledger's invariant.
    pub open spec fn wf(&self) -> bool {
        self@.wf()
    }

    /// Whether the record satisfies the ledger's invariant.
    pub fn is_valid(&self) -> (valid: bool)
        ensures
            valid == self.wf(),
    {
        !self.channel_id.as_str().is_empty() && self.hours_seconds >= 0 && 0 <= self.hours_nanos
            && self.hours_nanos < 1_000_000_000 && self.money >= 0 && self.first_seen_at.nanos
            < NANOS_PER_SECOND && self.last_seen_at.nanos < NANOS_PER_SECOND
            && !self.last_seen_at.is_before(&self.first_seen_at)
    }

    /// Builds the in-memory record from its parts. Nothing is stored.
    pub fn new(
        channel_id: String,
        display_name: String,
        hours_seconds: i64,
        hours_nanos: i32,
        money: i64,
        first_seen_at: Timestamp,
        last_seen_at: Timestamp,
    ) -> (user: User)
        ensures
            user@ == (UserData {
                channel_id: channel_id@,
                display_name: display_name@,
                hours_seconds: hours_seconds as int,
                hours_nanos: hours_nanos as int,
                money: money as int,
                first_seen_at,
                last_seen_at,
            }),
    {
        User {
            channel_id,
            display_name,
            hours_seconds,
            hours_nanos,
            money,
            first_seen_at,
            last_seen_at,
        }
    }
}

} // verus!
