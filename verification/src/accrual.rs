//! The engagement calculator: how elapsed time becomes watch time and
//! currency.

use vstd::prelude::*;
use crate::time::{Span, Timestamp};
use crate::user::{User, UserData};

verus! {

/// Whole minutes in `delta` nanoseconds: the whole seconds, divided by sixty
/// and rounded down.
pub open spec fn whole_minutes(delta: int) -> int {
    (delta / 1_000_000_000) / 60
}

/// The record after the time from `u.last_seen_at` to `now` has been
/// credited: the gap is added to the watch time, which is split again into
/// seconds and a sub-second remainder, and one unit of currency is granted
/// for every whole minute of the gap.
pub open spec fn accrued(u: UserData, now: Timestamp) -> UserData {
    let delta = now.as_nanos() - u.last_seen_at.as_nanos();
    let total = u.watch_nanos() + delta;
    UserData {
        hours_seconds: total / 1_000_000_000,
        hours_nanos: total % 1_000_000_000,
        money: u.money + whole_minutes(delta),
        ..u
    }
}

/// Crediting never takes anything away, keeps the sub-second remainder in
/// range, and loses no time: the new watch time is the old one plus the gap.
pub proof fn lemma_accrued(u: UserData, now: Timestamp)
    requires
        u.wf(),
        u.last_seen_at.as_nanos() <= now.as_nanos(),
    ensures
        0 <= accrued(u, now).hours_nanos < 1_000_000_000,
        accrued(u, now).watch_nanos() == u.watch_nanos() + (now.as_nanos()
            - u.last_seen_at.as_nanos()),
        accrued(u, now).hours_seconds >= u.hours_seconds,
        accrued(u, now).money >= u.money,
        accrued(u, now).wf(),
{
}

/// Whether crediting the time up to `now` keeps the counters of `user`
/// within the machine integers.
pub fn can_accrue(user: &User, now: &Timestamp) -> (fits: bool)
    requires
        user.wf(),
        now.wf(),
        user.last_seen_at.as_nanos() <= now.as_nanos(),
    ensures
        fits == accrued(user@, *now).in_range(),
{
    let previous: i128 = user.hours_seconds as i128 * 1_000_000_000 + user.hours_nanos as i128;
    let delta: i128 = now.total_nanos() - user.last_seen_at.total_nanos();
    let seconds: i128 = (previous + delta) / 1_000_000_000;
    let money: i128 = user.money as i128 + (delta / 1_000_000_000) / 60;
    seconds <= i64::MAX as i128 && money <= i64::MAX as i128
}

/// Credits the time since `user` was last seen to its watch time and
/// currency. `last_seen_at` itself is left for the caller to move.
pub fn calculate_hours_and_money(user: &mut User, now: &Timestamp)
    requires
        old(user).wf(),
        now.wf(),
        old(user).last_seen_at.as_nanos() <= now.as_nanos(),
        accrued(old(user)@, *now).in_range(),
    ensures
        final(user)@ == accrued(old(user)@, *now),
{
    let previous: i128 = user.hours_seconds as i128 * 1_000_000_000 + user.hours_nanos as i128;
    let gap = match now.since(&user.last_seen_at) {
        Some(gap) => gap,
        // not taken: `now` does not lie before `last_seen_at`
        None => Span::from_seconds(0),
    };
    let total: i128 = previous + gap.total_nanos();
    user.hours_seconds = (total / 1_000_000_000) as i64;
    user.hours_nanos = (total % 1_000_000_000) as i32;
    user.money = (user.money as i128 + gap.whole_minutes() as i128) as i64;
}

} // verus!
