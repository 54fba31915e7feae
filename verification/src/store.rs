//! An in-memory table of viewers, keyed by channel id.
//!
//! The table is a sequence of records in the order in which they were first
//! saved. No two records share a channel id, and every record satisfies the
//! ledger's invariant.

use vstd::prelude::*;
use crate::user::{User, UserData};

verus! {

/// Whether some record of `rows` has the channel id `id`.
pub open spec fn holds(rows: Seq<UserData>, id: Seq<char>) -> bool {
    exists|i: int| 0 <= i < rows.len() && #[trigger] rows[i].channel_id == id
}

/// The index of a record with the channel id `id`.
pub open spec fn position(rows: Seq<UserData>, id: Seq<char>) -> int
    recommends
        holds(rows, id),
{
    choose|i: int| 0 <= i < rows.len() && #[trigger] rows[i].channel_id == id
}

/// The record stored under `id`, if there is one.
pub open spec fn lookup(rows: Seq<UserData>, id: Seq<char>) -> Option<UserData> {
    if holds(rows, id) {
        Some(rows[position(rows, id)])
    } else {
        None
    }
}

/// No two records share a channel id.
pub open spec fn distinct_ids(rows: Seq<UserData>) -> bool {
    forall|i: int, j: int|
        0 <= i < rows.len() && 0 <= j < rows.len() && i != j ==> #[trigger] rows[i].channel_id
            != #[trigger] rows[j].channel_id
}

/// The invariant of a table: keys are unique and every record is valid.
pub open spec fn table_wf(rows: Seq<UserData>) -> bool {
    &&& distinct_ids(rows)
    &&& forall|i: int| 0 <= i < rows.len() ==> (#[trigger] rows[i]).wf()
}

/// The table after `u` has been saved: the record with the same channel id
/// is replaced in place, or `u` is appended when there is none.
pub open spec fn upsert(rows: Seq<UserData>, u: UserData) -> Seq<UserData> {
    if holds(rows, u.channel_id) {
        rows.update(position(rows, u.channel_id), u)
    } else {
        rows.push(u)
    }
}

/// In a table with unique keys, a record found under `id` at any index is the
/// one that `lookup` returns.
pub proof fn lemma_position_unique(rows: Seq<UserData>, id: Seq<char>, i: int)
    requires
        distinct_ids(rows),
        0 <= i < rows.len(),
        rows[i].channel_id == id,
    ensures
        holds(rows, id),
        position(rows, id) == i,
        lookup(rows, id) == Some(rows[i]),
{
}

/// Saving keeps the table valid.
pub proof fn lemma_upsert_wf(rows: Seq<UserData>, u: UserData)
    requires
        table_wf(rows),
        u.wf(),
    ensures
        table_wf(upsert(rows, u)),
{
}

/// What was saved is what is found: after `u` is saved, the record under its
/// channel id is `u`, and the record under any other id is as before.
pub proof fn lemma_lookup_after_upsert(rows: Seq<UserData>, u: UserData, id: Seq<char>)
    requires
        distinct_ids(rows),
    ensures
        lookup(upsert(rows, u), u.channel_id) == Some(u),
        id != u.channel_id ==> lookup(upsert(rows, u), id) == lookup(rows, id),
        distinct_ids(upsert(rows, u)),
{
    let after = upsert(rows, u);
    let p = if holds(rows, u.channel_id) {
        position(rows, u.channel_id)
    } else {
        rows.len() as int
    };
    lemma_position_unique(after, u.channel_id, p);
    if id != u.channel_id {
        if holds(rows, id) {
            lemma_position_unique(after, id, position(rows, id));
        }
    }
}

/// Saving the same record twice is the same as saving it once.
pub proof fn lemma_upsert_idempotent(rows: Seq<UserData>, u: UserData)
    requires
        distinct_ids(rows),
    ensures
        upsert(upsert(rows, u), u) == upsert(rows, u),
{
    lemma_lookup_after_upsert(rows, u, u.channel_id);
}

/// The views of a sequence of records.
pub open spec fn views(users: Seq<User>) -> Seq<UserData> {
    users.map_values(|u: User| u@)
}

/// An in-memory table of viewers.
pub struct UserTable {
    rows: Vec<User>,
}

impl View for UserTable {
    type V = Seq<UserData>;

    closed spec fn view(&self) -> Seq<UserData> {
        views(self.rows@)
    }
}

impl UserTable {
    /// The table satisfies its invariant.
    pub open spec fn wf(&self) -> bool {
        table_wf(self@)
    }

    /// An empty table.
    pub fn new() -> (table: UserTable)
        ensures
            table@ == Seq::<UserData>::empty(),
            table.wf(),
    {
        UserTable { rows: Vec::new() }
    }

    /// The number of records.
    pub fn len(&self) -> (n: usize)
        ensures
            n == self@.len(),
    {
        self.rows.len()
    }

    /// The record at index `i`, in the order of first saving.
    pub fn row(&self, i: usize) -> (user: &User)
        requires
            i < self@.len(),
        ensures
            user@ == self@[i as int],
    {
        &self.rows[i]
    }

    /// The index of the record with channel id `channel_id`, if any.
    fn find(&self, channel_id: &String) -> (found: Option<usize>)
        ensures
            match found {
                Some(i) => i < self@.len() && self@[i as int].channel_id == channel_id@,
                None => !holds(self@, channel_id@),
            },
    {
        let mut i: usize = 0;
        while i < self.rows.len()
            invariant
                i <= self.rows.len(),
                forall|j: int| 0 <= j < i ==> (#[trigger] self@[j]).channel_id != channel_id@,
            decreases self.rows.len() - i,
        {
            if self.rows[i].channel_id == *channel_id {
                return Some(i);
            }
            i += 1;
        }
        None
    }

    /// Whether a record is stored under `channel_id`.
    pub fn check_if_exists(&self, channel_id: &String) -> (found: bool)
        ensures
            found == holds(self@, channel_id@),
    {
        self.find(channel_id).is_some()
    }

    /// A copy of the record stored under `channel_id`, or `None` when there
    /// is none.
    pub fn load(&self, channel_id: &String) -> (found: Option<User>)
        requires
            self.wf(),
        ensures
            match found {
                Some(user) => lookup(self@, channel_id@) == Some(user@),
                None => lookup(self@, channel_id@).is_none(),
            },
    {
        match self.find(channel_id) {
            Some(i) => Some(self.rows[i].clone()),
            None => None,
        }
    }

    /// Stores `user` under its channel id, replacing the record already
    /// there or adding a new one.
    pub fn save(&mut self, user: User)
        requires
            old(self).wf(),
            user.wf(),
        ensures
            final(self)@ == upsert(old(self)@, user@),
            final(self).wf(),
    {
        match self.find(&user.channel_id) {
            Some(i) => {
                self.rows.set(i, user);
            },
            None => {
                self.rows.push(user);
                assert(self@ =~= upsert(old(self)@, user@));
            },
        }
    }
}

} // verus!
