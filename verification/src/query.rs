//! The composable query over viewers: equality filters joined by "and", and
//! at most one sort order.

use vstd::prelude::*;
use crate::sequences::lemma_filter_push;
use crate::store::{distinct_ids, views, UserTable};
use crate::user::{User, UserData};

verus! {

/// One equality test on a record. String comparisons are exact.
#[derive(Debug)]
pub enum UserFilter {
    ChannelId(String),
    Name(String),
    Hours(i64),
    Money(i64),
}

/// What a `UserFilter` means in contracts.
pub ghost enum FilterData {
    ChannelId(Seq<char>),
    Name(Seq<char>),
    Hours(int),
    Money(int),
}

impl View for UserFilter {
    type V = FilterData;

    open spec fn view(&self) -> FilterData {
        match self {
            UserFilter::ChannelId(id) => FilterData::ChannelId(id@),
            UserFilter::Name(name) => FilterData::Name(name@),
            UserFilter::Hours(seconds) => FilterData::Hours(*seconds as int),
            UserFilter::Money(money) => FilterData::Money(*money as int),
        }
    }
}

/// The order in which a listing is returned.
#[derive(Clone, Copy, Debug, PartialEq, Eq, Structural)]
pub enum SortingFields {
    /// The order in which the records were first saved.
    Default,
    HoursAsc,
    HoursDesc,
    MoneyAsc,
    MoneyDesc,
}

/// The views of a sequence of filters.
pub open spec fn filter_views(filters: Seq<UserFilter>) -> Seq<FilterData> {
    filters.map_values(|f: UserFilter| f@)
}

/// Whether the record passes one filter.
pub open spec fn satisfies(u: UserData, filter: FilterData) -> bool {
    match filter {
        FilterData::ChannelId(id) => u.channel_id == id,
        FilterData::Name(name) => u.display_name == name,
        FilterData::Hours(seconds) => u.hours_seconds == seconds,
        FilterData::Money(money) => u.money == money,
    }
}

/// Whether the record passes every filter.
pub open spec fn satisfies_all(u: UserData, filters: Seq<FilterData>) -> bool {
    forall|i: int| 0 <= i < filters.len() ==> satisfies(u, #[trigger] filters[i])
}

/// The records that pass every filter, in their order in `rows`.
pub open spec fn selected(rows: Seq<UserData>, filters: Seq<FilterData>) -> Seq<UserData> {
    rows.filter(|u: UserData| satisfies_all(u, filters))
}

/// The number by which a record is ranked: ascending orders rank by the
/// field, descending orders by its negation, and the default order ranks
/// every record alike.
pub open spec fn sort_key(u: UserData, sorting: SortingFields) -> int {
    match sorting {
        SortingFields::Default => 0,
        SortingFields::HoursAsc => u.hours_seconds,
        SortingFields::HoursDesc => -u.hours_seconds,
        SortingFields::MoneyAsc => u.money,
        SortingFields::MoneyDesc => -u.money,
    }
}

/// `sorted` with `u` put behind the last record that ranks no higher.
pub open spec fn placed(sorted: Seq<UserData>, u: UserData, sorting: SortingFields) -> Seq<UserData>
    decreases sorted.len(),
{
    if sorted.len() > 0 && sort_key(u, sorting) < sort_key(sorted.last(), sorting) {
        placed(sorted.drop_last(), u, sorting).push(sorted.last())
    } else {
        sorted.push(u)
    }
}

/// `rows` in ascending rank; records of equal rank keep their order.
pub open spec fn ordered(rows: Seq<UserData>, sorting: SortingFields) -> Seq<UserData>
    decreases rows.len(),
{
    if rows.len() == 0 {
        rows
    } else {
        placed(ordered(rows.drop_last(), sorting), rows.last(), sorting)
    }
}

/// What a `UserQuery` means in contracts.
pub ghost struct QueryData {
    pub filters: Seq<FilterData>,
    pub sorting: SortingFields,
}

/// The answer to a query: the records that pass every filter, in the order
/// asked for.
pub open spec fn query_result(rows: Seq<UserData>, query: QueryData) -> Seq<UserData> {
    ordered(selected(rows, query.filters), query.sorting)
}

/// A query over all viewers, narrowed by filters and put in one order.
#[derive(Debug)]
pub struct UserQuery {
    filters: Vec<UserFilter>,
    sorting: SortingFields,
}

impl View for UserQuery {
    type V = QueryData;

    closed spec fn view(&self) -> QueryData {
        QueryData { filters: filter_views(self.filters@), sorting: self.sorting }
    }
}

/// Whether `user` passes `filter`.
pub fn passes(user: &User, filter: &UserFilter) -> (ok: bool)
    ensures
        ok == satisfies(user@, filter@),
{
    match filter {
        UserFilter::ChannelId(id) => user.channel_id == *id,
        UserFilter::Name(name) => user.display_name == *name,
        UserFilter::Hours(seconds) => user.hours_seconds == *seconds,
        UserFilter::Money(money) => user.money == *money,
    }
}

/// The rank of `user` under `sorting`.
pub fn rank(user: &User, sorting: SortingFields) -> (key: i128)
    ensures
        key == sort_key(user@, sorting),
{
    match sorting {
        SortingFields::Default => 0,
        SortingFields::HoursAsc => user.hours_seconds as i128,
        SortingFields::HoursDesc => -(user.hours_seconds as i128),
        SortingFields::MoneyAsc => user.money as i128,
        SortingFields::MoneyDesc => -(user.money as i128),
    }
}

impl UserQuery {
    /// The query with the given filters and order.
    pub fn new(filters: Vec<UserFilter>, sorting: SortingFields) -> (query: UserQuery)
        ensures
            query@ == (QueryData { filters: filter_views(filters@), sorting }),
    {
        UserQuery { filters, sorting }
    }

    /// The query that every record passes, in the default order.
    pub fn all() -> (query: UserQuery)
        ensures
            query@ == (QueryData { filters: Seq::empty(), sorting: SortingFields::Default }),
    {
        let query = UserQuery { filters: Vec::new(), sorting: SortingFields::Default };
        assert(query@.filters =~= Seq::empty());
        query
    }

    /// The query narrowed by one more filter.
    pub fn filter(self, filter: UserFilter) -> (query: UserQuery)
        ensures
            query@ == (QueryData { filters: self@.filters.push(filter@), sorting: self@.sorting }),
    {
        let mut filters = self.filters;
        filters.push(filter);
        let query = UserQuery { filters, sorting: self.sorting };
        assert(query@.filters =~= self@.filters.push(filter@));
        query
    }

    /// The query with its order replaced by `sorting`.
    pub fn order_by(self, sorting: SortingFields) -> (query: UserQuery)
        ensures
            query@ == (QueryData { filters: self@.filters, sorting }),
    {
        UserQuery { filters: self.filters, sorting }
    }

    /// The order of the query.
    pub fn sorting(&self) -> (sorting: SortingFields)
        ensures
            sorting == self@.sorting,
    {
        self.sorting
    }

    /// The filters of the query, in the order in which they were added.
    pub fn filters(&self) -> (filters: &Vec<UserFilter>)
        ensures
            filter_views(filters@) == self@.filters,
    {
        &self.filters
    }

    /// Whether `user` passes every filter of the query.
    pub fn accepts(&self, user: &User) -> (ok: bool)
        ensures
            ok == satisfies_all(user@, self@.filters),
    {
        let mut i: usize = 0;
        while i < self.filters.len()
            invariant
                i <= self.filters.len(),
                forall|j: int| 0 <= j < i ==> satisfies(user@, #[trigger] self@.filters[j]),
            decreases self.filters.len() - i,
        {
            if !passes(user, &self.filters[i]) {
                assert(!satisfies(user@, self@.filters[i as int]));
                return false;
            }
            i += 1;
        }
        true
    }
}

/// Where `placed` puts a record: at the index behind which every record
/// ranks higher and before which the neighbour, if any, ranks no higher.
pub proof fn lemma_placed_at(sorted: Seq<UserData>, u: UserData, sorting: SortingFields, p: int)
    requires
        0 <= p <= sorted.len(),
        forall|j: int|
            p <= j < sorted.len() ==> sort_key(u, sorting) < sort_key(#[trigger] sorted[j], sorting),
        p > 0 ==> sort_key(sorted[p - 1], sorting) <= sort_key(u, sorting),
    ensures
        placed(sorted, u, sorting) == sorted.insert(p, u),
    decreases sorted.len(),
{
    if sorted.len() > 0 && sort_key(u, sorting) < sort_key(sorted.last(), sorting) {
        lemma_placed_at(sorted.drop_last(), u, sorting, p);
    }
}

impl UserTable {
    /// The records that the query selects, in the order it asks for.
    pub fn select(&self, query: &UserQuery) -> (users: Vec<User>)
        ensures
            views(users@) == query_result(self@, query@),
    {
        let sorting = query.sorting();
        let mut users: Vec<User> = Vec::new();
        let mut i: usize = 0;
        while i < self.len()
            invariant
                i <= self@.len(),
                sorting == query@.sorting,
                views(users@) == ordered(selected(self@.take(i as int), query@.filters), sorting),
            decreases self@.len() - i,
        {
            let user = self.row(i);
            proof {
                assert(self@.take(i + 1) =~= self@.take(i as int).push(user@));
                lemma_filter_push(
                    self@.take(i as int),
                    user@,
                    |u: UserData| satisfies_all(u, query@.filters),
                );
            }
            if query.accepts(user) {
                let key = rank(user, sorting);
                let mut p: usize = users.len();
                while p > 0 && key < rank(&users[p - 1], sorting)
                    invariant
                        p <= users.len(),
                        key == sort_key(user@, sorting),
                        forall|j: int|
                            p <= j < users.len() ==> key < sort_key(
                                #[trigger] views(users@)[j],
                                sorting,
                            ),
                    decreases p,
                {
                    p -= 1;
                }
                proof {
                    let chosen = selected(self@.take(i as int), query@.filters);
                    lemma_placed_at(views(users@), user@, sorting, p as int);
                    assert(chosen.push(user@).drop_last() =~= chosen);
                }
                users.insert(p, user.clone());
            }
            i += 1;
        }
        assert(self@.take(i as int) =~= self@);
        users
    }
}

/// The answer to a query is in ascending rank.
pub proof fn lemma_ordered_ascends(rows: Seq<UserData>, sorting: SortingFields)
    ensures
        ordered(rows, sorting).len() == rows.len(),
        forall|i: int, j: int|
            0 <= i <= j < rows.len() ==> sort_key(#[trigger] ordered(rows, sorting)[i], sorting)
                <= sort_key(#[trigger] ordered(rows, sorting)[j], sorting),
    decreases rows.len(),
{
    if rows.len() > 0 {
        let rest = ordered(rows.drop_last(), sorting);
        lemma_ordered_ascends(rows.drop_last(), sorting);
        lemma_placed_ascends(rest, rows.last(), sorting);
    }
}

/// Placing a record into a sequence in ascending rank leaves it in
/// ascending rank, one record longer.
pub proof fn lemma_placed_ascends(sorted: Seq<UserData>, u: UserData, sorting: SortingFields)
    requires
        forall|i: int, j: int|
            0 <= i <= j < sorted.len() ==> sort_key(#[trigger] sorted[i], sorting) <= sort_key(
                #[trigger] sorted[j],
                sorting,
            ),
    ensures
        placed(sorted, u, sorting).len() == sorted.len() + 1,
        forall|i: int, j: int|
            0 <= i <= j < sorted.len() + 1 ==> sort_key(
                #[trigger] placed(sorted, u, sorting)[i],
                sorting,
            ) <= sort_key(#[trigger] placed(sorted, u, sorting)[j], sorting),
        forall|i: int|
            0 <= i < sorted.len() + 1 ==> (#[trigger] placed(sorted, u, sorting)[i]) == u
                || sorted.contains(placed(sorted, u, sorting)[i]),
    decreases sorted.len(),
{
    if sorted.len() > 0 && sort_key(u, sorting) < sort_key(sorted.last(), sorting) {
        lemma_placed_ascends(sorted.drop_last(), u, sorting);
    }
}

/// Ordering rearranges and nothing else: the answer holds every record as
/// often as the input does.
pub proof fn lemma_ordered_permutes(rows: Seq<UserData>, sorting: SortingFields)
    ensures
        ordered(rows, sorting).to_multiset() == rows.to_multiset(),
    decreases rows.len(),
{
    broadcast use vstd::seq_lib::group_to_multiset_ensures;

    if rows.len() > 0 {
        let rest = ordered(rows.drop_last(), sorting);
        lemma_ordered_permutes(rows.drop_last(), sorting);
        lemma_placed_permutes(rest, rows.last(), sorting);
        assert(rows.drop_last().push(rows.last()) =~= rows);
    }
}

/// Placing a record adds that record and nothing else.
pub proof fn lemma_placed_permutes(sorted: Seq<UserData>, u: UserData, sorting: SortingFields)
    ensures
        placed(sorted, u, sorting).to_multiset() == sorted.to_multiset().insert(u),
    decreases sorted.len(),
{
    broadcast use vstd::seq_lib::group_to_multiset_ensures;

    if sorted.len() > 0 && sort_key(u, sorting) < sort_key(sorted.last(), sorting) {
        lemma_placed_permutes(sorted.drop_last(), u, sorting);
        assert(sorted.drop_last().push(sorted.last()) =~= sorted);
    }
}

/// The records of rank `k`.
pub open spec fn of_rank(rows: Seq<UserData>, sorting: SortingFields, k: int) -> Seq<UserData> {
    rows.filter(|u: UserData| sort_key(u, sorting) == k)
}

/// Placing a record puts it behind the records of its own rank and leaves
/// the records of every rank in the order they had.
pub proof fn lemma_placed_keeps_ties(
    sorted: Seq<UserData>,
    u: UserData,
    sorting: SortingFields,
    k: int,
)
    ensures
        of_rank(placed(sorted, u, sorting), sorting, k) == if sort_key(u, sorting) == k {
            of_rank(sorted, sorting, k).push(u)
        } else {
            of_rank(sorted, sorting, k)
        },
    decreases sorted.len(),
{
    let pred = |u: UserData| sort_key(u, sorting) == k;
    if sorted.len() > 0 && sort_key(u, sorting) < sort_key(sorted.last(), sorting) {
        let front = sorted.drop_last();
        lemma_placed_keeps_ties(front, u, sorting, k);
        lemma_filter_push(placed(front, u, sorting), sorted.last(), pred);
        lemma_filter_push(front, sorted.last(), pred);
        assert(front.push(sorted.last()) =~= sorted);
    } else {
        lemma_filter_push(sorted, u, pred);
    }
}

/// Ordering is stable: the records of any one rank come out in the order in
/// which they went in.
pub proof fn lemma_ordered_keeps_ties(rows: Seq<UserData>, sorting: SortingFields, k: int)
    ensures
        of_rank(ordered(rows, sorting), sorting, k) == of_rank(rows, sorting, k),
    decreases rows.len(),
{
    if rows.len() > 0 {
        let front = rows.drop_last();
        lemma_ordered_keeps_ties(front, sorting, k);
        lemma_placed_keeps_ties(ordered(front, sorting), rows.last(), sorting, k);
        lemma_filter_push(front, rows.last(), |u: UserData| sort_key(u, sorting) == k);
        assert(front.push(rows.last()) =~= rows);
    }
}

/// The default order is the order of the table.
pub proof fn lemma_default_order(rows: Seq<UserData>)
    ensures
        ordered(rows, SortingFields::Default) == rows,
    decreases rows.len(),
{
    if rows.len() > 0 {
        lemma_default_order(rows.drop_last());
    }
}

/// The selection holds exactly the records that pass every filter: each
/// selected record is a record of the table that passes, and each record of
/// the table that passes is selected.
pub proof fn lemma_selected_exact(rows: Seq<UserData>, filters: Seq<FilterData>, u: UserData)
    ensures
        selected(rows, filters).contains(u) <==> rows.contains(u) && satisfies_all(u, filters),
{
    if selected(rows, filters).contains(u) {
        rows.lemma_filter_contains_rev(|u: UserData| satisfies_all(u, filters), u);
    }
}

/// When exactly one record passes the filters, the selection is that record
/// alone.
pub proof fn lemma_selected_single(rows: Seq<UserData>, filters: Seq<FilterData>, i: int)
    requires
        0 <= i < rows.len(),
        forall|j: int|
            0 <= j < rows.len() ==> (satisfies_all(#[trigger] rows[j], filters) <==> j == i),
    ensures
        selected(rows, filters) == seq![rows[i]],
    decreases rows.len(),
{
    reveal(Seq::filter);
    if i == rows.len() - 1 {
        lemma_selected_none(rows.drop_last(), filters);
    } else {
        lemma_selected_single(rows.drop_last(), filters, i);
    }
}

/// When no record passes the filters, the selection is empty.
pub proof fn lemma_selected_none(rows: Seq<UserData>, filters: Seq<FilterData>)
    requires
        forall|j: int| 0 <= j < rows.len() ==> !satisfies_all(#[trigger] rows[j], filters),
    ensures
        selected(rows, filters) == Seq::<UserData>::empty(),
    decreases rows.len(),
{
    reveal(Seq::filter);
    if rows.len() > 0 {
        lemma_selected_none(rows.drop_last(), filters);
    }
}

/// A query without filters selects every record, and in the default order
/// answers with the table as it stands.
pub proof fn lemma_no_filters(rows: Seq<UserData>)
    ensures
        selected(rows, Seq::empty()) == rows,
        query_result(rows, QueryData { filters: Seq::empty(), sorting: SortingFields::Default })
            == rows,
    decreases rows.len(),
{
    reveal(Seq::filter);
    if rows.len() > 0 {
        lemma_no_filters(rows.drop_last());
    }
}

/// Filtering by the channel id of a stored record returns exactly that
/// record, whatever the order asked for.
pub proof fn lemma_filter_by_channel_id(rows: Seq<UserData>, i: int, sorting: SortingFields)
    requires
        distinct_ids(rows),
        0 <= i < rows.len(),
    ensures
        query_result(
            rows,
            QueryData { filters: seq![FilterData::ChannelId(rows[i].channel_id)], sorting },
        ) == seq![rows[i]],
{
    let filters = seq![FilterData::ChannelId(rows[i].channel_id)];
    assert forall|j: int| 0 <= j < rows.len() implies (satisfies_all(
        #[trigger] rows[j],
        filters,
    ) <==> j == i) by {
        if satisfies_all(rows[j], filters) {
            assert(satisfies(rows[j], filters[0]));
        }
    }
    lemma_selected_single(rows, filters, i);
    let one = seq![rows[i]];
    assert(ordered(one, sorting) == placed(ordered(one.drop_last(), sorting), one.last(), sorting));
}

} // verus!
