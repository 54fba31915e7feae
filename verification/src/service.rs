//! The lookup service: request handlers over the tables held in memory.
//!
//! Two operations are defined, lookup by channel id and the filtered
//! listing. Every administrative operation answers `Unimplemented` and
//! changes nothing.

use vstd::prelude::*;
use crate::directory::{
    user_view, user_views, Directory, DirectoryData, GroupView, UserView, UserViewData,
};
use crate::query::{
    lemma_filter_by_channel_id, filter_views, query_result, FilterData, QueryData, SortingFields,
    UserFilter, UserQuery,
};
use crate::store::{distinct_ids, lookup, views, UserTable};
use crate::user::UserData;

verus! {

/// The kinds of error that a handler or the ingest loop reports.
#[derive(Clone, Copy, Debug, PartialEq, Eq, Structural)]
pub enum ServiceError {
    /// No record is stored under the channel id asked for.
    NotFound,
    /// The store failed to answer.
    Internal,
    /// The operation has no defined behaviour.
    Unimplemented,
    /// The chat source cannot be reached, or dropped the stream.
    Unavailable,
}

impl ServiceError {
    /// The message that goes out with the error.
    pub fn message(&self) -> (text: &'static str)
        ensures
            text@ == match *self {
                ServiceError::NotFound => "User not found"@,
                ServiceError::Internal => "Failed to load users"@,
                ServiceError::Unimplemented => "Not implemented"@,
                ServiceError::Unavailable => "Message source unavailable"@,
            },
    {
        match self {
            ServiceError::NotFound => "User not found",
            ServiceError::Internal => "Failed to load users",
            ServiceError::Unimplemented => "Not implemented",
            ServiceError::Unavailable => "Message source unavailable",
        }
    }
}

/// The five tables of the ledger, held in memory.
pub struct Database {
    pub users: UserTable,
    pub directory: Directory,
}

/// What a `Database` means in contracts.
pub ghost struct DatabaseData {
    pub users: Seq<UserData>,
    pub directory: DirectoryData,
}

impl View for Database {
    type V = DatabaseData;

    open spec fn view(&self) -> DatabaseData {
        DatabaseData { users: self.users@, directory: self.directory@ }
    }
}

impl Database {
    /// The table of viewers satisfies its invariant.
    pub open spec fn wf(&self) -> bool {
        self.users.wf()
    }

    /// A database without rows.
    pub fn new() -> (database: Database)
        ensures
            database.wf(),
            database@.users == Seq::<UserData>::empty(),
            database@.directory == DirectoryData::empty(),
    {
        Database { users: UserTable::new(), directory: Directory::new() }
    }
}

/// The answer to a listing: the viewers and how many they are.
#[derive(Debug)]
pub struct UserList {
    pub users: Vec<UserView>,
    pub count: usize,
}

/// A rank, known to the service by name only.
#[derive(Debug)]
pub struct RankView {
    pub name: String,
}

/// The outside views of `rows`, in order.
pub open spec fn shown(directory: DirectoryData, rows: Seq<UserData>) -> Seq<UserViewData> {
    rows.map_values(|u: UserData| user_view(directory, u))
}

/// The listing that a request asks for: the records that pass every filter,
/// in the order asked for, each with its groups.
pub open spec fn listing(
    database: DatabaseData,
    filters: Seq<FilterData>,
    sorting: SortingFields,
) -> Seq<UserViewData> {
    shown(database.directory, query_result(database.users, QueryData { filters, sorting }))
}

/// The answer to a lookup: the view of the record found, or `NotFound`.
pub fn found_or_not_found(found: Option<UserView>) -> (response: Result<UserView, ServiceError>)
    ensures
        response == match found {
            Some(view) => Ok::<UserView, ServiceError>(view),
            None => Err::<UserView, ServiceError>(ServiceError::NotFound),
        },
{
    match found {
        Some(view) => Ok(view),
        None => Err(ServiceError::NotFound),
    }
}

/// The answer to a listing: the viewers read from the store with their
/// number, or `Internal` when the store failed to answer.
pub fn listed_or_internal(loaded: Option<Vec<UserView>>) -> (response: Result<
    UserList,
    ServiceError,
>)
    ensures
        match loaded {
            Some(users) => response matches Ok(list) && list.users == users && list.count
                == users@.len(),
            None => response matches Err(kind) && kind == ServiceError::Internal,
        },
{
    match loaded {
        Some(users) => Ok(UserList::of(users)),
        None => Err(ServiceError::Internal),
    }
}

impl UserList {
    /// The listing of `users`, with their number.
    pub fn of(users: Vec<UserView>) -> (list: UserList)
        ensures
            list.users == users,
            list.count == users@.len(),
    {
        let count = users.len();
        UserList { users, count }
    }
}

/// The query service.
pub struct UserServer {
    pub database: Database,
}

impl UserServer {
    /// The tables behind the service satisfy their invariant.
    pub open spec fn wf(&self) -> bool {
        self.database.wf()
    }

    /// A service over `database`.
    pub fn new(database: Database) -> (server: UserServer)
        ensures
            server.database == database,
    {
        UserServer { database }
    }

    /// Looks a viewer up by channel id.
    pub fn get_user_by_id(&self, channel_id: &String) -> (response: Result<UserView, ServiceError>)
        requires
            self.wf(),
        ensures
            match lookup(self.database@.users, channel_id@) {
                Some(u) => response matches Ok(view) && view@ == user_view(
                    self.database@.directory,
                    u,
                ),
                None => response == Err::<UserView, ServiceError>(ServiceError::NotFound),
            },
    {
        let found = match self.database.users.load(channel_id) {
            Some(user) => Some(self.database.directory.to_view(&user)),
            None => None,
        };
        found_or_not_found(found)
    }

    /// Lists the viewers that pass every filter, in the order asked for. An
    /// empty list of filters lists every viewer.
    pub fn filter_users(&self, filters: Vec<UserFilter>, sorting: SortingFields) -> (response:
        Result<UserList, ServiceError>)
        ensures
            response matches Ok(list) && user_views(list.users@) == listing(
                self.database@,
                filter_views(filters@),
                sorting,
            ) && list.count == list.users@.len(),
    {
        let query = UserQuery::new(filters, sorting);
        let rows = self.database.users.select(&query);
        let ghost directory = self.database@.directory;
        let mut users: Vec<UserView> = Vec::new();
        let mut i: usize = 0;
        while i < rows.len()
            invariant
                i <= rows.len(),
                directory == self.database@.directory,
                user_views(users@) == shown(directory, views(rows@).take(i as int)),
            decreases rows.len() - i,
        {
            let view = self.database.directory.to_view(&rows[i]);
            users.push(view);
            assert(shown(directory, views(rows@).take(i + 1)) =~= shown(
                directory,
                views(rows@).take(i as int),
            ).push(user_view(directory, rows[i as int]@)));
            i += 1;
        }
        Ok(UserList::of(users))
    }

    /// Not implemented: answers `Unimplemented` and changes nothing.
    pub fn update_user(&self, _request: UserView) -> (response: Result<UserView, ServiceError>)
        ensures
            response == Err::<UserView, ServiceError>(ServiceError::Unimplemented),
    {
        Err(ServiceError::Unimplemented)
    }

    /// Not implemented: answers `Unimplemented` and changes nothing.
    pub fn update_users(&self, _request: UserList) -> (response: Result<UserList, ServiceError>)
        ensures
            response == Err::<UserList, ServiceError>(ServiceError::Unimplemented),
    {
        Err(ServiceError::Unimplemented)
    }

    /// Not implemented: answers `Unimplemented` and changes nothing.
    pub fn delete_user(&self, _request: UserView) -> (response: Result<(), ServiceError>)
        ensures
            response == Err::<(), ServiceError>(ServiceError::Unimplemented),
    {
        Err(ServiceError::Unimplemented)
    }

    /// Not implemented: answers `Unimplemented` and changes nothing.
    pub fn delete_users(&self, _request: UserList) -> (response: Result<(), ServiceError>)
        ensures
            response == Err::<(), ServiceError>(ServiceError::Unimplemented),
    {
        Err(ServiceError::Unimplemented)
    }

    /// Not implemented: answers `Unimplemented` and writes no row.
    pub fn create_user(&self, _request: UserView) -> (response: Result<UserView, ServiceError>)
        ensures
            response == Err::<UserView, ServiceError>(ServiceError::Unimplemented),
    {
        Err(ServiceError::Unimplemented)
    }

    /// Not implemented: answers `Unimplemented`.
    pub fn user_has_permission(&self, _channel_id: &String, _permission: &String) -> (response:
        Result<bool, ServiceError>)
        ensures
            response == Err::<bool, ServiceError>(ServiceError::Unimplemented),
    {
        Err(ServiceError::Unimplemented)
    }

    /// Not implemented: answers `Unimplemented`.
    pub fn get_groups(&self) -> (response: Result<Vec<GroupView>, ServiceError>)
        ensures
            response == Err::<Vec<GroupView>, ServiceError>(ServiceError::Unimplemented),
    {
        Err(ServiceError::Unimplemented)
    }

    /// Not implemented: answers `Unimplemented` and changes nothing.
    pub fn update_group(&self, _request: GroupView) -> (response: Result<GroupView, ServiceError>)
        ensures
            response == Err::<GroupView, ServiceError>(ServiceError::Unimplemented),
    {
        Err(ServiceError::Unimplemented)
    }

    /// Not implemented: answers `Unimplemented` and changes nothing.
    pub fn update_groups(&self, _request: Vec<GroupView>) -> (response: Result<
        Vec<GroupView>,
        ServiceError,
    >)
        ensures
            response == Err::<Vec<GroupView>, ServiceError>(ServiceError::Unimplemented),
    {
        Err(ServiceError::Unimplemented)
    }

    /// Not implemented: answers `Unimplemented` and changes nothing.
    pub fn delete_group(&self, _request: GroupView) -> (response: Result<(), ServiceError>)
        ensures
            response == Err::<(), ServiceError>(ServiceError::Unimplemented),
    {
        Err(ServiceError::Unimplemented)
    }

    /// Not implemented: answers `Unimplemented` and changes nothing.
    pub fn delete_groups(&self, _request: Vec<GroupView>) -> (response: Result<(), ServiceError>)
        ensures
            response == Err::<(), ServiceError>(ServiceError::Unimplemented),
    {
        Err(ServiceError::Unimplemented)
    }

    /// Not implemented: answers `Unimplemented` and writes no row.
    pub fn create_group(&self, _request: GroupView) -> (response: Result<GroupView, ServiceError>)
        ensures
            response == Err::<GroupView, ServiceError>(ServiceError::Unimplemented),
    {
        Err(ServiceError::Unimplemented)
    }

    /// Not implemented: answers `Unimplemented`.
    pub fn get_ranks(&self) -> (response: Result<Vec<RankView>, ServiceError>)
        ensures
            response == Err::<Vec<RankView>, ServiceError>(ServiceError::Unimplemented),
    {
        Err(ServiceError::Unimplemented)
    }

    /// Not implemented: answers `Unimplemented` and changes nothing.
    pub fn update_rank(&self, _request: RankView) -> (response: Result<RankView, ServiceError>)
        ensures
            response == Err::<RankView, ServiceError>(ServiceError::Unimplemented),
    {
        Err(ServiceError::Unimplemented)
    }

    /// Not implemented: answers `Unimplemented` and changes nothing.
    pub fn update_ranks(&self, _request: Vec<RankView>) -> (response: Result<
        Vec<RankView>,
        ServiceError,
    >)
        ensures
            response == Err::<Vec<RankView>, ServiceError>(ServiceError::Unimplemented),
    {
        Err(ServiceError::Unimplemented)
    }

    /// Not implemented: answers `Unimplemented` and changes nothing.
    pub fn delete_rank(&self, _request: RankView) -> (response: Result<(), ServiceError>)
        ensures
            response == Err::<(), ServiceError>(ServiceError::Unimplemented),
    {
        Err(ServiceError::Unimplemented)
    }

    /// Not implemented: answers `Unimplemented` and changes nothing.
    pub fn delete_ranks(&self, _request: Vec<RankView>) -> (response: Result<(), ServiceError>)
        ensures
            response == Err::<(), ServiceError>(ServiceError::Unimplemented),
    {
        Err(ServiceError::Unimplemented)
    }

    /// Not implemented: answers `Unimplemented` and writes no row.
    pub fn create_rank(&self, _request: RankView) -> (response: Result<RankView, ServiceError>)
        ensures
            response == Err::<RankView, ServiceError>(ServiceError::Unimplemented),
    {
        Err(ServiceError::Unimplemented)
    }
}

/// Listing by the channel id of a stored record returns exactly the view of
/// that record.
pub proof fn lemma_listing_by_channel_id(database: DatabaseData, i: int, sorting: SortingFields)
    requires
        distinct_ids(database.users),
        0 <= i < database.users.len(),
    ensures
        listing(
            database,
            seq![FilterData::ChannelId(database.users[i].channel_id)],
            sorting,
        ) == seq![user_view(database.directory, database.users[i])],
{
    lemma_filter_by_channel_id(database.users, i, sorting);
}

} // verus!
