//! Groups, memberships and permissions, and the view of a viewer that is
//! shown to the outside.
//!
//! The directory is read-only here: its rows are written by administration,
//! which is no part of this crate.

use vstd::prelude::*;
use crate::sequences::lemma_filter_push;
use crate::time::Timestamp;
use crate::user::{User, UserData};

verus! {

/// A group of viewers.
#[derive(Debug)]
pub struct Group {
    pub id: i64,
    pub name: String,
}

/// The membership of one viewer in one group.
#[derive(Debug)]
pub struct GroupUser {
    pub group_id: i64,
    pub channel_id: String,
}

/// A permission granted to the members of a group.
#[derive(Debug)]
pub struct GroupPermission {
    pub group_id: i64,
    pub permission: String,
}

/// A permission granted to a viewer directly.
#[derive(Debug)]
pub struct UserPermission {
    pub channel_id: String,
    pub permission: String,
}

/// The four tables beside the table of viewers.
#[derive(Debug)]
pub struct Directory {
    pub groups: Vec<Group>,
    pub group_users: Vec<GroupUser>,
    pub group_permissions: Vec<GroupPermission>,
    pub user_permissions: Vec<UserPermission>,
}

/// What a `Group` means in contracts.
pub ghost struct GroupData {
    pub id: int,
    pub name: Seq<char>,
}

/// What a `GroupUser` means in contracts.
pub ghost struct GroupUserData {
    pub group_id: int,
    pub channel_id: Seq<char>,
}

/// What a `GroupPermission` means in contracts.
pub ghost struct GroupPermissionData {
    pub group_id: int,
    pub permission: Seq<char>,
}

/// What a `UserPermission` means in contracts.
pub ghost struct UserPermissionData {
    pub channel_id: Seq<char>,
    pub permission: Seq<char>,
}

/// What a `Directory` means in contracts: its rows, table by table.
pub ghost struct DirectoryData {
    pub groups: Seq<GroupData>,
    pub group_users: Seq<GroupUserData>,
    pub group_permissions: Seq<GroupPermissionData>,
    pub user_permissions: Seq<UserPermissionData>,
}

impl DirectoryData {
    /// The directory without rows.
    pub open spec fn empty() -> DirectoryData {
        DirectoryData {
            groups: Seq::empty(),
            group_users: Seq::empty(),
            group_permissions: Seq::empty(),
            user_permissions: Seq::empty(),
        }
    }
}

impl View for Group {
    type V = GroupData;

    open spec fn view(&self) -> GroupData {
        GroupData { id: self.id as int, name: self.name@ }
    }
}

impl View for GroupUser {
    type V = GroupUserData;

    open spec fn view(&self) -> GroupUserData {
        GroupUserData { group_id: self.group_id as int, channel_id: self.channel_id@ }
    }
}

impl View for GroupPermission {
    type V = GroupPermissionData;

    open spec fn view(&self) -> GroupPermissionData {
        GroupPermissionData { group_id: self.group_id as int, permission: self.permission@ }
    }
}

impl View for UserPermission {
    type V = UserPermissionData;

    open spec fn view(&self) -> UserPermissionData {
        UserPermissionData { channel_id: self.channel_id@, permission: self.permission@ }
    }
}

impl View for Directory {
    type V = DirectoryData;

    open spec fn view(&self) -> DirectoryData {
        DirectoryData {
            groups: self.groups@.map_values(|g: Group| g@),
            group_users: self.group_users@.map_values(|m: GroupUser| m@),
            group_permissions: self.group_permissions@.map_values(|p: GroupPermission| p@),
            user_permissions: self.user_permissions@.map_values(|p: UserPermission| p@),
        }
    }
}

/// A group as shown to the outside: its permission strings and the channel
/// ids of its members, each in the order of the rows.
#[derive(Debug)]
pub struct GroupView {
    pub id: i64,
    pub name: String,
    pub permissions: Vec<String>,
    pub users: Vec<String>,
}

/// A viewer as shown to the outside: the record and the groups the viewer
/// belongs to.
#[derive(Debug)]
pub struct UserView {
    pub channel_id: String,
    pub display_name: String,
    pub hours_seconds: i64,
    pub hours_nanos: i32,
    pub money: i64,
    pub first_seen_at: Timestamp,
    pub last_seen_at: Timestamp,
    pub groups: Vec<GroupView>,
}

/// What a `GroupView` means in contracts.
pub ghost struct GroupViewData {
    pub id: int,
    pub name: Seq<char>,
    pub permissions: Seq<Seq<char>>,
    pub users: Seq<Seq<char>>,
}

/// What a `UserView` means in contracts: the record and its groups.
pub ghost struct UserViewData {
    pub user: UserData,
    pub groups: Seq<GroupViewData>,
}

/// The views of a sequence of strings.
pub open spec fn texts(strings: Seq<String>) -> Seq<Seq<char>> {
    strings.map_values(|s: String| s@)
}

impl View for GroupView {
    type V = GroupViewData;

    open spec fn view(&self) -> GroupViewData {
        GroupViewData {
            id: self.id as int,
            name: self.name@,
            permissions: texts(self.permissions@),
            users: texts(self.users@),
        }
    }
}

/// The views of a sequence of group views.
pub open spec fn group_views(groups: Seq<GroupView>) -> Seq<GroupViewData> {
    groups.map_values(|g: GroupView| g@)
}

impl View for UserView {
    type V = UserViewData;

    open spec fn view(&self) -> UserViewData {
        UserViewData {
            user: UserData {
                channel_id: self.channel_id@,
                display_name: self.display_name@,
                hours_seconds: self.hours_seconds as int,
                hours_nanos: self.hours_nanos as int,
                money: self.money as int,
                first_seen_at: self.first_seen_at,
                last_seen_at: self.last_seen_at,
            },
            groups: group_views(self.groups@),
        }
    }
}

/// The views of a sequence of viewer views.
pub open spec fn user_views(users: Seq<UserView>) -> Seq<UserViewData> {
    users.map_values(|u: UserView| u@)
}

/// Whether a membership row joins `channel_id` to `group_id`.
pub open spec fn is_member(rows: Seq<GroupUserData>, group_id: int, channel_id: Seq<char>) -> bool {
    exists|i: int|
        0 <= i < rows.len() && (#[trigger] rows[i]).group_id == group_id && rows[i].channel_id
            == channel_id
}

/// The channel ids of the members of a group, in the order of the rows.
pub open spec fn members_of(rows: Seq<GroupUserData>, group_id: int) -> Seq<Seq<char>> {
    rows.filter(|m: GroupUserData| m.group_id == group_id).map_values(
        |m: GroupUserData| m.channel_id,
    )
}

/// The permissions granted by a group, in the order of the rows.
pub open spec fn permissions_of(rows: Seq<GroupPermissionData>, group_id: int) -> Seq<Seq<char>> {
    rows.filter(|p: GroupPermissionData| p.group_id == group_id).map_values(
        |p: GroupPermissionData| p.permission,
    )
}

/// A group with its permissions and members.
pub open spec fn group_view(d: DirectoryData, g: GroupData) -> GroupViewData {
    GroupViewData {
        id: g.id,
        name: g.name,
        permissions: permissions_of(d.group_permissions, g.id),
        users: members_of(d.group_users, g.id),
    }
}

/// The views of those of `groups` that `channel_id` belongs to.
pub open spec fn groups_of(groups: Seq<GroupData>, d: DirectoryData, channel_id: Seq<char>) -> Seq<
    GroupViewData,
> {
    groups.filter(|g: GroupData| is_member(d.group_users, g.id, channel_id)).map_values(
        |g: GroupData| group_view(d, g),
    )
}

/// The outside view of a record: the record itself and every group its
/// channel id is a member of.
pub open spec fn user_view(d: DirectoryData, u: UserData) -> UserViewData {
    UserViewData { user: u, groups: groups_of(d.groups, d, u.channel_id) }
}

/// Whether `permission` is granted to `channel_id` directly.
pub open spec fn granted_directly(
    d: DirectoryData,
    channel_id: Seq<char>,
    permission: Seq<char>,
) -> bool {
    exists|i: int|
        0 <= i < d.user_permissions.len() && (#[trigger] d.user_permissions[i]).channel_id
            == channel_id && d.user_permissions[i].permission == permission
}

/// Whether a group grants `permission`.
pub open spec fn group_grants(
    rows: Seq<GroupPermissionData>,
    group_id: int,
    permission: Seq<char>,
) -> bool {
    exists|j: int|
        0 <= j < rows.len() && (#[trigger] rows[j]).group_id == group_id && rows[j].permission
            == permission
}

/// Whether `permission` is granted by a group that `channel_id` belongs to.
pub open spec fn granted_by_group(
    d: DirectoryData,
    channel_id: Seq<char>,
    permission: Seq<char>,
) -> bool {
    exists|i: int|
        0 <= i < d.group_users.len() && (#[trigger] d.group_users[i]).channel_id == channel_id
            && group_grants(d.group_permissions, d.group_users[i].group_id, permission)
}

/// The effective permissions of a viewer: those granted directly, united
/// with those of every group the viewer belongs to.
pub open spec fn effective_permissions(d: DirectoryData, channel_id: Seq<char>) -> Set<Seq<char>> {
    Set::new(
        |permission: Seq<char>|
            granted_directly(d, channel_id, permission) || granted_by_group(
                d,
                channel_id,
                permission,
            ),
    )
}

impl Directory {
    /// A directory without rows.
    pub fn new() -> (directory: Directory)
        ensures
            directory@ == DirectoryData::empty(),
    {
        let directory = Directory {
            groups: Vec::new(),
            group_users: Vec::new(),
            group_permissions: Vec::new(),
            user_permissions: Vec::new(),
        };
        assert(directory@.groups =~= Seq::empty());
        assert(directory@.group_users =~= Seq::empty());
        assert(directory@.group_permissions =~= Seq::empty());
        assert(directory@.user_permissions =~= Seq::empty());
        directory
    }

    /// Whether `channel_id` is a member of the group `group_id`.
    pub fn has_member(&self, group_id: i64, channel_id: &String) -> (found: bool)
        ensures
            found == is_member(self@.group_users, group_id as int, channel_id@),
    {
        let mut i: usize = 0;
        while i < self.group_users.len()
            invariant
                i <= self.group_users.len(),
                forall|j: int|
                    0 <= j < i ==> !((#[trigger] self@.group_users[j]).group_id == group_id
                        && self@.group_users[j].channel_id == channel_id@),
            decreases self.group_users.len() - i,
        {
            if self.group_users[i].group_id == group_id && self.group_users[i].channel_id
                == *channel_id {
                assert(self@.group_users[i as int].group_id == group_id);
                return true;
            }
            i += 1;
        }
        false
    }

    /// The channel ids of the members of the group `group_id`.
    pub fn members(&self, group_id: i64) -> (users: Vec<String>)
        ensures
            texts(users@) == members_of(self@.group_users, group_id as int),
    {
        let ghost rows = self@.group_users;
        let mut users: Vec<String> = Vec::new();
        let mut i: usize = 0;
        while i < self.group_users.len()
            invariant
                i <= self.group_users.len(),
                rows == self@.group_users,
                texts(users@) == members_of(rows.take(i as int), group_id as int),
            decreases self.group_users.len() - i,
        {
            let row = &self.group_users[i];
            proof {
                assert(rows.take(i + 1) =~= rows.take(i as int).push(row@));
                lemma_filter_push(
                    rows.take(i as int),
                    row@,
                    |m: GroupUserData| m.group_id == group_id as int,
                );
            }
            if row.group_id == group_id {
                users.push(row.channel_id.clone());
                assert(members_of(rows.take(i + 1), group_id as int) =~= members_of(
                    rows.take(i as int),
                    group_id as int,
                ).push(row@.channel_id));
            }
            i += 1;
        }
        assert(rows.take(i as int) =~= rows);
        users
    }

    /// The permissions granted by the group `group_id`.
    pub fn group_permissions_of(&self, group_id: i64) -> (permissions: Vec<String>)
        ensures
            texts(permissions@) == permissions_of(self@.group_permissions, group_id as int),
    {
        let ghost rows = self@.group_permissions;
        let mut permissions: Vec<String> = Vec::new();
        let mut i: usize = 0;
        while i < self.group_permissions.len()
            invariant
                i <= self.group_permissions.len(),
                rows == self@.group_permissions,
                texts(permissions@) == permissions_of(rows.take(i as int), group_id as int),
            decreases self.group_permissions.len() - i,
        {
            let row = &self.group_permissions[i];
            proof {
                assert(rows.take(i + 1) =~= rows.take(i as int).push(row@));
                lemma_filter_push(
                    rows.take(i as int),
                    row@,
                    |p: GroupPermissionData| p.group_id == group_id as int,
                );
            }
            if row.group_id == group_id {
                permissions.push(row.permission.clone());
                assert(permissions_of(rows.take(i + 1), group_id as int) =~= permissions_of(
                    rows.take(i as int),
                    group_id as int,
                ).push(row@.permission));
            }
            i += 1;
        }
        assert(rows.take(i as int) =~= rows);
        permissions
    }

    /// Whether the group `group_id` grants `permission`.
    pub fn group_has_permission(&self, group_id: i64, permission: &String) -> (found: bool)
        ensures
            found == group_grants(self@.group_permissions, group_id as int, permission@),
    {
        let mut j: usize = 0;
        while j < self.group_permissions.len()
            invariant
                j <= self.group_permissions.len(),
                forall|k: int|
                    0 <= k < j ==> !((#[trigger] self@.group_permissions[k]).group_id == group_id
                        && self@.group_permissions[k].permission == permission@),
            decreases self.group_permissions.len() - j,
        {
            let row = &self.group_permissions[j];
            if row.group_id == group_id && row.permission == *permission {
                assert(self@.group_permissions[j as int].group_id == group_id);
                return true;
            }
            j += 1;
        }
        false
    }

    /// Whether `permission` is among the effective permissions of
    /// `channel_id`.
    pub fn has_permission(&self, channel_id: &String, permission: &String) -> (found: bool)
        ensures
            found == effective_permissions(self@, channel_id@).contains(permission@),
    {
        let mut i: usize = 0;
        while i < self.user_permissions.len()
            invariant
                i <= self.user_permissions.len(),
                forall|k: int|
                    0 <= k < i ==> !((#[trigger] self@.user_permissions[k]).channel_id
                        == channel_id@ && self@.user_permissions[k].permission == permission@),
            decreases self.user_permissions.len() - i,
        {
            if self.user_permissions[i].channel_id == *channel_id
                && self.user_permissions[i].permission == *permission {
                assert(self@.user_permissions[i as int].channel_id == channel_id@);
                return true;
            }
            i += 1;
        }
        let mut m: usize = 0;
        while m < self.group_users.len()
            invariant
                m <= self.group_users.len(),
                !granted_directly(self@, channel_id@, permission@),
                forall|k: int|
                    0 <= k < m ==> !((#[trigger] self@.group_users[k]).channel_id == channel_id@
                        && group_grants(
                        self@.group_permissions,
                        self@.group_users[k].group_id,
                        permission@,
                    )),
            decreases self.group_users.len() - m,
        {
            if self.group_users[m].channel_id == *channel_id && self.group_has_permission(
                self.group_users[m].group_id,
                permission,
            ) {
                assert(self@.group_users[m as int].channel_id == channel_id@);
                return true;
            }
            m += 1;
        }
        false
    }

    /// The outside view of `user`: a copy of the record with the groups the
    /// viewer belongs to, each with its permissions and members.
    pub fn to_view(&self, user: &User) -> (view: UserView)
        ensures
            view@ == user_view(self@, user@),
    {
        let ghost rows = self@.groups;
        let ghost id = user@.channel_id;
        let ghost d = self@;
        let mut groups: Vec<GroupView> = Vec::new();
        let mut i: usize = 0;
        while i < self.groups.len()
            invariant
                i <= self.groups.len(),
                rows == self@.groups,
                d == self@,
                id == user@.channel_id,
                group_views(groups@) == groups_of(rows.take(i as int), d, id),
            decreases self.groups.len() - i,
        {
            let group = &self.groups[i];
            proof {
                assert(rows.take(i + 1) =~= rows.take(i as int).push(group@));
                lemma_filter_push(
                    rows.take(i as int),
                    group@,
                    |g: GroupData| is_member(d.group_users, g.id, id),
                );
            }
            if self.has_member(group.id, &user.channel_id) {
                let view = GroupView {
                    id: group.id,
                    name: group.name.clone(),
                    permissions: self.group_permissions_of(group.id),
                    users: self.members(group.id),
                };
                groups.push(view);
                assert(groups_of(rows.take(i + 1), d, id) =~= groups_of(
                    rows.take(i as int),
                    d,
                    id,
                ).push(group_view(d, group@)));
            }
            i += 1;
        }
        assert(rows.take(i as int) =~= rows);
        UserView {
            channel_id: user.channel_id.clone(),
            display_name: user.display_name.clone(),
            hours_seconds: user.hours_seconds,
            hours_nanos: user.hours_nanos,
            money: user.money,
            first_seen_at: user.first_seen_at,
            last_seen_at: user.last_seen_at,
            groups,
        }
    }
}

} // verus!
