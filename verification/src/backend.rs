//! The storage capability consumed by every command handler: request and
//! record types, and the `BackendHandler` trait, specified against the
//! abstract directory state.  Storage engines and test doubles implement
//! the trait; the policy logic depends on nothing else.

use vstd::prelude::*;

use crate::errors::BackendError;
use crate::model::{DirectoryState, SpecCreateUserRequest, SpecUpdateUserRequest, SpecUser};
use crate::types::{
    opt_name_view, opt_photo_view, opt_str_view, DisplayName, GroupId, JpegPhoto, UserId,
};

verus! {

/// Payload handed to the backend to create a user.
pub struct CreateUserRequest {
    pub user_id: UserId,
    pub email: String,
    pub display_name: Option<DisplayName>,
    pub first_name: Option<String>,
    pub last_name: Option<String>,
    pub avatar: Option<JpegPhoto>,
}

impl View for CreateUserRequest {
    type V = SpecCreateUserRequest;

    open spec fn view(&self) -> SpecCreateUserRequest {
        SpecCreateUserRequest {
            user_id: self.user_id@,
            email: self.email@,
            display_name: opt_name_view(self.display_name),
            first_name: opt_str_view(self.first_name),
            last_name: opt_str_view(self.last_name),
            avatar: opt_photo_view(self.avatar),
        }
    }
}

/// Payload handed to the backend to update a user; absent fields are left
/// unchanged.
pub struct UpdateUserRequest {
    pub user_id: UserId,
    pub email: Option<String>,
    pub display_name: DisplayName,
    pub first_name: Option<String>,
    pub last_name: Option<String>,
    pub avatar: Option<JpegPhoto>,
}

impl View for UpdateUserRequest {
    type V = SpecUpdateUserRequest;

    open spec fn view(&self) -> SpecUpdateUserRequest {
        SpecUpdateUserRequest {
            user_id: self.user_id@,
            email: opt_str_view(self.email),
            display_name: self.display_name@,
            first_name: opt_str_view(self.first_name),
            last_name: opt_str_view(self.last_name),
            avatar: opt_photo_view(self.avatar),
        }
    }
}

/// Payload handed to the backend to update a group.
pub struct UpdateGroupRequest {
    pub group_id: GroupId,
    pub display_name: Option<String>,
}

/// The canonical record of a user as the backend stores it.
#[derive(Debug)]
pub struct UserRecord {
    pub user_id: UserId,
    pub email: String,
    pub display_name: DisplayName,
    pub first_name: Option<String>,
    pub last_name: Option<String>,
    pub avatar: Option<JpegPhoto>,
}

impl View for UserRecord {
    type V = (Seq<char>, SpecUser);

    open spec fn view(&self) -> (Seq<char>, SpecUser) {
        (
            self.user_id@,
            SpecUser {
                email: self.email@,
                display_name: self.display_name@,
                first_name: opt_str_view(self.first_name),
                last_name: opt_str_view(self.last_name),
                avatar: opt_photo_view(self.avatar),
            },
        )
    }
}

/// The canonical record of a group as the backend stores it.
#[derive(Debug)]
pub struct GroupRecord {
    pub id: GroupId,
    pub display_name: DisplayName,
}

impl View for GroupRecord {
    type V = (int, Seq<char>);

    open spec fn view(&self) -> (int, Seq<char>) {
        (self.id@, self.display_name@)
    }
}

/// Filter of a group listing.
pub enum GroupRequestFilter {
    DisplayName(String),
}

/// The group identifiers a listing filter selects.
pub open spec fn filter_view(filter: Option<GroupRequestFilter>) -> Option<Seq<char>> {
    match filter {
        None => None,
        Some(GroupRequestFilter::DisplayName(name)) => Some(name@),
    }
}

/// Whether a group identifier is selected by a listing filter in a given
/// state.
pub open spec fn group_selected(s: DirectoryState, filter: Option<Seq<char>>, g: int) -> bool {
    match filter {
        None => s.groups.contains_key(g),
        Some(name) => s.group_has_name(g, name),
    }
}

/// What a successful group listing returns: one record per selected
/// group, each matching the stored state, with no identifier repeated.
pub open spec fn list_groups_post(
    s: DirectoryState,
    fv: Option<Seq<char>>,
    v: Seq<GroupRecord>,
) -> bool {
    &&& forall|i: int|
        0 <= i < v.len() ==> group_selected(s, fv, (#[trigger] v[i])@.0) && s.group_has_name(
            v[i]@.0,
            v[i]@.1,
        )
    &&& forall|g: int|
        #[trigger] group_selected(s, fv, g) ==> exists|i: int|
            0 <= i < v.len() && (#[trigger] v[i])@.0 == g
    &&& forall|i: int, j: int|
        0 <= i < j < v.len() ==> (#[trigger] v[i])@.0 != (#[trigger] v[j])@.0
}

/// The storage capability.  Every method performs at most one logical
/// mutation; the contracts state the effect on the abstract directory
/// state.  Success is never owed: a storage engine may fail any call, and
/// a failed call leaves the state as it was.
pub trait BackendHandler: Sized {
    /// The abstract directory state this handler gives access to.
    spec fn state(&self) -> DirectoryState;

    /// On success the identifier was free and the store gains exactly the
    /// requested record.
    fn create_user(&mut self, request: CreateUserRequest) -> (r: Result<(), BackendError>)
        ensures
            match r {
                Ok(()) => !old(self).state().users.contains_key(request.user_id@) && final(self).state() == old(self).state().with_user(request@),
                Err(_) => final(self).state() == old(self).state(),
            },
    ;

    /// On success the returned record is the backend's authoritative view
    /// of the user.
    fn get_user_details(&self, user_id: &UserId) -> (r: Result<UserRecord, BackendError>)
        ensures
            r matches Ok(record) ==> self.state().users.contains_key(user_id@) && record@ == (
                user_id@,
                self.state().users[user_id@],
            ),
    ;

    fn update_user(&mut self, request: UpdateUserRequest) -> (r: Result<(), BackendError>)
        ensures
            match r {
                Ok(()) => old(self).state().users.contains_key(request.user_id@) && final(self).state() == old(self).state().user_updated(request@),
                Err(_) => final(self).state() == old(self).state(),
            },
    ;

    fn delete_user(&mut self, user_id: &UserId) -> (r: Result<(), BackendError>)
        ensures
            match r {
                Ok(()) => final(self).state() == old(self).state().without_user(user_id@),
                Err(_) => final(self).state() == old(self).state(),
            },
    ;

    /// On success the backend assigned a fresh group identifier to a group
    /// with the requested name.
    fn create_group(&mut self, name: &str) -> (r: Result<GroupId, BackendError>)
        ensures
            match r {
                Ok(group_id) => !old(self).state().groups.contains_key(group_id@) && final(self).state() == old(self).state().with_group(group_id@, name@),
                Err(_) => final(self).state() == old(self).state(),
            },
    ;

    fn get_group_details(&self, group_id: GroupId) -> (r: Result<GroupRecord, BackendError>)
        ensures
            r matches Ok(record) ==> self.state().groups.contains_key(group_id@) && record@ == (
                group_id@,
                self.state().groups[group_id@],
            ),
    ;

    fn update_group(&mut self, request: UpdateGroupRequest) -> (r: Result<(), BackendError>)
        ensures
            match r {
                Ok(()) => old(self).state().groups.contains_key(request.group_id@) && final(self).state() == old(self).state().group_updated(
                    request.group_id@,
                    opt_str_view(request.display_name),
                ),
                Err(_) => final(self).state() == old(self).state(),
            },
    ;

    fn delete_group(&mut self, group_id: GroupId) -> (r: Result<(), BackendError>)
        ensures
            match r {
                Ok(()) => final(self).state() == old(self).state().without_group(group_id@),
                Err(_) => final(self).state() == old(self).state(),
            },
    ;

    fn add_user_to_group(&mut self, user_id: &UserId, group_id: GroupId) -> (r: Result<
        (),
        BackendError,
    >)
        ensures
            match r {
                Ok(()) => final(self).state() == old(self).state().with_membership(
                    user_id@,
                    group_id@,
                ),
                Err(_) => final(self).state() == old(self).state(),
            },
    ;

    fn remove_user_from_group(&mut self, user_id: &UserId, group_id: GroupId) -> (r: Result<
        (),
        BackendError,
    >)
        ensures
            match r {
                Ok(()) => final(self).state() == old(self).state().without_membership(
                    user_id@,
                    group_id@,
                ),
                Err(_) => final(self).state() == old(self).state(),
            },
    ;

    /// On success the listing holds one record per selected group, each
    /// matching the stored state, with no identifier repeated.
    fn list_groups(&self, filter: Option<GroupRequestFilter>) -> (r: Result<
        Vec<GroupRecord>,
        BackendError,
    >)
        ensures
            r matches Ok(v) ==> list_groups_post(self.state(), filter_view(filter), v@),
    ;

    /// Credential registration, the external password-exchange
    /// collaborator: on success the user is marked credentialed.
    fn register_password(&mut self, user_id: &UserId, password: &str) -> (r: Result<
        (),
        BackendError,
    >)
        ensures
            match r {
                Ok(()) => final(self).state() == old(self).state().with_password(user_id@),
                Err(_) => final(self).state() == old(self).state(),
            },
    ;
}

} // verus!
