//! The mutation command handlers.  Each command follows the same shape:
//! authorize, check the protected invariants, validate and transform the
//! input, call the backend, assemble the result.  Authorization is
//! evaluated before any validation or backend call, so a denied caller
//! never reaches decoding logic and a denied operation never mutates
//! state.

use vstd::prelude::*;

use crate::avatar::{check_avatar, decode_avatar, AvatarOutcome};
use crate::backend::{
    BackendHandler, CreateUserRequest, GroupRecord, UpdateGroupRequest, UpdateUserRequest,
    UserRecord,
};
use crate::errors::{ApiError, InvalidCause, InvariantRule, MutationKind};
use crate::model::{SpecCreateUserRequest, SpecUpdateUserRequest};
use crate::types::{
    is_protected_group, lower_of, opt_str_view, spec_is_protected_group, DisplayName, GroupId,
    Success, UserId,
};

verus! {

/// The per-request authorization snapshot: the authenticated principal and
/// its granted capabilities, computed once per request and immutable for
/// the request's lifetime.
pub struct ValidationResults {
    pub user: UserId,
    pub is_admin: bool,
}

impl ValidationResults {
    /// The authenticated identity issuing the request.
    pub fn principal(&self) -> (r: &UserId)
        ensures
            r@ == self.user@,
    {
        &self.user
    }

    pub fn is_admin(&self) -> (r: bool)
        ensures
            r == self.is_admin,
    {
        self.is_admin
    }

    /// A principal may write a target record iff the target is itself or
    /// it is an admin.
    pub open spec fn spec_can_write(self, target: Seq<char>) -> bool {
        self.is_admin || self.user@ == target
    }

    pub fn can_write(&self, target: &UserId) -> (r: bool)
        ensures
            r == self.spec_can_write(target@),
    {
        self.is_admin || self.user == *target
    }
}

/// The request scope a command handler runs in: the storage capability and
/// the authorization snapshot attached to the inbound request.
pub struct Context<Handler: BackendHandler> {
    pub handler: Handler,
    pub validation_result: ValidationResults,
}

/// The top-level mutation surface, parameterized over the storage
/// capability.
pub struct Mutation<Handler: BackendHandler> {
    _phantom: core::marker::PhantomData<Handler>,
}

/// The abstract payload `create_user` hands to the backend once the caller
/// is authorized and the avatar accepted.
pub open spec fn spec_create_request(
    user: CreateUserInput,
    avatar: Option<Seq<u8>>,
) -> SpecCreateUserRequest {
    SpecCreateUserRequest {
        user_id: lower_of(user.id@),
        email: user.email@,
        display_name: Some(user.display_name@),
        first_name: opt_str_view(user.first_name),
        last_name: opt_str_view(user.last_name),
        avatar,
    }
}

/// The abstract payload `update_user` hands to the backend once the caller
/// is authorized and the avatar accepted.
pub open spec fn spec_update_request(
    user: UpdateUserInput,
    avatar: Option<Seq<u8>>,
) -> SpecUpdateUserRequest {
    SpecUpdateUserRequest {
        user_id: lower_of(user.id@),
        email: opt_str_view(user.email),
        display_name: user.display_name@,
        first_name: opt_str_view(user.first_name),
        last_name: opt_str_view(user.last_name),
        avatar,
    }
}

/// The details required to create a user.
pub struct CreateUserInput {
    pub id: String,
    pub email: String,
    pub display_name: String,
    pub first_name: Option<String>,
    pub last_name: Option<String>,
    /// Base64 encoded avatar payload.
    pub avatar: Option<String>,
}

/// The fields that can be updated for a user.
pub struct UpdateUserInput {
    pub id: String,
    pub email: Option<String>,
    pub display_name: String,
    pub first_name: Option<String>,
    pub last_name: Option<String>,
    /// Base64 encoded avatar payload.
    pub avatar: Option<String>,
}

/// The fields that can be updated for a group.
pub struct UpdateGroupInput {
    pub id: i32,
    pub display_name: Option<String>,
}

impl<Handler: BackendHandler> Mutation<Handler> {
    pub fn new() -> Self {
        Mutation { _phantom: core::marker::PhantomData }
    }

    /// Creates a user, then re-fetches it so the response is the backend's
    /// authoritative record, never the input echoed back.
    pub fn create_user(context: &mut Context<Handler>, user: CreateUserInput) -> (r: Result<
        UserRecord,
        ApiError,
    >)
        ensures
            final(context).validation_result == old(context).validation_result,
            !old(context).validation_result.is_admin ==> r == Err::<UserRecord, ApiError>(
                ApiError::Unauthorized(MutationKind::UserCreation),
            ) && final(context).handler.state() == old(context).handler.state(),
            old(context).validation_result.is_admin ==> match check_avatar(
                opt_str_view(user.avatar),
            ) {
                AvatarOutcome::BadBase64 => r == Err::<UserRecord, ApiError>(
                    ApiError::InvalidInput(InvalidCause::BadBase64),
                ) && final(context).handler.state() == old(context).handler.state(),
                AvatarOutcome::NotJpeg => r == Err::<UserRecord, ApiError>(
                    ApiError::InvalidInput(InvalidCause::NotJpeg),
                ) && final(context).handler.state() == old(context).handler.state(),
                AvatarOutcome::Accepted(bytes) => ({
                    let req = spec_create_request(user, bytes);
                    let pre = old(context).handler.state();
                    let post = final(context).handler.state();
                    match r {
                        Ok(record) => !pre.users.contains_key(req.user_id) && post
                            == pre.with_user(req) && record@ == (req.user_id, post.users[req.user_id])
                            && record@.1.display_name == user.display_name@,
                        Err(e) => (e matches ApiError::BackendFailure(_)) && (post == pre || post
                            == pre.with_user(req)),
                    }
                }),
            },
    {
        if !context.validation_result.is_admin() {
            return Err(ApiError::Unauthorized(MutationKind::UserCreation));
        }
        let user_id = UserId::new(user.id.as_str());
        let display_name = DisplayName::new(user.display_name.as_str());
        let avatar = match decode_avatar(&user.avatar) {
            Ok(a) => a,
            Err(e) => {
                return Err(e);
            },
        };
        let request = CreateUserRequest {
            user_id: user_id.clone(),
            email: user.email,
            display_name: Some(display_name),
            first_name: user.first_name,
            last_name: user.last_name,
            avatar,
        };
        match context.handler.create_user(request) {
            Ok(()) => {},
            Err(e) => {
                return Err(ApiError::BackendFailure(e));
            },
        }
        match context.handler.get_user_details(&user_id) {
            Ok(record) => Ok(record),
            Err(e) => Err(ApiError::BackendFailure(e)),
        }
    }

    /// Creates a group, then re-fetches the canonical record.
    pub fn create_group(context: &mut Context<Handler>, name: String) -> (r: Result<
        GroupRecord,
        ApiError,
    >)
        ensures
            final(context).validation_result == old(context).validation_result,
            !old(context).validation_result.is_admin ==> r == Err::<GroupRecord, ApiError>(
                ApiError::Unauthorized(MutationKind::GroupCreation),
            ) && final(context).handler.state() == old(context).handler.state(),
            old(context).validation_result.is_admin ==> ({
                let pre = old(context).handler.state();
                let post = final(context).handler.state();
                match r {
                    Ok(record) => exists|g: int|
                        !pre.groups.contains_key(g) && post == pre.with_group(g, name@) && record@
                            == (g, name@),
                    Err(e) => (e matches ApiError::BackendFailure(_)) && (post == pre || exists|
                        g: int,
                    | !pre.groups.contains_key(g) && post == pre.with_group(g, name@)),
                }
            }),
    {
        if !context.validation_result.is_admin() {
            return Err(ApiError::Unauthorized(MutationKind::GroupCreation));
        }
        let group_id = match context.handler.create_group(name.as_str()) {
            Ok(g) => g,
            Err(e) => {
                return Err(ApiError::BackendFailure(e));
            },
        };
        match context.handler.get_group_details(group_id) {
            Ok(record) => Ok(record),
            Err(e) => Err(ApiError::BackendFailure(e)),
        }
    }

    /// Updates a user record the caller may write: its own, or any record
    /// when the caller is an admin.
    pub fn update_user(context: &mut Context<Handler>, user: UpdateUserInput) -> (r: Result<
        Success,
        ApiError,
    >)
        ensures
            final(context).validation_result == old(context).validation_result,
            !old(context).validation_result.spec_can_write(lower_of(user.id@)) ==> r == Err::<
                Success,
                ApiError,
            >(ApiError::Unauthorized(MutationKind::UserUpdate)) && final(context).handler.state()
                == old(context).handler.state(),
            old(context).validation_result.spec_can_write(lower_of(user.id@)) ==> match check_avatar(
                opt_str_view(user.avatar),
            ) {
                AvatarOutcome::BadBase64 => r == Err::<Success, ApiError>(
                    ApiError::InvalidInput(InvalidCause::BadBase64),
                ) && final(context).handler.state() == old(context).handler.state(),
                AvatarOutcome::NotJpeg => r == Err::<Success, ApiError>(
                    ApiError::InvalidInput(InvalidCause::NotJpeg),
                ) && final(context).handler.state() == old(context).handler.state(),
                AvatarOutcome::Accepted(bytes) => ({
                    let req = spec_update_request(user, bytes);
                    let pre = old(context).handler.state();
                    let post = final(context).handler.state();
                    match r {
                        Ok(s) => s.ok && pre.users.contains_key(req.user_id) && post
                            == pre.user_updated(req),
                        Err(e) => (e matches ApiError::BackendFailure(_)) && post == pre,
                    }
                }),
            },
    {
        let user_id = UserId::new(user.id.as_str());
        let display_name = DisplayName::new(user.display_name.as_str());
        if !context.validation_result.can_write(&user_id) {
            return Err(ApiError::Unauthorized(MutationKind::UserUpdate));
        }
        let avatar = match decode_avatar(&user.avatar) {
            Ok(a) => a,
            Err(e) => {
                return Err(e);
            },
        };
        let request = UpdateUserRequest {
            user_id,
            email: user.email,
            display_name,
            first_name: user.first_name,
            last_name: user.last_name,
            avatar,
        };
        match context.handler.update_user(request) {
            Ok(()) => Ok(Success::new()),
            Err(e) => Err(ApiError::BackendFailure(e)),
        }
    }

    /// Updates a group's details; the protected bootstrap group can never
    /// be altered, whatever the caller's capabilities.
    pub fn update_group(context: &mut Context<Handler>, group: UpdateGroupInput) -> (r: Result<
        Success,
        ApiError,
    >)
        ensures
            final(context).validation_result == old(context).validation_result,
            !old(context).validation_result.is_admin ==> r == Err::<Success, ApiError>(
                ApiError::Unauthorized(MutationKind::GroupUpdate),
            ) && final(context).handler.state() == old(context).handler.state(),
            old(context).validation_result.is_admin && spec_is_protected_group(group.id as int)
                ==> r == Err::<Success, ApiError>(
                ApiError::InvariantViolation(InvariantRule::ChangeAdminGroupDetails),
            ) && final(context).handler.state() == old(context).handler.state(),
            old(context).validation_result.is_admin && !spec_is_protected_group(group.id as int)
                ==> ({
                let pre = old(context).handler.state();
                let post = final(context).handler.state();
                match r {
                    Ok(s) => s.ok && pre.groups.contains_key(group.id as int) && post
                        == pre.group_updated(group.id as int, opt_str_view(group.display_name)),
                    Err(e) => (e matches ApiError::BackendFailure(_)) && post == pre,
                }
            }),
    {
        if !context.validation_result.is_admin() {
            return Err(ApiError::Unauthorized(MutationKind::GroupUpdate));
        }
        if is_protected_group(GroupId(group.id)) {
            return Err(ApiError::InvariantViolation(InvariantRule::ChangeAdminGroupDetails));
        }
        let request = UpdateGroupRequest {
            group_id: GroupId(group.id),
            display_name: group.display_name,
        };
        match context.handler.update_group(request) {
            Ok(()) => Ok(Success::new()),
            Err(e) => Err(ApiError::BackendFailure(e)),
        }
    }

    /// Adds a user to a group; admins only.
    pub fn add_user_to_group(
        context: &mut Context<Handler>,
        user_id: String,
        group_id: i32,
    ) -> (r: Result<Success, ApiError>)
        ensures
            final(context).validation_result == old(context).validation_result,
            !old(context).validation_result.is_admin ==> r == Err::<Success, ApiError>(
                ApiError::Unauthorized(MutationKind::GroupMembershipModification),
            ) && final(context).handler.state() == old(context).handler.state(),
            old(context).validation_result.is_admin ==> ({
                let pre = old(context).handler.state();
                let post = final(context).handler.state();
                match r {
                    Ok(s) => s.ok && post == pre.with_membership(
                        lower_of(user_id@),
                        group_id as int,
                    ),
                    Err(e) => (e matches ApiError::BackendFailure(_)) && post == pre,
                }
            }),
    {
        if !context.validation_result.is_admin() {
            return Err(ApiError::Unauthorized(MutationKind::GroupMembershipModification));
        }
        let target = UserId::new(user_id.as_str());
        match context.handler.add_user_to_group(&target, GroupId(group_id)) {
            Ok(()) => Ok(Success::new()),
            Err(e) => Err(ApiError::BackendFailure(e)),
        }
    }

    /// Removes a user from a group; admins only.  A principal can never
    /// remove its own membership from the protected group, even acting as
    /// admin on itself.
    pub fn remove_user_from_group(
        context: &mut Context<Handler>,
        user_id: String,
        group_id: i32,
    ) -> (r: Result<Success, ApiError>)
        ensures
            final(context).validation_result == old(context).validation_result,
            !old(context).validation_result.is_admin ==> r == Err::<Success, ApiError>(
                ApiError::Unauthorized(MutationKind::GroupMembershipModification),
            ) && final(context).handler.state() == old(context).handler.state(),
            old(context).validation_result.is_admin && old(context).validation_result.user@
                == lower_of(user_id@) && spec_is_protected_group(group_id as int) ==> r == Err::<
                Success,
                ApiError,
            >(ApiError::InvariantViolation(InvariantRule::RemoveAdminRightsCurrentUser)) && final(context).handler.state() == old(context).handler.state(),
            old(context).validation_result.is_admin && !(old(context).validation_result.user@
                == lower_of(user_id@) && spec_is_protected_group(group_id as int)) ==> ({
                let pre = old(context).handler.state();
                let post = final(context).handler.state();
                match r {
                    Ok(s) => s.ok && post == pre.without_membership(
                        lower_of(user_id@),
                        group_id as int,
                    ),
                    Err(e) => (e matches ApiError::BackendFailure(_)) && post == pre,
                }
            }),
    {
        if !context.validation_result.is_admin() {
            return Err(ApiError::Unauthorized(MutationKind::GroupMembershipModification));
        }
        let target = UserId::new(user_id.as_str());
        if context.validation_result.user == target && is_protected_group(GroupId(group_id)) {
            return Err(ApiError::InvariantViolation(InvariantRule::RemoveAdminRightsCurrentUser));
        }
        match context.handler.remove_user_from_group(&target, GroupId(group_id)) {
            Ok(()) => Ok(Success::new()),
            Err(e) => Err(ApiError::BackendFailure(e)),
        }
    }

    /// Deletes a user; admins only, and never the principal's own record.
    pub fn delete_user(context: &mut Context<Handler>, user_id: String) -> (r: Result<
        Success,
        ApiError,
    >)
        ensures
            final(context).validation_result == old(context).validation_result,
            !old(context).validation_result.is_admin ==> r == Err::<Success, ApiError>(
                ApiError::Unauthorized(MutationKind::UserDeletion),
            ) && final(context).handler.state() == old(context).handler.state(),
            old(context).validation_result.is_admin && old(context).validation_result.user@
                == lower_of(user_id@) ==> r == Err::<Success, ApiError>(
                ApiError::InvariantViolation(InvariantRule::DeleteCurrentUser),
            ) && final(context).handler.state() == old(context).handler.state(),
            old(context).validation_result.is_admin && old(context).validation_result.user@
                != lower_of(user_id@) ==> ({
                let pre = old(context).handler.state();
                let post = final(context).handler.state();
                match r {
                    Ok(s) => s.ok && post == pre.without_user(lower_of(user_id@)),
                    Err(e) => (e matches ApiError::BackendFailure(_)) && post == pre,
                }
            }),
    {
        let target = UserId::new(user_id.as_str());
        if !context.validation_result.is_admin() {
            return Err(ApiError::Unauthorized(MutationKind::UserDeletion));
        }
        if context.validation_result.user == target {
            return Err(ApiError::InvariantViolation(InvariantRule::DeleteCurrentUser));
        }
        match context.handler.delete_user(&target) {
            Ok(()) => Ok(Success::new()),
            Err(e) => Err(ApiError::BackendFailure(e)),
        }
    }

    /// Deletes a group; admins only, and never the protected bootstrap
    /// group.
    pub fn delete_group(context: &mut Context<Handler>, group_id: i32) -> (r: Result<
        Success,
        ApiError,
    >)
        ensures
            final(context).validation_result == old(context).validation_result,
            !old(context).validation_result.is_admin ==> r == Err::<Success, ApiError>(
                ApiError::Unauthorized(MutationKind::GroupDeletion),
            ) && final(context).handler.state() == old(context).handler.state(),
            old(context).validation_result.is_admin && spec_is_protected_group(group_id as int)
                ==> r == Err::<Success, ApiError>(
                ApiError::InvariantViolation(InvariantRule::DeleteAdminGroup),
            ) && final(context).handler.state() == old(context).handler.state(),
            old(context).validation_result.is_admin && !spec_is_protected_group(group_id as int)
                ==> ({
                let pre = old(context).handler.state();
                let post = final(context).handler.state();
                match r {
                    Ok(s) => s.ok && post == pre.without_group(group_id as int),
                    Err(e) => (e matches ApiError::BackendFailure(_)) && post == pre,
                }
            }),
    {
        if !context.validation_result.is_admin() {
            return Err(ApiError::Unauthorized(MutationKind::GroupDeletion));
        }
        if is_protected_group(GroupId(group_id)) {
            return Err(ApiError::InvariantViolation(InvariantRule::DeleteAdminGroup));
        }
        match context.handler.delete_group(GroupId(group_id)) {
            Ok(()) => Ok(Success::new()),
            Err(e) => Err(ApiError::BackendFailure(e)),
        }
    }
}

} // verus!
