//! Structured failure causes of the mutation commands, each with its fixed
//! human-readable message.

use vstd::prelude::*;

verus! {

/// The mutation a caller attempted, named in an authorization denial; the
/// denial never leaks more than the caller already supplied.
#[derive(Clone, Copy, PartialEq, Eq, Structural, Debug)]
pub enum MutationKind {
    UserCreation,
    GroupCreation,
    UserUpdate,
    GroupUpdate,
    GroupMembershipModification,
    UserDeletion,
    GroupDeletion,
}

/// A protected-invariant rule that no capability can override.
#[derive(Clone, Copy, PartialEq, Eq, Structural, Debug)]
pub enum InvariantRule {
    DeleteCurrentUser,
    RemoveAdminRightsCurrentUser,
    ChangeAdminGroupDetails,
    DeleteAdminGroup,
}

/// The cause of a rejected avatar payload.
#[derive(Clone, Copy, PartialEq, Eq, Structural, Debug)]
pub enum InvalidCause {
    BadBase64,
    NotJpeg,
}

/// An error surfaced by the storage capability; propagated to the caller
/// verbatim, never retried by this core.
#[derive(Clone, Copy, PartialEq, Eq, Structural, Debug)]
pub enum BackendError {
    NotFound,
    DuplicateKey,
    Storage,
}

/// Outcome class of a failed mutation command.
#[derive(Clone, Copy, PartialEq, Eq, Structural, Debug)]
pub enum ApiError {
    Unauthorized(MutationKind),
    InvariantViolation(InvariantRule),
    InvalidInput(InvalidCause),
    BackendFailure(BackendError),
}

impl MutationKind {
    pub open spec fn spec_message(self) -> Seq<char> {
        match self {
            MutationKind::UserCreation => "Unauthorized user creation"@,
            MutationKind::GroupCreation => "Unauthorized group creation"@,
            MutationKind::UserUpdate => "Unauthorized user update"@,
            MutationKind::GroupUpdate => "Unauthorized group update"@,
            MutationKind::GroupMembershipModification => "Unauthorized group membership modification"@,
            MutationKind::UserDeletion => "Unauthorized user deletion"@,
            MutationKind::GroupDeletion => "Unauthorized group deletion"@,
        }
    }

    pub fn message(&self) -> (r: &'static str)
        ensures
            r@ == self.spec_message(),
    {
        match self {
            MutationKind::UserCreation => "Unauthorized user creation",
            MutationKind::GroupCreation => "Unauthorized group creation",
            MutationKind::UserUpdate => "Unauthorized user update",
            MutationKind::GroupUpdate => "Unauthorized group update",
            MutationKind::GroupMembershipModification => "Unauthorized group membership modification",
            MutationKind::UserDeletion => "Unauthorized user deletion",
            MutationKind::GroupDeletion => "Unauthorized group deletion",
        }
    }
}

impl InvariantRule {
    pub open spec fn spec_message(self) -> Seq<char> {
        match self {
            InvariantRule::DeleteCurrentUser => "Cannot delete current user"@,
            InvariantRule::RemoveAdminRightsCurrentUser => "Cannot remove admin rights for current user"@,
            InvariantRule::ChangeAdminGroupDetails => "Cannot change admin group details"@,
            InvariantRule::DeleteAdminGroup => "Cannot delete admin group"@,
        }
    }

    pub fn message(&self) -> (r: &'static str)
        ensures
            r@ == self.spec_message(),
    {
        match self {
            InvariantRule::DeleteCurrentUser => "Cannot delete current user",
            InvariantRule::RemoveAdminRightsCurrentUser => "Cannot remove admin rights for current user",
            InvariantRule::ChangeAdminGroupDetails => "Cannot change admin group details",
            InvariantRule::DeleteAdminGroup => "Cannot delete admin group",
        }
    }
}

impl InvalidCause {
    pub open spec fn spec_message(self) -> Seq<char> {
        match self {
            InvalidCause::BadBase64 => "Invalid base64 image"@,
            InvalidCause::NotJpeg => "Provided image is not a valid JPEG"@,
        }
    }

    pub fn message(&self) -> (r: &'static str)
        ensures
            r@ == self.spec_message(),
    {
        match self {
            InvalidCause::BadBase64 => "Invalid base64 image",
            InvalidCause::NotJpeg => "Provided image is not a valid JPEG",
        }
    }
}

impl BackendError {
    pub open spec fn spec_message(self) -> Seq<char> {
        match self {
            BackendError::NotFound => "backend error: entity not found"@,
            BackendError::DuplicateKey => "backend error: duplicate key"@,
            BackendError::Storage => "backend error: storage failure"@,
        }
    }

    pub fn message(&self) -> (r: &'static str)
        ensures
            r@ == self.spec_message(),
    {
        match self {
            BackendError::NotFound => "backend error: entity not found",
            BackendError::DuplicateKey => "backend error: duplicate key",
            BackendError::Storage => "backend error: storage failure",
        }
    }
}

impl ApiError {
    pub open spec fn spec_message(self) -> Seq<char> {
        match self {
            ApiError::Unauthorized(k) => k.spec_message(),
            ApiError::InvariantViolation(rule) => rule.spec_message(),
            ApiError::InvalidInput(cause) => cause.spec_message(),
            ApiError::BackendFailure(e) => e.spec_message(),
        }
    }

    pub fn message(&self) -> (r: &'static str)
        ensures
            r@ == self.spec_message(),
    {
        match self {
            ApiError::Unauthorized(k) => k.message(),
            ApiError::InvariantViolation(rule) => rule.message(),
            ApiError::InvalidInput(cause) => cause.message(),
            ApiError::BackendFailure(e) => e.message(),
        }
    }
}

} // verus!
