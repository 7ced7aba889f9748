//! Mathematical model of the identity store: the abstract directory state
//! that the backend capability is specified against, and the transition
//! each mutation applies to it.

use vstd::prelude::*;

verus! {

/// Abstract record of one user.
pub struct SpecUser {
    pub email: Seq<char>,
    pub display_name: Seq<char>,
    pub first_name: Option<Seq<char>>,
    pub last_name: Option<Seq<char>>,
    pub avatar: Option<Seq<u8>>,
}

/// Abstract payload of a user-creation command.
pub struct SpecCreateUserRequest {
    pub user_id: Seq<char>,
    pub email: Seq<char>,
    pub display_name: Option<Seq<char>>,
    pub first_name: Option<Seq<char>>,
    pub last_name: Option<Seq<char>>,
    pub avatar: Option<Seq<u8>>,
}

/// Abstract payload of a user-update command; `None` fields are left
/// unchanged by the update.
pub struct SpecUpdateUserRequest {
    pub user_id: Seq<char>,
    pub email: Option<Seq<char>>,
    pub display_name: Seq<char>,
    pub first_name: Option<Seq<char>>,
    pub last_name: Option<Seq<char>>,
    pub avatar: Option<Seq<u8>>,
}

/// Abstract state of the identity store: users keyed by canonical
/// identifier, groups keyed by integer identifier, the membership relation,
/// and the set of users with a registered credential.
pub struct DirectoryState {
    pub users: Map<Seq<char>, SpecUser>,
    pub groups: Map<int, Seq<char>>,
    pub memberships: Set<(Seq<char>, int)>,
    pub credentialed: Set<Seq<char>>,
}

impl DirectoryState {
    /// Creation stores the request fields, defaulting an absent display
    /// name to the empty label: the stored record is the backend's
    /// canonical view.
    pub open spec fn with_user(self, r: SpecCreateUserRequest) -> DirectoryState {
        DirectoryState {
            users: self.users.insert(
                r.user_id,
                SpecUser {
                    email: r.email,
                    display_name: match r.display_name {
                        Some(d) => d,
                        None => Seq::empty(),
                    },
                    first_name: r.first_name,
                    last_name: r.last_name,
                    avatar: r.avatar,
                },
            ),
            ..self
        }
    }

    /// Update semantics: fields not present in the request are left
    /// unchanged.
    pub open spec fn user_updated(self, r: SpecUpdateUserRequest) -> DirectoryState {
        let u = self.users[r.user_id];
        DirectoryState {
            users: self.users.insert(
                r.user_id,
                SpecUser {
                    email: match r.email {
                        Some(e) => e,
                        None => u.email,
                    },
                    display_name: r.display_name,
                    first_name: match r.first_name {
                        Some(f) => Some(f),
                        None => u.first_name,
                    },
                    last_name: match r.last_name {
                        Some(l) => Some(l),
                        None => u.last_name,
                    },
                    avatar: match r.avatar {
                        Some(a) => Some(a),
                        None => u.avatar,
                    },
                },
            ),
            ..self
        }
    }

    pub open spec fn without_user(self, user_id: Seq<char>) -> DirectoryState {
        DirectoryState {
            users: self.users.remove(user_id),
            memberships: self.memberships.filter(|m: (Seq<char>, int)| m.0 != user_id),
            credentialed: self.credentialed.remove(user_id),
            ..self
        }
    }

    pub open spec fn with_group(self, group_id: int, name: Seq<char>) -> DirectoryState {
        DirectoryState { groups: self.groups.insert(group_id, name), ..self }
    }

    /// A group update renames the group when a new name is present and
    /// otherwise leaves it as it was.
    pub open spec fn group_updated(self, group_id: int, name: Option<Seq<char>>) -> DirectoryState {
        match name {
            Some(n) => DirectoryState { groups: self.groups.insert(group_id, n), ..self },
            None => self,
        }
    }

    pub open spec fn without_group(self, group_id: int) -> DirectoryState {
        DirectoryState {
            groups: self.groups.remove(group_id),
            memberships: self.memberships.filter(|m: (Seq<char>, int)| m.1 != group_id),
            ..self
        }
    }

    pub open spec fn with_membership(self, user_id: Seq<char>, group_id: int) -> DirectoryState {
        DirectoryState { memberships: self.memberships.insert((user_id, group_id)), ..self }
    }

    pub open spec fn without_membership(self, user_id: Seq<char>, group_id: int) -> DirectoryState {
        DirectoryState { memberships: self.memberships.remove((user_id, group_id)), ..self }
    }

    /// Credential registration for a user, as observed by this core: the
    /// user is marked credentialed.
    pub open spec fn with_password(self, user_id: Seq<char>) -> DirectoryState {
        DirectoryState { credentialed: self.credentialed.insert(user_id), ..self }
    }

    pub open spec fn group_has_name(self, group_id: int, name: Seq<char>) -> bool {
        self.groups.contains_key(group_id) && self.groups[group_id] == name
    }

    pub open spec fn some_group_named(self, name: Seq<char>) -> bool {
        exists|g: int| self.group_has_name(g, name)
    }

    pub open spec fn at_most_one_group_named(self, name: Seq<char>) -> bool {
        forall|g1: int, g2: int|
            self.group_has_name(g1, name) && self.group_has_name(g2, name) ==> g1 == g2
    }

    pub open spec fn exactly_one_group_named(self, name: Seq<char>) -> bool {
        self.some_group_named(name) && self.at_most_one_group_named(name)
    }
}

} // verus!
