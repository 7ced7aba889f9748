use std::cell::Cell;

use directory_admin::backend::{
    BackendHandler, CreateUserRequest, GroupRecord, GroupRequestFilter, UpdateGroupRequest,
    UpdateUserRequest, UserRecord,
};
use directory_admin::bootstrap::{set_up_directory, BootstrapConfig};
use directory_admin::errors::{ApiError, BackendError, InvalidCause, InvariantRule, MutationKind};
use directory_admin::mutation::{
    Context, CreateUserInput, Mutation, UpdateGroupInput, UpdateUserInput, ValidationResults,
};
use directory_admin::types::{DisplayName, GroupId, JpegPhoto, Success, UserId};

struct StoredUser {
    email: String,
    display_name: String,
    first_name: Option<String>,
    last_name: Option<String>,
    avatar: Option<Vec<u8>>,
}

/// An in-memory backend double: it records every call so tests can check
/// that denied commands never reach the backend.
struct TestBackend {
    users: Vec<(String, StoredUser)>,
    groups: Vec<(i32, String)>,
    memberships: Vec<(String, i32)>,
    credentialed: Vec<String>,
    next_group_id: i32,
    calls: Cell<u32>,
}

impl TestBackend {
    fn new() -> Self {
        TestBackend {
            users: Vec::new(),
            groups: Vec::new(),
            memberships: Vec::new(),
            credentialed: Vec::new(),
            next_group_id: 1,
            calls: Cell::new(0),
        }
    }

    fn bump(&self) {
        self.calls.set(self.calls.get() + 1);
    }

    fn with_user(id: &str) -> Self {
        let mut b = TestBackend::new();
        b.users.push((
            id.to_string(),
            StoredUser {
                email: format!("{}@example.com", id),
                display_name: id.to_string(),
                first_name: None,
                last_name: None,
                avatar: None,
            },
        ));
        b
    }
}

impl BackendHandler for TestBackend {
    fn state(&self) -> directory_admin::model::DirectoryState {
        panic!("ghost state is never evaluated at run time")
    }

    fn create_user(&mut self, request: CreateUserRequest) -> Result<(), BackendError> {
        self.bump();
        let key = request.user_id.as_str().to_string();
        if self.users.iter().any(|(k, _)| *k == key) {
            return Err(BackendError::DuplicateKey);
        }
        self.users.push((
            key,
            StoredUser {
                email: request.email,
                display_name: request
                    .display_name
                    .map(|d| d.as_str().to_string())
                    .unwrap_or_default(),
                first_name: request.first_name,
                last_name: request.last_name,
                avatar: request.avatar.map(|p| p.bytes().clone()),
            },
        ));
        Ok(())
    }

    fn get_user_details(&self, user_id: &UserId) -> Result<UserRecord, BackendError> {
        self.bump();
        for (k, u) in &self.users {
            if k == user_id.as_str() {
                return Ok(UserRecord {
                    user_id: UserId::new(k),
                    email: u.email.clone(),
                    display_name: DisplayName::new(&u.display_name),
                    first_name: u.first_name.clone(),
                    last_name: u.last_name.clone(),
                    avatar: u
                        .avatar
                        .clone()
                        .map(|b| JpegPhoto::from_bytes(b).expect("stored avatar is valid")),
                });
            }
        }
        Err(BackendError::NotFound)
    }

    fn update_user(&mut self, request: UpdateUserRequest) -> Result<(), BackendError> {
        self.bump();
        for (k, u) in self.users.iter_mut() {
            if k == request.user_id.as_str() {
                if let Some(e) = request.email {
                    u.email = e;
                }
                u.display_name = request.display_name.as_str().to_string();
                if let Some(f) = request.first_name {
                    u.first_name = Some(f);
                }
                if let Some(l) = request.last_name {
                    u.last_name = Some(l);
                }
                if let Some(a) = request.avatar {
                    u.avatar = Some(a.bytes().clone());
                }
                return Ok(());
            }
        }
        Err(BackendError::NotFound)
    }

    fn delete_user(&mut self, user_id: &UserId) -> Result<(), BackendError> {
        self.bump();
        self.users.retain(|(k, _)| k != user_id.as_str());
        self.memberships.retain(|(k, _)| k != user_id.as_str());
        self.credentialed.retain(|k| k != user_id.as_str());
        Ok(())
    }

    fn create_group(&mut self, name: &str) -> Result<GroupId, BackendError> {
        self.bump();
        let id = self.next_group_id;
        self.next_group_id += 1;
        self.groups.push((id, name.to_string()));
        Ok(GroupId(id))
    }

    fn get_group_details(&self, group_id: GroupId) -> Result<GroupRecord, BackendError> {
        self.bump();
        for (id, name) in &self.groups {
            if *id == group_id.0 {
                return Ok(GroupRecord { id: GroupId(*id), display_name: DisplayName::new(name) });
            }
        }
        Err(BackendError::NotFound)
    }

    fn update_group(&mut self, request: UpdateGroupRequest) -> Result<(), BackendError> {
        self.bump();
        for (id, name) in self.groups.iter_mut() {
            if *id == request.group_id.0 {
                if let Some(n) = request.display_name {
                    *name = n;
                }
                return Ok(());
            }
        }
        Err(BackendError::NotFound)
    }

    fn delete_group(&mut self, group_id: GroupId) -> Result<(), BackendError> {
        self.bump();
        self.groups.retain(|(id, _)| *id != group_id.0);
        self.memberships.retain(|(_, g)| *g != group_id.0);
        Ok(())
    }

    fn add_user_to_group(&mut self, user_id: &UserId, group_id: GroupId) -> Result<(), BackendError> {
        self.bump();
        self.memberships.push((user_id.as_str().to_string(), group_id.0));
        Ok(())
    }

    fn remove_user_from_group(
        &mut self,
        user_id: &UserId,
        group_id: GroupId,
    ) -> Result<(), BackendError> {
        self.bump();
        self.memberships
            .retain(|(k, g)| !(k == user_id.as_str() && *g == group_id.0));
        Ok(())
    }

    fn list_groups(
        &self,
        filter: Option<GroupRequestFilter>,
    ) -> Result<Vec<GroupRecord>, BackendError> {
        self.bump();
        let wanted = match &filter {
            None => None,
            Some(GroupRequestFilter::DisplayName(n)) => Some(n.clone()),
        };
        Ok(self
            .groups
            .iter()
            .filter(|(_, name)| wanted.as_ref().map_or(true, |w| w == name))
            .map(|(id, name)| GroupRecord { id: GroupId(*id), display_name: DisplayName::new(name) })
            .collect())
    }

    fn register_password(&mut self, user_id: &UserId, _password: &str) -> Result<(), BackendError> {
        self.bump();
        self.credentialed.push(user_id.as_str().to_string());
        Ok(())
    }
}

fn admin_ctx(backend: TestBackend, principal: &str) -> Context<TestBackend> {
    Context {
        handler: backend,
        validation_result: ValidationResults { user: UserId::new(principal), is_admin: true },
    }
}

fn user_ctx(backend: TestBackend, principal: &str) -> Context<TestBackend> {
    Context {
        handler: backend,
        validation_result: ValidationResults { user: UserId::new(principal), is_admin: false },
    }
}

fn small_jpeg() -> Vec<u8> {
    vec![0xff, 0xd8, 0xff, 0xe0, 0x00, 0x10, 0xff, 0xd9]
}

fn create_input(id: &str) -> CreateUserInput {
    CreateUserInput {
        id: id.to_string(),
        email: format!("{}@example.com", id),
        display_name: format!("{} display", id),
        first_name: None,
        last_name: None,
        avatar: None,
    }
}

fn update_input(id: &str) -> UpdateUserInput {
    UpdateUserInput {
        id: id.to_string(),
        email: None,
        display_name: format!("{} updated", id),
        first_name: None,
        last_name: None,
        avatar: None,
    }
}

#[test]
fn denial_makes_no_backend_calls() {
    let mut ctx = user_ctx(TestBackend::new(), "alice");
    assert!(matches!(
        Mutation::<TestBackend>::create_user(&mut ctx, create_input("bob")),
        Err(ApiError::Unauthorized(MutationKind::UserCreation))
    ));
    assert!(matches!(
        Mutation::<TestBackend>::create_group(&mut ctx, "g".to_string()),
        Err(ApiError::Unauthorized(MutationKind::GroupCreation))
    ));
    assert!(matches!(
        Mutation::<TestBackend>::update_user(&mut ctx, update_input("bob")),
        Err(ApiError::Unauthorized(MutationKind::UserUpdate))
    ));
    assert!(matches!(
        Mutation::<TestBackend>::update_group(
            &mut ctx,
            UpdateGroupInput { id: 7, display_name: None }
        ),
        Err(ApiError::Unauthorized(MutationKind::GroupUpdate))
    ));
    assert!(matches!(
        Mutation::<TestBackend>::add_user_to_group(&mut ctx, "bob".to_string(), 7),
        Err(ApiError::Unauthorized(MutationKind::GroupMembershipModification))
    ));
    assert!(matches!(
        Mutation::<TestBackend>::remove_user_from_group(&mut ctx, "bob".to_string(), 7),
        Err(ApiError::Unauthorized(MutationKind::GroupMembershipModification))
    ));
    assert!(matches!(
        Mutation::<TestBackend>::delete_user(&mut ctx, "bob".to_string()),
        Err(ApiError::Unauthorized(MutationKind::UserDeletion))
    ));
    assert!(matches!(
        Mutation::<TestBackend>::delete_group(&mut ctx, 7),
        Err(ApiError::Unauthorized(MutationKind::GroupDeletion))
    ));
    assert_eq!(ctx.handler.calls.get(), 0);
}

#[test]
fn invariant_denial_makes_no_backend_calls() {
    let mut ctx = admin_ctx(TestBackend::new(), "admin");
    assert!(Mutation::<TestBackend>::update_group(
        &mut ctx,
        UpdateGroupInput { id: 1, display_name: Some("x".to_string()) }
    )
    .is_err());
    assert!(Mutation::<TestBackend>::delete_group(&mut ctx, 1).is_err());
    assert!(Mutation::<TestBackend>::delete_user(&mut ctx, "admin".to_string()).is_err());
    assert!(
        Mutation::<TestBackend>::remove_user_from_group(&mut ctx, "admin".to_string(), 1).is_err()
    );
    assert_eq!(ctx.handler.calls.get(), 0);
}

#[test]
fn remove_self_from_admin_group_fails() {
    let mut ctx = admin_ctx(TestBackend::with_user("admin"), "admin");
    let r = Mutation::<TestBackend>::remove_user_from_group(&mut ctx, "admin".to_string(), 1);
    match r {
        Err(ApiError::InvariantViolation(rule)) => {
            assert_eq!(rule, InvariantRule::RemoveAdminRightsCurrentUser);
            assert_eq!(rule.message(), "Cannot remove admin rights for current user");
        }
        other => panic!("expected invariant violation, got {:?}", other),
    }
}

#[test]
fn remove_other_from_admin_group_succeeds() {
    let mut backend = TestBackend::with_user("admin");
    backend.memberships.push(("bob".to_string(), 1));
    let mut ctx = admin_ctx(backend, "admin");
    let r = Mutation::<TestBackend>::remove_user_from_group(&mut ctx, "bob".to_string(), 1);
    assert_eq!(r, Ok(Success { ok: true }));
    assert!(ctx.handler.memberships.is_empty());
}

#[test]
fn remove_self_from_other_group_succeeds() {
    let mut backend = TestBackend::with_user("admin");
    backend.memberships.push(("admin".to_string(), 2));
    let mut ctx = admin_ctx(backend, "admin");
    let r = Mutation::<TestBackend>::remove_user_from_group(&mut ctx, "admin".to_string(), 2);
    assert_eq!(r, Ok(Success { ok: true }));
    assert!(ctx.handler.memberships.is_empty());
}

#[test]
fn delete_self_fails_for_admin() {
    let mut ctx = admin_ctx(TestBackend::with_user("admin"), "admin");
    let r = Mutation::<TestBackend>::delete_user(&mut ctx, "admin".to_string());
    match r {
        Err(ApiError::InvariantViolation(rule)) => {
            assert_eq!(rule, InvariantRule::DeleteCurrentUser);
            assert_eq!(rule.message(), "Cannot delete current user");
        }
        other => panic!("expected invariant violation, got {:?}", other),
    }
    assert_eq!(ctx.handler.users.len(), 1);
}

#[test]
fn delete_self_fails_for_non_admin() {
    let mut ctx = user_ctx(TestBackend::with_user("alice"), "alice");
    let r = Mutation::<TestBackend>::delete_user(&mut ctx, "alice".to_string());
    assert!(matches!(r, Err(ApiError::Unauthorized(MutationKind::UserDeletion))));
}

#[test]
fn delete_other_user_succeeds() {
    let mut ctx = admin_ctx(TestBackend::with_user("bob"), "admin");
    let r = Mutation::<TestBackend>::delete_user(&mut ctx, "bob".to_string());
    assert_eq!(r, Ok(Success { ok: true }));
    assert!(ctx.handler.users.is_empty());
}

#[test]
fn update_admin_group_fails_for_admin() {
    let mut ctx = admin_ctx(TestBackend::new(), "admin");
    let r = Mutation::<TestBackend>::update_group(
        &mut ctx,
        UpdateGroupInput { id: 1, display_name: Some("new name".to_string()) },
    );
    match r {
        Err(ApiError::InvariantViolation(rule)) => {
            assert_eq!(rule, InvariantRule::ChangeAdminGroupDetails);
            assert_eq!(rule.message(), "Cannot change admin group details");
        }
        other => panic!("expected invariant violation, got {:?}", other),
    }
}

#[test]
fn delete_admin_group_fails_for_admin() {
    let mut ctx = admin_ctx(TestBackend::new(), "admin");
    let r = Mutation::<TestBackend>::delete_group(&mut ctx, 1);
    match r {
        Err(ApiError::InvariantViolation(rule)) => {
            assert_eq!(rule, InvariantRule::DeleteAdminGroup);
            assert_eq!(rule.message(), "Cannot delete admin group");
        }
        other => panic!("expected invariant violation, got {:?}", other),
    }
}

#[test]
fn update_other_group_succeeds() {
    let mut backend = TestBackend::new();
    backend.groups.push((2, "old".to_string()));
    let mut ctx = admin_ctx(backend, "admin");
    let r = Mutation::<TestBackend>::update_group(
        &mut ctx,
        UpdateGroupInput { id: 2, display_name: Some("new".to_string()) },
    );
    assert_eq!(r, Ok(Success { ok: true }));
    assert_eq!(ctx.handler.groups[0].1, "new");
}

#[test]
fn avatar_bad_base64_rejected() {
    let mut ctx = admin_ctx(TestBackend::new(), "admin");
    let mut input = create_input("bob");
    input.avatar = Some("not-base64!!".to_string());
    let r = Mutation::<TestBackend>::create_user(&mut ctx, input);
    match r {
        Err(ApiError::InvalidInput(cause)) => {
            assert_eq!(cause, InvalidCause::BadBase64);
            assert_eq!(cause.message(), "Invalid base64 image");
        }
        other => panic!("expected invalid input, got {:?}", other),
    }
    assert_eq!(ctx.handler.calls.get(), 0);
}

#[test]
fn avatar_valid_base64_but_not_jpeg_rejected() {
    let mut ctx = admin_ctx(TestBackend::new(), "admin");
    let mut input = create_input("bob");
    input.avatar = Some(base64::encode(b"hello world, not an image"));
    let r = Mutation::<TestBackend>::create_user(&mut ctx, input);
    match r {
        Err(ApiError::InvalidInput(cause)) => {
            assert_eq!(cause, InvalidCause::NotJpeg);
            assert_eq!(cause.message(), "Provided image is not a valid JPEG");
        }
        other => panic!("expected invalid input, got {:?}", other),
    }
}

#[test]
fn avatar_round_trips_byte_for_byte() {
    let mut ctx = admin_ctx(TestBackend::new(), "admin");
    let jpeg = small_jpeg();
    let mut input = create_input("bob");
    input.avatar = Some(base64::encode(&jpeg));
    let r = Mutation::<TestBackend>::create_user(&mut ctx, input);
    let record = r.expect("creation with a valid avatar succeeds");
    assert_eq!(record.avatar.expect("avatar stored").bytes(), &jpeg);
    assert_eq!(ctx.handler.users[0].1.avatar.as_ref().unwrap(), &jpeg);
}

#[test]
fn create_user_returns_canonical_record() {
    let mut ctx = admin_ctx(TestBackend::new(), "admin");
    let r = Mutation::<TestBackend>::create_user(&mut ctx, create_input("bob"));
    let record = r.expect("authorized creation succeeds");
    assert_eq!(record.user_id.as_str(), "bob");
    assert_eq!(record.display_name.as_str(), "bob display");
    assert_eq!(record.email, "bob@example.com");
    let fetched = ctx.handler.get_user_details(&UserId::new("bob")).unwrap();
    assert_eq!(fetched.display_name.as_str(), "bob display");
}

#[test]
fn create_user_duplicate_surfaces_backend_failure() {
    let mut ctx = admin_ctx(TestBackend::with_user("bob"), "admin");
    let r = Mutation::<TestBackend>::create_user(&mut ctx, create_input("bob"));
    assert!(matches!(r, Err(ApiError::BackendFailure(BackendError::DuplicateKey))));
}

#[test]
fn create_group_returns_canonical_record() {
    let mut ctx = admin_ctx(TestBackend::new(), "admin");
    let r = Mutation::<TestBackend>::create_group(&mut ctx, "staff".to_string());
    let record = r.expect("authorized group creation succeeds");
    assert_eq!(record.display_name.as_str(), "staff");
    assert_eq!(record.id, GroupId(1));
}

#[test]
fn add_user_to_group_succeeds_for_admin() {
    let mut ctx = admin_ctx(TestBackend::with_user("bob"), "admin");
    let r = Mutation::<TestBackend>::add_user_to_group(&mut ctx, "bob".to_string(), 2);
    assert_eq!(r, Ok(Success { ok: true }));
    assert_eq!(ctx.handler.memberships, vec![("bob".to_string(), 2)]);
}

#[test]
fn update_user_by_non_admin_on_other_denied() {
    let mut ctx = user_ctx(TestBackend::with_user("bob"), "alice");
    let r = Mutation::<TestBackend>::update_user(&mut ctx, update_input("bob"));
    match r {
        Err(ApiError::Unauthorized(kind)) => {
            assert_eq!(kind, MutationKind::UserUpdate);
            assert_eq!(kind.message(), "Unauthorized user update");
        }
        other => panic!("expected unauthorized, got {:?}", other),
    }
    assert_eq!(ctx.handler.calls.get(), 0);
}

#[test]
fn update_user_on_self_succeeds() {
    let mut ctx = user_ctx(TestBackend::with_user("alice"), "alice");
    let r = Mutation::<TestBackend>::update_user(&mut ctx, update_input("alice"));
    assert_eq!(r, Ok(Success { ok: true }));
    assert_eq!(ctx.handler.users[0].1.display_name, "alice updated");
}

#[test]
fn update_user_keeps_absent_fields() {
    let mut backend = TestBackend::with_user("alice");
    backend.users[0].1.first_name = Some("Alice".to_string());
    let mut ctx = user_ctx(backend, "alice");
    let r = Mutation::<TestBackend>::update_user(&mut ctx, update_input("alice"));
    assert_eq!(r, Ok(Success { ok: true }));
    assert_eq!(ctx.handler.users[0].1.first_name, Some("Alice".to_string()));
    assert_eq!(ctx.handler.users[0].1.email, "alice@example.com");
}

#[test]
fn update_missing_user_surfaces_backend_failure() {
    let mut ctx = admin_ctx(TestBackend::new(), "admin");
    let r = Mutation::<TestBackend>::update_user(&mut ctx, update_input("ghost"));
    assert!(matches!(r, Err(ApiError::BackendFailure(BackendError::NotFound))));
}

#[test]
fn user_id_is_case_normalized() {
    assert!(UserId::new("Admin") == UserId::new("admin"));
    assert_eq!(UserId::new("ADMIN").as_str(), "admin");
    let mut ctx = admin_ctx(TestBackend::with_user("admin"), "Admin");
    let r = Mutation::<TestBackend>::delete_user(&mut ctx, "ADMIN".to_string());
    assert!(matches!(r, Err(ApiError::InvariantViolation(InvariantRule::DeleteCurrentUser))));
}

#[test]
fn success_marker_and_mutation_constructors() {
    let _ = Mutation::<TestBackend>::new();
    assert!(Success::new().ok);
}

#[test]
fn unauthorized_messages_name_the_action() {
    assert_eq!(MutationKind::UserCreation.message(), "Unauthorized user creation");
    assert_eq!(MutationKind::GroupCreation.message(), "Unauthorized group creation");
    assert_eq!(MutationKind::GroupDeletion.message(), "Unauthorized group deletion");
    assert_eq!(
        MutationKind::GroupMembershipModification.message(),
        "Unauthorized group membership modification"
    );
    assert_eq!(
        ApiError::BackendFailure(BackendError::NotFound).message(),
        "backend error: entity not found"
    );
}

fn bootstrap_config() -> BootstrapConfig {
    BootstrapConfig {
        ldap_user_dn: UserId::new("admin"),
        ldap_user_email: "admin@example.com".to_string(),
        ldap_user_pass: "password123".to_string(),
    }
}

#[test]
fn bootstrap_creates_baseline() {
    let mut backend = TestBackend::new();
    let config = bootstrap_config();
    set_up_directory(&mut backend, &config).expect("bootstrap succeeds on an empty store");
    let admin_groups: Vec<_> =
        backend.groups.iter().filter(|(_, n)| n == "lldap_admin").collect();
    assert_eq!(admin_groups.len(), 1);
    assert!(backend.groups.iter().any(|(_, n)| n == "lldap_password_manager"));
    assert!(backend.groups.iter().any(|(_, n)| n == "lldap_strict_readonly"));
    assert_eq!(backend.users.len(), 1);
    assert_eq!(backend.users[0].0, "admin");
    assert_eq!(backend.users[0].1.display_name, "Administrator");
    assert_eq!(backend.credentialed, vec!["admin".to_string()]);
    assert_eq!(backend.memberships, vec![("admin".to_string(), admin_groups[0].0)]);
}

#[test]
fn bootstrap_is_idempotent() {
    let mut backend = TestBackend::new();
    let config = bootstrap_config();
    set_up_directory(&mut backend, &config).expect("first run succeeds");
    let groups_after_first = backend.groups.clone();
    let users_after_first: Vec<String> = backend.users.iter().map(|(k, _)| k.clone()).collect();
    let memberships_after_first = backend.memberships.clone();
    set_up_directory(&mut backend, &config).expect("second run succeeds without duplicate errors");
    assert_eq!(backend.groups, groups_after_first);
    assert_eq!(
        backend.users.iter().map(|(k, _)| k.clone()).collect::<Vec<_>>(),
        users_after_first
    );
    assert_eq!(backend.memberships, memberships_after_first);
    assert_eq!(
        backend.groups.iter().filter(|(_, n)| n == "lldap_admin").count(),
        1
    );
    assert_eq!(backend.users.len(), 1);
}

#[test]
fn jpeg_marker_validation() {
    assert!(JpegPhoto::from_bytes(small_jpeg()).is_some());
    assert!(JpegPhoto::from_bytes(vec![0xff, 0xd8, 0xff, 0xd9]).is_some());
    assert!(JpegPhoto::from_bytes(vec![0xff, 0xd8]).is_none());
    assert!(JpegPhoto::from_bytes(b"hello".to_vec()).is_none());
    assert!(JpegPhoto::from_bytes(Vec::new()).is_none());
}
