//! The bootstrap orchestrator: the backend-state half of process startup.
//! It establishes the baseline groups and the bootstrap admin identity by
//! existence-check-then-create, so the whole sequence is safe to run on
//! every start.  Storage-pool construction, schema initialization, the two
//! protocol listeners and the maintenance scheduler stand outside the
//! library, around these calls.

use vstd::prelude::*;

use crate::backend::{
    group_selected, list_groups_post, BackendHandler, CreateUserRequest, GroupRequestFilter,
};
use crate::errors::BackendError;
use crate::model::{DirectoryState, SpecCreateUserRequest};
use crate::types::{DisplayName, UserId};

verus! {

/// The startup step a fatal bootstrap error arose in; errors carry this
/// context so a failed start names what failed.
#[derive(Clone, Copy, PartialEq, Eq, Structural, Debug)]
pub enum StartupStep {
    GroupLookup,
    GroupCreation,
    AdminCreation,
    PasswordRegistration,
    AdminGroupMembership,
}

/// A fatal error of the bootstrap sequence: the step that failed and the
/// backend failure that caused it.
#[derive(Clone, Copy, PartialEq, Eq, Structural, Debug)]
pub struct StartupError {
    pub step: StartupStep,
    pub cause: BackendError,
}

/// Configuration of the bootstrap admin identity.
pub struct BootstrapConfig {
    pub ldap_user_dn: UserId,
    pub ldap_user_email: String,
    pub ldap_user_pass: String,
}

/// The record the bootstrap sequence creates for the admin identity.
pub open spec fn spec_admin_request(config: BootstrapConfig) -> SpecCreateUserRequest {
    SpecCreateUserRequest {
        user_id: config.ldap_user_dn@,
        email: config.ldap_user_email@,
        display_name: Some("Administrator"@),
        first_name: None,
        last_name: None,
        avatar: None,
    }
}

/// The baseline the bootstrap sequence owes on success: the three fixed
/// groups exist and the admin identity is present.
pub open spec fn baseline_present(s: DirectoryState, admin_dn: Seq<char>) -> bool {
    &&& s.some_group_named("lldap_admin"@)
    &&& s.some_group_named("lldap_password_manager"@)
    &&& s.some_group_named("lldap_strict_readonly"@)
    &&& s.users.contains_key(admin_dn)
}

/// Looks a group up by name and creates it only when absent, so group
/// bootstrap is safe to run on every start.
pub fn ensure_group_exists<Handler: BackendHandler>(handler: &mut Handler, group_name: &str) -> (r:
    Result<(), StartupError>)
    ensures
        match r {
            Ok(()) => if old(handler).state().some_group_named(group_name@) {
                final(handler).state() == old(handler).state()
            } else {
                exists|g: int|
                    !old(handler).state().groups.contains_key(g) && final(handler).state() == old(handler).state().with_group(g, group_name@)
            },
            Err(_) => final(handler).state() == old(handler).state(),
        },
{
    let groups = match handler.list_groups(
        Some(GroupRequestFilter::DisplayName(group_name.to_owned())),
    ) {
        Ok(g) => g,
        Err(e) => {
            return Err(StartupError { step: StartupStep::GroupLookup, cause: e });
        },
    };
    if groups.len() == 0 {
        proof {
            assert(list_groups_post(handler.state(), Some(group_name@), groups@));
            if handler.state().some_group_named(group_name@) {
                let g = choose|g: int| handler.state().group_has_name(g, group_name@);
                assert(group_selected(handler.state(), Some(group_name@), g));
                assert(false);
            }
        }
        match handler.create_group(group_name) {
            Ok(_) => Ok(()),
            Err(e) => Err(StartupError { step: StartupStep::GroupCreation, cause: e }),
        }
    } else {
        proof {
            assert(list_groups_post(handler.state(), Some(group_name@), groups@));
            assert(handler.state().group_has_name(groups@[0]@.0, group_name@));
        }
        Ok(())
    }
}

/// Creates the bootstrap admin identity: the user record, its initial
/// credential, and its membership in the administrators group.  The
/// credential must already have been checked for minimum length; the
/// administrators group must exist, uniquely.
pub fn create_admin_user<Handler: BackendHandler>(
    handler: &mut Handler,
    config: &BootstrapConfig,
) -> (r: Result<(), StartupError>)
    requires
        config.ldap_user_pass@.len() >= 8,
        old(handler).state().exactly_one_group_named("lldap_admin"@),
    ensures
        ({
            let pre = old(handler).state();
            let post = final(handler).state();
            let req = spec_admin_request(*config);
            let dn = config.ldap_user_dn@;
            match r {
                Ok(()) => !pre.users.contains_key(dn) && exists|g: int|
                    pre.group_has_name(g, "lldap_admin"@) && post == pre.with_user(
                        req,
                    ).with_password(dn).with_membership(dn, g),
                Err(_) => post == pre || post == pre.with_user(req) || post == pre.with_user(
                    req,
                ).with_password(dn),
            }
        }),
        old(handler).state().users.contains_key(config.ldap_user_dn@) ==> r is Err && final(handler).state() == old(handler).state(),
{
    let request = CreateUserRequest {
        user_id: config.ldap_user_dn.clone(),
        email: config.ldap_user_email.clone(),
        display_name: Some(DisplayName::new("Administrator")),
        first_name: None,
        last_name: None,
        avatar: None,
    };
    match handler.create_user(request) {
        Ok(()) => {},
        Err(e) => {
            return Err(StartupError { step: StartupStep::AdminCreation, cause: e });
        },
    }
    match handler.register_password(&config.ldap_user_dn, config.ldap_user_pass.as_str()) {
        Ok(()) => {},
        Err(e) => {
            return Err(StartupError { step: StartupStep::PasswordRegistration, cause: e });
        },
    }
    let groups = match handler.list_groups(
        Some(GroupRequestFilter::DisplayName("lldap_admin".to_owned())),
    ) {
        Ok(g) => g,
        Err(e) => {
            return Err(StartupError { step: StartupStep::AdminGroupMembership, cause: e });
        },
    };
    proof {
        let pre = old(handler).state();
        let s = handler.state();
        assert(s.groups == pre.groups);
        assert(list_groups_post(s, Some("lldap_admin"@), groups@));
        let g0 = choose|g: int| pre.group_has_name(g, "lldap_admin"@);
        assert(s.group_has_name(g0, "lldap_admin"@));
        assert(group_selected(s, Some("lldap_admin"@), g0));
        assert(groups@.len() >= 1);
        if groups@.len() >= 2 {
            assert(s.group_has_name(groups@[0]@.0, "lldap_admin"@));
            assert(s.group_has_name(groups@[1]@.0, "lldap_admin"@));
            assert(pre.group_has_name(groups@[0]@.0, "lldap_admin"@));
            assert(pre.group_has_name(groups@[1]@.0, "lldap_admin"@));
            assert(false);
        }
    }
    let admin_group_id = groups[0].id;
    proof {
        assert(old(handler).state().group_has_name(admin_group_id@, "lldap_admin"@));
    }
    match handler.add_user_to_group(&config.ldap_user_dn, admin_group_id) {
        Ok(()) => Ok(()),
        Err(e) => Err(StartupError { step: StartupStep::AdminGroupMembership, cause: e }),
    }
}

/// The idempotent startup sequence over the backend: ensure each baseline
/// group, then create the admin identity only when it is absent.  Running
/// it against an already-bootstrapped store changes nothing; on success
/// the baseline holds, with exactly one administrators group, and the
/// admin identity is created at most once.
pub fn set_up_directory<Handler: BackendHandler>(
    handler: &mut Handler,
    config: &BootstrapConfig,
) -> (r: Result<(), StartupError>)
    requires
        config.ldap_user_pass@.len() >= 8,
        old(handler).state().at_most_one_group_named("lldap_admin"@),
    ensures
        ({
            let pre = old(handler).state();
            let post = final(handler).state();
            let dn = config.ldap_user_dn@;
            &&& baseline_present(pre, dn) ==> post == pre
            &&& r is Ok ==> baseline_present(post, dn) && post.exactly_one_group_named(
                "lldap_admin"@,
            )
            &&& r is Ok ==> forall|u: Seq<char>|
                post.users.contains_key(u) <==> (pre.users.contains_key(u) || u == dn)
            &&& r is Ok && !pre.users.contains_key(dn) ==> exists|g: int|
                post.group_has_name(g, "lldap_admin"@) && post.memberships.contains((dn, g))
        }),
{
    proof {
        assert("lldap_admin"@ != "lldap_password_manager"@ && "lldap_admin"@
            != "lldap_strict_readonly"@ && "lldap_strict_readonly"@
            != "lldap_password_manager"@) by {
            reveal_strlit("lldap_admin");
            reveal_strlit("lldap_password_manager");
            reveal_strlit("lldap_strict_readonly");
            assert("lldap_admin"@.len() == 11);
            assert("lldap_password_manager"@.len() == 22);
            assert("lldap_strict_readonly"@.len() == 21);
        }
    }
    let ghost pre = handler.state();
    ensure_group_exists(handler, "lldap_admin")?;
    let ghost s1 = handler.state();
    proof {
        lemma_ensure_group_effect(pre, s1, "lldap_admin"@);
        assert(pre.at_most_one_group_named("lldap_admin"@));
        assert(s1.exactly_one_group_named("lldap_admin"@)) by {
            lemma_exactly_one_after_ensure(pre, s1, "lldap_admin"@);
        }
    }
    ensure_group_exists(handler, "lldap_password_manager")?;
    let ghost s2 = handler.state();
    proof {
        lemma_ensure_group_effect(s1, s2, "lldap_password_manager"@);
        lemma_some_after_ensure(s1, s2, "lldap_password_manager"@);
        lemma_other_names_preserved(s1, s2, "lldap_password_manager"@, "lldap_admin"@);
    }
    ensure_group_exists(handler, "lldap_strict_readonly")?;
    let ghost s3 = handler.state();
    proof {
        lemma_ensure_group_effect(s2, s3, "lldap_strict_readonly"@);
        lemma_some_after_ensure(s2, s3, "lldap_strict_readonly"@);
        lemma_other_names_preserved(s2, s3, "lldap_strict_readonly"@, "lldap_admin"@);
        lemma_other_names_preserved(s2, s3, "lldap_strict_readonly"@, "lldap_password_manager"@);
        assert(s3.users == pre.users);
        assert(s3.exactly_one_group_named("lldap_admin"@));
        assert(s3.some_group_named("lldap_password_manager"@));
        assert(s3.some_group_named("lldap_strict_readonly"@));
        assert(baseline_present(pre, config.ldap_user_dn@) ==> s3 == pre);
    }
    let got = handler.get_user_details(&config.ldap_user_dn);
    match got {
        Ok(_) => {
            proof {
                assert(handler.state() == s3);
                assert(s3.users.contains_key(config.ldap_user_dn@));
                assert(forall|u: Seq<char>|
                    s3.users.contains_key(u) <==> (pre.users.contains_key(u) || u
                        == config.ldap_user_dn@));
            }
            Ok(())
        },
        Err(_) => {
            let rr = create_admin_user(handler, config);
            proof {
                let post = handler.state();
                let dn = config.ldap_user_dn@;
                if rr is Ok {
                    let g = choose|g: int|
                        s3.group_has_name(g, "lldap_admin"@) && post == s3.with_user(
                            spec_admin_request(*config),
                        ).with_password(dn).with_membership(dn, g);
                    assert(post.group_has_name(g, "lldap_admin"@));
                    assert(post.memberships.contains((dn, g)));
                    assert(post.users.contains_key(dn));
                    assert(post.groups == s3.groups);
                    lemma_groups_equal_names(s3, post, "lldap_admin"@);
                    lemma_groups_equal_names(s3, post, "lldap_password_manager"@);
                    lemma_groups_equal_names(s3, post, "lldap_strict_readonly"@);
                    assert(forall|u: Seq<char>|
                        post.users.contains_key(u) <==> (pre.users.contains_key(u) || u == dn));
                }
            }
            rr
        },
    }
}

/// After one ensure-group step the groups map only ever gained the named
/// group; users, memberships and credentials are untouched.
proof fn lemma_ensure_group_effect(pre: DirectoryState, post: DirectoryState, name: Seq<char>)
    requires
        post == pre || (exists|g: int|
            !pre.groups.contains_key(g) && post == pre.with_group(g, name)),
    ensures
        post.users == pre.users,
        post.memberships == pre.memberships,
        post.credentialed == pre.credentialed,
{
}

/// States with the same groups agree on which names exist and on their
/// uniqueness.
proof fn lemma_groups_equal_names(a: DirectoryState, b: DirectoryState, name: Seq<char>)
    requires
        a.groups == b.groups,
    ensures
        a.some_group_named(name) ==> b.some_group_named(name),
        a.at_most_one_group_named(name) ==> b.at_most_one_group_named(name),
{
    if a.some_group_named(name) {
        let g = choose|g: int| a.group_has_name(g, name);
        assert(b.group_has_name(g, name));
    }
    if a.at_most_one_group_named(name) {
        assert forall|g1: int, g2: int|
            b.group_has_name(g1, name) && b.group_has_name(g2, name) implies g1 == g2 by {
            assert(a.group_has_name(g1, name));
            assert(a.group_has_name(g2, name));
        }
    }
}

/// After one ensure-group step the named group exists.
proof fn lemma_some_after_ensure(pre: DirectoryState, post: DirectoryState, name: Seq<char>)
    requires
        (pre.some_group_named(name) && post == pre) || (exists|g: int|
            !pre.groups.contains_key(g) && post == pre.with_group(g, name)),
    ensures
        post.some_group_named(name),
{
    if pre.some_group_named(name) && post == pre {
    } else {
        let g = choose|g: int| !pre.groups.contains_key(g) && post == pre.with_group(g, name);
        assert(post.group_has_name(g, name));
    }
}

/// A step that only ever adds a group under one name neither creates nor
/// destroys groups under any other name.
proof fn lemma_other_names_preserved(
    pre: DirectoryState,
    post: DirectoryState,
    name: Seq<char>,
    other: Seq<char>,
)
    requires
        name != other,
        post == pre || (exists|g: int| !pre.groups.contains_key(g) && post == pre.with_group(g, name)),
    ensures
        pre.some_group_named(other) ==> post.some_group_named(other),
        post.some_group_named(other) ==> pre.some_group_named(other),
        pre.at_most_one_group_named(other) ==> post.at_most_one_group_named(other),
{
    if post == pre {
    } else {
        let g = choose|g: int| !pre.groups.contains_key(g) && post == pre.with_group(g, name);
        assert(post.group_has_name(g, name));
        if pre.some_group_named(other) {
            let h = choose|h: int| pre.group_has_name(h, other);
            assert(post.group_has_name(h, other));
        }
        if post.some_group_named(other) {
            let h = choose|h: int| post.group_has_name(h, other);
            assert(h != g);
            assert(pre.group_has_name(h, other));
        }
        if pre.at_most_one_group_named(other) {
            assert forall|g1: int, g2: int|
                post.group_has_name(g1, other) && post.group_has_name(g2, other) implies g1
                == g2 by {
                assert(g1 != g && g2 != g);
                assert(pre.group_has_name(g1, other) && pre.group_has_name(g2, other));
            }
        }
    }
}

/// One ensure-group step on a state with at most one group of the name
/// leaves exactly one group of the name.
proof fn lemma_exactly_one_after_ensure(pre: DirectoryState, post: DirectoryState, name: Seq<char>)
    requires
        pre.at_most_one_group_named(name),
        (pre.some_group_named(name) && post == pre) || (!pre.some_group_named(name) && exists|
            g: int,
        | !pre.groups.contains_key(g) && post == pre.with_group(g, name)),
    ensures
        post.exactly_one_group_named(name),
{
    if pre.some_group_named(name) {
    } else {
        let g = choose|g: int| !pre.groups.contains_key(g) && post == pre.with_group(g, name);
        assert(post.group_has_name(g, name));
        assert forall|g1: int, g2: int|
            post.group_has_name(g1, name) && post.group_has_name(g2, name) implies g1 == g2 by {
            if g1 != g {
                assert(pre.group_has_name(g1, name));
                assert(false);
            }
            if g2 != g {
                assert(pre.group_has_name(g2, name));
                assert(false);
            }
        }
    }
}

} // verus!
