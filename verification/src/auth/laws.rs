//! Properties of roles and permissions that hold for every role.
use vstd::prelude::*;
use crate::auth::rbac::{lemma_permissions_by_rank, permissions_of, rank, role_name, role_named, Permission, Role};
use crate::auth::jwt::{claims_for, Claims, ACCESS_TTL_SECS, REFRESH_TTL_SECS};
use crate::auth::nonce::{after_generate, consume_outcome, NonceMap, NONCE_TTL_MS};
use crate::auth::password::{argon2_verifies, phc_parses, verify_outcome};
use crate::text::{ascii_lowered, lemma_match_ascii_lowered, lemma_match_iff_lowered, matches_ignore_ascii_case};

verus! {

/// A role grants every permission that a lesser role grants: viewer within
/// developer within admin within owner.
pub proof fn lemma_roles_nested(lower: Role, higher: Role, p: Permission)
    requires
        rank(lower) <= rank(higher),
        permissions_of(lower).contains(p),
    ensures
        permissions_of(higher).contains(p),
{
    lemma_permissions_by_rank(lower, p);
    lemma_permissions_by_rank(higher, p);
}

/// A role writes exactly when it may create projects and trigger scans, and
/// administers exactly when it may manage members; only the owner holds
/// `Administer`; every role may view scans, reports and findings.
pub proof fn lemma_role_checks_match_permissions(role: Role)
    ensures
        (role != Role::Viewer) <==> permissions_of(role).contains(Permission::CreateProject),
        (role != Role::Viewer) <==> permissions_of(role).contains(Permission::TriggerScan),
        (role == Role::Owner || role == Role::Admin) <==> permissions_of(role).contains(Permission::ManageMembers),
        (role == Role::Owner) <==> permissions_of(role).contains(Permission::Administer),
        permissions_of(role).contains(Permission::ViewScan),
        permissions_of(role).contains(Permission::ViewReport),
        permissions_of(role).contains(Permission::ViewFindings),
{
    lemma_permissions_by_rank(role, Permission::CreateProject);
    lemma_permissions_by_rank(role, Permission::TriggerScan);
    lemma_permissions_by_rank(role, Permission::ManageMembers);
    lemma_permissions_by_rank(role, Permission::Administer);
    lemma_permissions_by_rank(role, Permission::ViewScan);
    lemma_permissions_by_rank(role, Permission::ViewReport);
    lemma_permissions_by_rank(role, Permission::ViewFindings);
}

/// Reading back the name of a role gives the role.
pub proof fn lemma_role_name_round_trip(role: Role)
    ensures
        role_named(role_name(role)) == Some(role),
{
    reveal_strlit("owner");
    reveal_strlit("admin");
    reveal_strlit("developer");
    reveal_strlit("viewer");
    let n = role_name(role);
    assert(matches_ignore_ascii_case(n, n));
    if role != Role::Owner {
        assert(!matches_ignore_ascii_case(n, "owner"@)) by {
            if n.len() == 5 {
                assert(n[0] != 'o');
            }
        }
    }
    if role != Role::Owner && role != Role::Admin {
        assert(!matches_ignore_ascii_case(n, "admin"@)) by {
            if n.len() == 5 {
                assert(n[0] != 'a');
            }
        }
    }
    if role == Role::Viewer {
        assert(!matches_ignore_ascii_case(n, "developer"@));
    }
}

/// A nonce handed out for a key is given back by the first consumption when
/// that comes within five minutes (and refused after), and never by a later
/// one, since consuming removes the entry either way: each nonce is usable once.
pub proof fn lemma_nonce_used_once(m: NonceMap, key: Seq<char>, nonce: Seq<char>, issued: u64, used: u64, again: u64)
    requires
        issued + NONCE_TTL_MS <= u64::MAX,
    ensures
        consume_outcome(after_generate(m, key, nonce, issued), key, used)
            == (if used <= issued + NONCE_TTL_MS { Some(nonce) } else { None }),
        consume_outcome(after_generate(m, key, nonce, issued).remove(key), key, again) is None,
{
}

/// A nonce consumed more than five minutes after it was handed out is refused.
pub proof fn lemma_expired_nonce_refused(m: NonceMap, key: Seq<char>, nonce: Seq<char>, issued: u64, used: u64)
    requires
        issued + NONCE_TTL_MS <= u64::MAX,
        used > issued + NONCE_TTL_MS,
    ensures
        consume_outcome(after_generate(m, key, nonce, issued), key, used) is None,
{
}

/// Handing out a nonce for one key leaves the nonce of every other key as it was.
pub proof fn lemma_nonce_keys_independent(m: NonceMap, key: Seq<char>, other: Seq<char>, nonce: Seq<char>, issued: u64, used: u64)
    requires
        key != other,
        issued + NONCE_TTL_MS <= u64::MAX,
    ensures
        consume_outcome(after_generate(m, key, nonce, issued), other, used) == consume_outcome(m, other, used),
{
}

/// The refresh token issued with an access token names the same user, role,
/// organization and token id, and expires later.
pub proof fn lemma_refresh_outlives_access(
    access: Claims,
    refresh: Claims,
    user_id: u128,
    email: Seq<char>,
    role: Seq<char>,
    org_id: Option<u128>,
    now: usize,
    jti: Seq<char>,
)
    requires
        claims_for(access, user_id, email, role, org_id, now, jti, ACCESS_TTL_SECS as int),
        claims_for(refresh, user_id, email, role, org_id, now, jti, REFRESH_TTL_SECS as int),
    ensures
        refresh.exp > access.exp,
        refresh.sub == access.sub && refresh.email@ == access.email@ && refresh.role@ == access.role@,
        refresh.org_id == access.org_id && refresh.jti@ == access.jti@ && refresh.iat == access.iat,
{
}

/// A password verifies against the hash that hashing it gave: whenever
/// `PasswordService::hash` returns `Ok(h)`, `PasswordService::verify` of the
/// same password and `h` returns `Ok(true)`.
pub proof fn lemma_password_verifies_own_hash(password: Seq<u8>, h: Seq<char>)
    requires
        phc_parses(h) && argon2_verifies(password, h),
    ensures
        verify_outcome(password, h) == Some(true),
{
}

/// Roles are read without regard to case: the text gives a role exactly when,
/// ASCII lower-cased, it is that role's name, and lower-casing the text first
/// gives the same answer; distinct roles have distinct names.
pub proof fn lemma_role_parse_ignores_case(s: Seq<char>, role: Role, other: Role)
    ensures
        (role_named(s) == Some(role)) <==> ascii_lowered(s) == role_name(role),
        role_named(ascii_lowered(s)) == role_named(s),
        role_name(role) == role_name(other) ==> role == other,
{
    reveal_strlit("owner");
    reveal_strlit("admin");
    reveal_strlit("developer");
    reveal_strlit("viewer");
    lemma_match_iff_lowered(s, "owner"@);
    lemma_match_iff_lowered(s, "admin"@);
    lemma_match_iff_lowered(s, "developer"@);
    lemma_match_iff_lowered(s, "viewer"@);
    lemma_match_ascii_lowered(s, "owner"@);
    lemma_match_ascii_lowered(s, "admin"@);
    lemma_match_ascii_lowered(s, "developer"@);
    lemma_match_ascii_lowered(s, "viewer"@);
    assert("owner"@ != "admin"@) by {
        assert("owner"@[0] != "admin"@[0]);
    }
}

} // verus!
