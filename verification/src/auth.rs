//! Users, sign-in and who may do what: the claims of a session token, the
//! checks on a registration, the outcome of a sign-in, and roles.
use vstd::prelude::*;
use crate::sie::syntax::{utf8_char_len, utf8_len};
use crate::text::{has_prefix, same_text, starts_with, to_string};

verus! {

/// JWT claims embedded in the token.
#[derive(Debug, Clone)]
pub struct Claims {
    /// Subject (user ID)
    pub sub: String,
    /// Email
    pub email: String,
    /// Role
    pub role: String,
    /// Expiry (unix timestamp)
    pub exp: i64,
    /// Issued at (unix timestamp)
    pub iat: i64,
}

/// The claims of the user a request was made by.
#[derive(Debug, Clone)]
pub struct AuthUser(pub Claims);

/// Token validity duration.
pub const TOKEN_EXPIRY_HOURS: i64 = 24;

/// The claims of a token issued at `now` (unix seconds): it expires
/// `TOKEN_EXPIRY_HOURS` later.
pub fn token_claims(user_id: &str, email: &str, role: &str, now: i64) -> (c: Claims)
    requires
        now + TOKEN_EXPIRY_HOURS * 3600 <= i64::MAX,
    ensures
        c.sub@ == user_id@,
        c.email@ == email@,
        c.role@ == role@,
        c.iat == now,
        c.exp == now + TOKEN_EXPIRY_HOURS * 3600,
{
    Claims {
        sub: to_string(user_id),
        email: to_string(email),
        role: to_string(role),
        exp: now + TOKEN_EXPIRY_HOURS * 3600,
        iat: now,
    }
}

/// The token of an `Authorization` header: what follows `Bearer `.
pub fn bearer_token(header: &str) -> (r: Option<String>)
    ensures
        match r {
            Some(t) => has_prefix(header@, "Bearer "@) && t@ == header@.subrange(7, header@.len() as int),
            None => !has_prefix(header@, "Bearer "@),
        },
{
    proof {
        reveal_strlit("Bearer ");
    }
    if starts_with(header, "Bearer ") {
        let cs = crate::text::chars_of(header);
        Some(crate::text::string_of(&cs, 7, cs.len()))
    } else {
        None
    }
}

/// What refuses a registration, in the order of the checks: an email that
/// is empty or lacks `@`, a password shorter than 8 bytes, an empty name.
pub open spec fn registration_error(email: Seq<char>, password: Seq<char>, name: Seq<char>) -> Option<Seq<char>> {
    if email.len() == 0 || !email.contains('@') {
        Some("Invalid email address"@)
    } else if utf8_len(password) < 8 {
        Some("Password must be at least 8 characters"@)
    } else if name.len() == 0 {
        Some("Name is required"@)
    } else {
        None
    }
}

fn contains_char(s: &str, c: char) -> (b: bool)
    ensures
        b == s@.contains(c),
{
    let cs = crate::text::chars_of(s);
    let mut i: usize = 0;
    while i < cs.len()
        invariant
            i <= cs@.len(),
            cs@ == s@,
            forall|j: int| 0 <= j < i ==> cs@[j] != c,
        decreases cs.len() - i,
    {
        if cs[i] == c {
            assert(s@[i as int] == c);
            return true;
        }
        i += 1;
    }
    false
}

/// The number of bytes of the UTF-8 encoding of `s` (`str::len`).
fn byte_len(s: &str) -> (n: u128)
    ensures
        n == utf8_len(s@),
{
    let cs = crate::text::chars_of(s);
    let mut n: u128 = 0;
    let mut i: usize = 0;
    while i < cs.len()
        invariant
            i <= cs@.len(),
            cs@ == s@,
            n == utf8_len(cs@.take(i as int)),
            n <= 4 * i,
        decreases cs.len() - i,
    {
        let c = cs[i];
        let u = c as u32;
        let k: u128 = if u < 0x80 {
            1
        } else if u < 0x800 {
            2
        } else if u < 0x10000 {
            3
        } else {
            4
        };
        assert(cs@.take(i + 1).drop_last() =~= cs@.take(i as int));
        assert(k == utf8_char_len(c));
        n = n + k;
        i += 1;
    }
    assert(cs@.take(cs@.len() as int) =~= cs@);
    n
}

/// Check a registration's email, password and name.
pub fn check_registration(email: &str, password: &str, name: &str) -> (r: Option<String>)
    ensures
        match r {
            Some(m) => registration_error(email@, password@, name@) == Some(m@),
            None => registration_error(email@, password@, name@) is None,
        },
{
    if email.is_empty() || !contains_char(email, '@') {
        return Some(to_string("Invalid email address"));
    }
    if byte_len(password) < 8 {
        return Some(to_string("Password must be at least 8 characters"));
    }
    if name.is_empty() {
        return Some(to_string("Name is required"));
    }
    None
}

/// What a new user becomes: the first user of the system an approved
/// administrator (owner of the company in fixed mode), anyone later a user
/// pending approval (member of the company in fixed mode).
pub struct NewUserRoles {
    pub role: &'static str,
    pub status: &'static str,
    pub company_role: &'static str,
}

/// The roles of a new user, given how many users there were before.
pub fn new_user_roles(user_count: i32) -> (r: NewUserRoles)
    ensures
        user_count == 0 ==> r.role@ == "admin"@ && r.status@ == "approved"@ && r.company_role@ == "owner"@,
        user_count != 0 ==> r.role@ == "user"@ && r.status@ == "pending"@ && r.company_role@ == "member"@,
{
    if user_count == 0 {
        NewUserRoles { role: "admin", status: "approved", company_role: "owner" }
    } else {
        NewUserRoles { role: "user", status: "pending", company_role: "member" }
    }
}

/// How a sign-in with the right password ends.
#[derive(Debug, Clone, Copy, PartialEq, Eq, Structural)]
pub enum LoginOutcome {
    /// The account is deactivated.
    Inactive,
    /// The registration awaits approval.
    Pending,
    /// The registration was refused.
    Rejected,
    /// The user may sign in.
    Approved,
    /// The account has a status that no rule knows.
    UnknownStatus,
}

/// The outcome of a sign-in: an inactive account is refused first, then the
/// status decides.
pub open spec fn login_outcome_of(is_active: bool, status: Seq<char>) -> LoginOutcome {
    if !is_active {
        LoginOutcome::Inactive
    } else if status == "pending"@ {
        LoginOutcome::Pending
    } else if status == "rejected"@ {
        LoginOutcome::Rejected
    } else if status == "approved"@ {
        LoginOutcome::Approved
    } else {
        LoginOutcome::UnknownStatus
    }
}

/// Decide a sign-in whose password was right.
pub fn login_outcome(is_active: bool, status: &str) -> (r: LoginOutcome)
    ensures
        r == login_outcome_of(is_active, status@),
{
    if !is_active {
        LoginOutcome::Inactive
    } else if same_text(status, "pending") {
        LoginOutcome::Pending
    } else if same_text(status, "rejected") {
        LoginOutcome::Rejected
    } else if same_text(status, "approved") {
        LoginOutcome::Approved
    } else {
        LoginOutcome::UnknownStatus
    }
}

/// The rank of a role in a company: owner > admin > member > viewer; any
/// other role ranks below them all.
pub open spec fn role_rank(role: Seq<char>) -> i32 {
    if role == "owner"@ {
        4
    } else if role == "admin"@ {
        3
    } else if role == "member"@ {
        2
    } else if role == "viewer"@ {
        1
    } else {
        0
    }
}

/// Role hierarchy for company access: owner > admin > member > viewer
pub fn role_level(role: &str) -> (r: i32)
    ensures
        r == role_rank(role@),
{
    if same_text(role, "owner") {
        4
    } else if same_text(role, "admin") {
        3
    } else if same_text(role, "member") {
        2
    } else if same_text(role, "viewer") {
        1
    } else {
        0
    }
}

/// The access a user has to a company, from the user's system role and role
/// in the company: a system administrator always has access (as "admin");
/// otherwise the company role must rank at least as high as `min_role`.
/// The error is the text that refuses.
pub open spec fn company_access_of(system_role: Option<Seq<char>>, company_role: Option<Seq<char>>, min_role: Seq<char>) -> Result<
    Seq<char>,
    Seq<char>,
> {
    if system_role == Some("admin"@) {
        Ok("admin"@)
    } else {
        match company_role {
            Some(r) => if role_rank(r) >= role_rank(min_role) {
                Ok(r)
            } else {
                Err("Otillräcklig behörighet för detta företag"@)
            },
            None => Err("Ingen åtkomst till detta företag"@),
        }
    }
}

/// Decide a user's access to a company.
pub fn company_access(system_role: Option<&str>, company_role: Option<&str>, min_role: &str) -> (r: Result<
    String,
    String,
>)
    ensures
        match r {
            Ok(x) => company_access_of(
                match system_role {
                    Some(s) => Some(s@),
                    None => None,
                },
                match company_role {
                    Some(s) => Some(s@),
                    None => None,
                },
                min_role@,
            ) == Ok::<Seq<char>, Seq<char>>(x@),
            Err(x) => company_access_of(
                match system_role {
                    Some(s) => Some(s@),
                    None => None,
                },
                match company_role {
                    Some(s) => Some(s@),
                    None => None,
                },
                min_role@,
            ) == Err::<Seq<char>, Seq<char>>(x@),
        },
{
    if let Some(s) = system_role {
        if same_text(s, "admin") {
            return Ok(to_string("admin"));
        }
    }
    match company_role {
        Some(role) => if role_level(role) >= role_level(min_role) {
            Ok(to_string(role))
        } else {
            Err(to_string("Otillräcklig behörighet för detta företag"))
        },
        None => Err(to_string("Ingen åtkomst till detta företag")),
    }
}

/// Access is monotone in the role asked for: a user who has access to a
/// company at some level has it at every level that ranks no higher.
pub proof fn lemma_access_monotone(
    system_role: Option<Seq<char>>,
    company_role: Option<Seq<char>>,
    min_role: Seq<char>,
    lower: Seq<char>,
)
    requires
        company_access_of(system_role, company_role, min_role) is Ok,
        role_rank(lower) <= role_rank(min_role),
    ensures
        company_access_of(system_role, company_role, lower) is Ok,
{
}

/// Only a system administrator passes; the error is the text that refuses.
pub fn require_admin(auth: &AuthUser) -> (r: Result<(), String>)
    ensures
        r is Ok <==> auth.0.role@ == "admin"@,
        r matches Err(m) ==> m@ == "Administratörsbehörighet krävs"@,
{
    if !same_text(auth.0.role.as_str(), "admin") {
        return Err(to_string("Administratörsbehörighet krävs"));
    }
    Ok(())
}

/// What `bcrypt::verify` gives for a password and a stored hash: whether
/// they match, or the text of the error where the hash cannot be read.
pub uninterp spec fn bcrypt_verify_result(password: Seq<char>, hash: Seq<char>) -> Result<bool, Seq<char>>;

/// Hashes a password with `bcrypt::hash` at `bcrypt::DEFAULT_COST`, with a
/// random salt.
///
/// Trusted: a hash that comes back verifies with the same password (the
/// hash records its cost and salt, and `verify` recomputes it with them).
/// What the hash looks like, and the text of an error (the system's random
/// source failing), are not stated.
#[verifier::external_body]
fn bcrypt_hash(password: &str) -> (r: Result<String, String>)
    ensures
        r matches Ok(h) ==> (bcrypt_verify_result(password@, h@) matches Ok(b) && b),
{
    bcrypt::hash(password, bcrypt::DEFAULT_COST).map_err(|e| e.to_string())
}

/// Checks a password against a stored hash with `bcrypt::verify`.
///
/// Trusted: the result, or the text of the error, is the named result of
/// the password and the hash.
#[verifier::external_body]
fn bcrypt_verify(password: &str, hash: &str) -> (r: Result<bool, String>)
    ensures
        match r {
            Ok(b) => bcrypt_verify_result(password@, hash@) matches Ok(c) && c == b,
            Err(t) => bcrypt_verify_result(password@, hash@) matches Err(u) && u == t@,
        },
{
    bcrypt::verify(password, hash).map_err(|e| e.to_string())
}

/// Hashes a new user's password. A hash that comes back verifies with the
/// same password; a failure is reported as "Password hashing failed: ...".
pub fn hash_password(password: &str) -> (r: Result<String, String>)
    ensures
        r matches Ok(h) ==> (bcrypt_verify_result(password@, h@) matches Ok(b) && b),
        r matches Err(m) ==> has_prefix(m@, "Password hashing failed: "@),
{
    match bcrypt_hash(password) {
        Ok(h) => Ok(h),
        Err(e) => {
            let mut m = to_string("Password hashing failed: ");
            crate::text::push_str(&mut m, e.as_str());
            proof {
                reveal_strlit("Password hashing failed: ");
                assert(m@.subrange(0, 25) =~= "Password hashing failed: "@);
            }
            Err(m)
        },
    }
}

/// Why a sign-in is refused before the account is looked at.
#[derive(Debug, Clone)]
pub enum SignInError {
    /// The password does not match: "Felaktig e-post eller lösenord".
    WrongPassword,
    /// The stored hash could not be checked; the message says why.
    CheckFailed(String),
}

/// Checks a sign-in: the password against the stored hash, then the
/// account's state (`login_outcome_of`).
pub fn sign_in(password: &str, stored_hash: &str, is_active: bool, status: &str) -> (r: Result<
    LoginOutcome,
    SignInError,
>)
    ensures
        match bcrypt_verify_result(password@, stored_hash@) {
            Err(t) => r matches Err(SignInError::CheckFailed(m)) && m@ == "Password verification failed: "@ + t,
            Ok(false) => r matches Err(SignInError::WrongPassword),
            Ok(true) => r matches Ok(o) && o == login_outcome_of(is_active, status@),
        },
{
    match bcrypt_verify(password, stored_hash) {
        Err(e) => {
            let mut m = to_string("Password verification failed: ");
            crate::text::push_str(&mut m, e.as_str());
            Err(SignInError::CheckFailed(m))
        },
        Ok(false) => Err(SignInError::WrongPassword),
        Ok(true) => Ok(login_outcome(is_active, status)),
    }
}

} // verus!
