//! What an administrator may do to users and to who may use a company.
use vstd::prelude::*;
use crate::text::{push_str, same_text, to_string};

verus! {

/// A user as the administration sees it.
#[derive(Debug, Clone)]
pub struct AdminUser {
    pub id: String,
    pub email: String,
    pub name: String,
    pub role: String,
    pub status: String,
    pub is_active: bool,
    pub created_at: String,
    pub updated_at: String,
}

/// A new role.
#[derive(Debug, Clone)]
pub struct ChangeRoleInput {
    pub role: String,
}

/// A user to give a role in a company.
#[derive(Debug, Clone)]
pub struct AddCompanyUserInput {
    pub user_id: String,
    pub role: String,
}

/// The system roles: admin, user and viewer.
pub open spec fn system_role(r: Seq<char>) -> bool {
    r == "admin"@ || r == "user"@ || r == "viewer"@
}

/// The roles in a company: owner, admin, member and viewer.
pub open spec fn company_role(r: Seq<char>) -> bool {
    r == "owner"@ || r == "admin"@ || r == "member"@ || r == "viewer"@
}

/// Check a change of a user's system role made by user `actor`: the role
/// must be a system role, and administrators cannot give up their own
/// administrator role.
pub fn check_role_change(actor: &str, target: &str, role: &str) -> (r: Result<(), String>)
    ensures
        !system_role(role@) ==> (r matches Err(m) && m@ == "Rollen måste vara admin, user eller viewer"@),
        system_role(role@) && actor@ == target@ && role@ != "admin"@ ==> (r matches Err(m) && m@
            == "Du kan inte ta bort din egen administratörsroll"@),
        system_role(role@) && !(actor@ == target@ && role@ != "admin"@) ==> r is Ok,
{
    if !(same_text(role, "admin") || same_text(role, "user") || same_text(role, "viewer")) {
        return Err(to_string("Rollen måste vara admin, user eller viewer"));
    }
    if same_text(actor, target) && !same_text(role, "admin") {
        return Err(to_string("Du kan inte ta bort din egen administratörsroll"));
    }
    Ok(())
}

/// Check a role given in a company.
pub fn check_company_role(role: &str) -> (r: Result<(), String>)
    ensures
        company_role(role@) ==> r is Ok,
        !company_role(role@) ==> (r matches Err(m) && m@ == "Rollen måste vara owner, admin, member eller viewer"@),
{
    if same_text(role, "owner") || same_text(role, "admin") || same_text(role, "member") || same_text(
        role,
        "viewer",
    ) {
        Ok(())
    } else {
        Err(to_string("Rollen måste vara owner, admin, member eller viewer"))
    }
}

/// Check a deactivation made by user `actor`: nobody deactivates their own account.
pub fn check_deactivation(actor: &str, target: &str) -> (r: Result<(), String>)
    ensures
        actor@ == target@ ==> (r matches Err(m) && m@ == "Du kan inte inaktivera ditt eget konto"@),
        actor@ != target@ ==> r is Ok,
{
    if same_text(actor, target) {
        Err(to_string("Du kan inte inaktivera ditt eget konto"))
    } else {
        Ok(())
    }
}

/// The audit log entry when a user is given a role in a company.
pub fn company_user_log_message(user_id: &str, role: &str) -> (s: String)
    ensures
        s@ == "user="@ + user_id@ + " role="@ + role@,
{
    let mut s = String::new();
    push_str(&mut s, "user=");
    push_str(&mut s, user_id);
    push_str(&mut s, " role=");
    push_str(&mut s, role);
    s
}

} // verus!
