//! Plain data model of the directory: principals, users, groups, role
//! definitions and role assignments, with the case-insensitive check that
//! classifies an account as administrative.

use vstd::prelude::*;
use vstd::string::StrSliceExecFns;

verus! {

/// Identifier of a role-assignment target: a user, a group, a service
/// principal, or an identifier whose kind the directory did not report.
/// Two principal identifiers are equal iff they have the same kind and the
/// same underlying identifier.
#[derive(Clone, Copy, Debug, PartialEq, Eq, Structural)]
pub enum PrincipalId {
    User(u128),
    Group(u128),
    ServicePrincipal(u128),
    Unknown(u128),
}

impl PrincipalId {
    /// The raw identifier, with the kind stripped.
    pub open spec fn spec_underlying(self) -> u128 {
        match self {
            PrincipalId::User(id) => id,
            PrincipalId::Group(id) => id,
            PrincipalId::ServicePrincipal(id) => id,
            PrincipalId::Unknown(id) => id,
        }
    }

    /// The raw identifier, with the kind stripped.
    #[verifier::when_used_as_spec(spec_underlying)]
    pub fn underlying(self) -> (r: u128)
        ensures
            r == self.spec_underlying(),
    {
        match self {
            PrincipalId::User(id) => id,
            PrincipalId::Group(id) => id,
            PrincipalId::ServicePrincipal(id) => id,
            PrincipalId::Unknown(id) => id,
        }
    }
}

/// A user account from the directory.
#[derive(Debug)]
pub struct User {
    pub id: u128,
    pub user_principal_name: String,
    pub display_name: String,
}

impl Clone for User {
    fn clone(&self) -> (r: Self)
        ensures
            r == *self,
    {
        User {
            id: self.id,
            user_principal_name: self.user_principal_name.clone(),
            display_name: self.display_name.clone(),
        }
    }
}

/// A security group from the directory.
#[derive(Debug)]
pub struct Group {
    pub id: u128,
    pub display_name: String,
}

impl Clone for Group {
    fn clone(&self) -> (r: Self)
        ensures
            r == *self,
    {
        Group { id: self.id, display_name: self.display_name.clone() }
    }
}

/// A named permission template, keyed by its definition identifier.
#[derive(Debug)]
pub struct RoleDefinition {
    pub id: u128,
    pub display_name: String,
}

impl Clone for RoleDefinition {
    fn clone(&self) -> (r: Self)
        ensures
            r == *self,
    {
        RoleDefinition { id: self.id, display_name: self.display_name.clone() }
    }
}

/// A grant linking a principal to a role definition at a scope; the scope
/// is carried in its expanded (human-readable path) form.
#[derive(Debug)]
pub struct RoleAssignment {
    pub id: u128,
    pub principal_id: PrincipalId,
    pub role_definition_id: u128,
    pub scope: String,
}

impl Clone for RoleAssignment {
    fn clone(&self) -> (r: Self)
        ensures
            r == *self,
    {
        RoleAssignment {
            id: self.id,
            principal_id: self.principal_id,
            role_definition_id: self.role_definition_id,
            scope: self.scope.clone(),
        }
    }
}

/// The code of `c` with an ASCII upper-case letter folded to lower case.
pub open spec fn lower_code(c: char) -> int {
    if 'A' as int <= c as int && c as int <= 'Z' as int {
        c as int + 32
    } else {
        c as int
    }
}

/// Whether a user-principal name starts with `"admin."`, compared
/// case-insensitively over the ASCII letters.
pub open spec fn is_admin_principal_name(s: Seq<char>) -> bool {
    &&& s.len() >= 6
    &&& lower_code(s[0]) == 'a' as int
    &&& lower_code(s[1]) == 'd' as int
    &&& lower_code(s[2]) == 'm' as int
    &&& lower_code(s[3]) == 'i' as int
    &&& lower_code(s[4]) == 'n' as int
    &&& lower_code(s[5]) == '.' as int
}

fn char_lower_code(c: char) -> (r: u32)
    ensures
        r as int == lower_code(c),
{
    let u = c as u32;
    if 65 <= u && u <= 90 {
        u + 32
    } else {
        u
    }
}

/// Whether `name` starts with `"admin."` (case-insensitive). Accounts for
/// which this holds are administrative and are excluded from every index
/// and every discovery.
pub fn principal_name_is_admin(name: &str) -> (r: bool)
    ensures
        r == is_admin_principal_name(name@),
{
    let n = name.unicode_len();
    if n < 6 {
        return false;
    }
    char_lower_code(name.get_char(0)) == 'a' as u32
        && char_lower_code(name.get_char(1)) == 'd' as u32
        && char_lower_code(name.get_char(2)) == 'm' as u32
        && char_lower_code(name.get_char(3)) == 'i' as u32
        && char_lower_code(name.get_char(4)) == 'n' as u32
        && char_lower_code(name.get_char(5)) == '.' as u32
}

} // verus!
