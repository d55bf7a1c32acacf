use vstd::prelude::*;
use vstd::string::{StrSliceExecFns, StringExecFns};

verus! {

/// The roles a user can hold.
#[derive(Debug, Clone, Copy, PartialEq, Eq, Structural)]
pub enum RoleEnum {
    ADMIN,
    STUDENT,
    TEACHER,
    MONITOR,
}

/// The database name of a role.
pub open spec fn role_name_spec(role: RoleEnum) -> Seq<char> {
    match role {
        RoleEnum::ADMIN => "ADMIN"@,
        RoleEnum::STUDENT => "STUDENT"@,
        RoleEnum::TEACHER => "TEACHER"@,
        RoleEnum::MONITOR => "MONITOR"@,
    }
}

impl RoleEnum {
    /// The database name of this role.
    pub fn role_name(&self) -> (r: String)
        ensures
            r@ == role_name_spec(*self),
    {
        match self {
            RoleEnum::ADMIN => String::from_str("ADMIN"),
            RoleEnum::STUDENT => String::from_str("STUDENT"),
            RoleEnum::TEACHER => String::from_str("TEACHER"),
            RoleEnum::MONITOR => String::from_str("MONITOR"),
        }
    }
}

/// Distinct roles carry distinct database names.
pub proof fn lemma_role_names_injective(a: RoleEnum, b: RoleEnum)
    requires
        a != b,
    ensures
        role_name_spec(a) != role_name_spec(b),
{
    reveal_strlit("ADMIN");
    reveal_strlit("STUDENT");
    reveal_strlit("TEACHER");
    reveal_strlit("MONITOR");
    assert("ADMIN"@[0] == 'A');
    assert("STUDENT"@[0] == 'S');
    assert("TEACHER"@[0] == 'T');
    assert("MONITOR"@[0] == 'M');
}

/// The assignment of one role to one user.
#[derive(Debug)]
pub struct UsersRole {
    pub user_id: i32,
    pub role_name: String,
}

impl Clone for UsersRole {
    fn clone(&self) -> (res: Self)
        ensures
            res == *self,
    {
        UsersRole { user_id: self.user_id, role_name: self.role_name.clone() }
    }
}

/// The capability gate applied before a handler runs: does the user hold any
/// of the required roles?
pub fn authorize(user_roles: &Vec<RoleEnum>, required_roles: &Vec<RoleEnum>) -> (r: bool)
    ensures
        r == exists|i: int, j: int|
            0 <= i < user_roles@.len() && 0 <= j < required_roles@.len() && user_roles@[i]
                == required_roles@[j],
{
    let n = user_roles.len();
    let m = required_roles.len();
    let mut i: usize = 0;
    while i < n
        invariant
            i <= n,
            n == user_roles@.len(),
            m == required_roles@.len(),
            forall|a: int, b: int|
                0 <= a < i && 0 <= b < m ==> user_roles@[a] != required_roles@[b],
        decreases n - i,
    {
        let mut j: usize = 0;
        while j < m
            invariant
                i < n,
                j <= m,
                n == user_roles@.len(),
                m == required_roles@.len(),
                forall|b: int| 0 <= b < j ==> user_roles@[i as int] != required_roles@[b],
            decreases m - j,
        {
            if user_roles[i] == required_roles[j] {
                return true;
            }
            j += 1;
        }
        i += 1;
    }
    false
}

} // verus!
