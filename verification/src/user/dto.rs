use vstd::prelude::*;
use vstd::string::{StrSliceExecFns, StringExecFns};

verus! {

/// Input for registering a user.
#[derive(Debug)]
pub struct CreateUserInputDto {
    pub name: String,
    pub email: String,
    pub password: String,
}

impl CreateUserInputDto {
    /// Shape validation applied before the service runs: name and email must
    /// be non-empty.
    pub fn validate(&self) -> (r: Result<(), String>)
        ensures
            r matches Ok(_) <==> (self.name@.len() > 0 && self.email@.len() > 0),
            r matches Err(m) ==> (if self.name@.len() == 0 {
                m@ == "Name is required"@
            } else {
                m@ == "Email is required"@
            }),
    {
        if self.name.as_str().unicode_len() == 0 {
            return Err(String::from_str("Name is required"));
        }
        if self.email.as_str().unicode_len() == 0 {
            return Err(String::from_str("Email is required"));
        }
        Ok(())
    }
}

/// What registration returns: the stored user without the password hash.
#[derive(Debug)]
pub struct CreateUserOutputDto {
    pub id: i32,
    pub name: String,
    pub email: String,
}

} // verus!
