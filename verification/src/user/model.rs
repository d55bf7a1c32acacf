use vstd::prelude::*;

verus! {

/// One user as handed out by lookups; the stored password hash is never part
/// of this value.
#[derive(Debug)]
pub struct User {
    pub id: i32,
    pub name: String,
    pub email: String,
    pub created_at: i64,
}

impl Clone for User {
    fn clone(&self) -> (res: Self)
        ensures
            res == *self,
    {
        User {
            id: self.id,
            name: self.name.clone(),
            email: self.email.clone(),
            created_at: self.created_at,
        }
    }
}

} // verus!
