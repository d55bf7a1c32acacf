use vstd::prelude::*;

verus! {

/// One class. `user_id` is the owning teacher: the sole authority for the
/// exams of this class.
#[derive(Debug)]
pub struct Class {
    pub id: i32,
    pub name: String,
    pub user_id: i32,
}

impl Clone for Class {
    fn clone(&self) -> (res: Self)
        ensures
            res == *self,
    {
        Class { id: self.id, name: self.name.clone(), user_id: self.user_id }
    }
}

/// The enrollment of one student in one class.
#[derive(Debug, Clone, Copy, PartialEq, Eq, Structural)]
pub struct ClassStudent {
    pub class_id: i32,
    pub student_id: i32,
}

} // verus!
