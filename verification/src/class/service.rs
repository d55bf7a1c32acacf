use vstd::prelude::*;
use vstd::string::StringExecFns;

use crate::class::models::{Class, ClassStudent};
use crate::errors::ServiceError;
use crate::store::Store;

verus! {

/// Everything but the class table and its counter is unchanged.
pub open spec fn unchanged_except_classes(pre: Store, post: Store) -> bool {
    &&& post.users == pre.users
    &&& post.users_roles == pre.users_roles
    &&& post.classes_students == pre.classes_students
    &&& post.questions == pre.questions
    &&& post.answers == pre.answers
    &&& post.exams == pre.exams
    &&& post.exam_questions == pre.exam_questions
    &&& post.student_answers == pre.student_answers
    &&& post.next_user_id == pre.next_user_id
    &&& post.next_question_id == pre.next_question_id
    &&& post.next_answer_id == pre.next_answer_id
    &&& post.next_exam_id == pre.next_exam_id
    &&& post.next_student_answer_id == pre.next_student_answer_id
}

/// Everything but the enrollment table is unchanged.
pub open spec fn unchanged_except_enrollments(pre: Store, post: Store) -> bool {
    &&& post.users == pre.users
    &&& post.users_roles == pre.users_roles
    &&& post.classes == pre.classes
    &&& post.questions == pre.questions
    &&& post.answers == pre.answers
    &&& post.exams == pre.exams
    &&& post.exam_questions == pre.exam_questions
    &&& post.student_answers == pre.student_answers
    &&& post.next_user_id == pre.next_user_id
    &&& post.next_class_id == pre.next_class_id
    &&& post.next_question_id == pre.next_question_id
    &&& post.next_answer_id == pre.next_answer_id
    &&& post.next_exam_id == pre.next_exam_id
    &&& post.next_student_answer_id == pre.next_student_answer_id
}

/// Create a class owned by this teacher.
pub fn create_class(store: &mut Store, name: String, user_id: i32) -> (r: Result<
    Class,
    ServiceError,
>)
    requires
        old(store).wf(),
    ensures
        final(store).wf(),
        match r {
            Ok(c) => {
                &&& old(store).next_class_id < i32::MAX
                &&& c == (Class { id: old(store).next_class_id, name: name, user_id: user_id })
                &&& final(store).classes@ == old(store).classes@.push(c)
                &&& final(store).next_class_id == old(store).next_class_id + 1
                &&& unchanged_except_classes(*old(store), *final(store))
            },
            Err(e) => {
                &&& e == ServiceError::InternalServerError
                &&& old(store).next_class_id == i32::MAX
                &&& *final(store) == *old(store)
            },
        },
{
    if store.next_class_id == i32::MAX {
        // The id space of the serial column is exhausted: the insert fails.
        return Err(ServiceError::InternalServerError);
    }
    let class = Class { id: store.next_class_id, name, user_id };
    let result = class.clone();
    store.classes.push(class);
    store.next_class_id = store.next_class_id + 1;
    Ok(result)
}

/// Enroll a student in a class; enrolling twice changes nothing.
pub fn enroll_student(store: &mut Store, class_id: i32, student_id: i32) -> (r: Result<
    (),
    ServiceError,
>)
    requires
        old(store).wf(),
    ensures
        final(store).wf(),
        match r {
            Ok(_) => {
                &&& old(store).has_class(class_id)
                &&& final(store).classes_students@ == (if old(store).is_enrolled(
                    class_id,
                    student_id,
                ) {
                    old(store).classes_students@
                } else {
                    old(store).classes_students@.push(
                        ClassStudent { class_id: class_id, student_id: student_id },
                    )
                })
                &&& final(store).is_enrolled(class_id, student_id)
                &&& unchanged_except_enrollments(*old(store), *final(store))
            },
            Err(e) => {
                &&& !old(store).has_class(class_id)
                &&& e matches ServiceError::BadRequest(m) && m@ == "Class not found"@
                &&& *final(store) == *old(store)
            },
        },
{
    match store.find_class(class_id) {
        Some(_) => {},
        None => {
            return Err(ServiceError::BadRequest(String::from_str("Class not found")));
        },
    }
    if store.check_enrolled(class_id, student_id) {
        return Ok(());
    }
    store.classes_students.push(ClassStudent { class_id, student_id });
    proof {
        let rows = store.classes_students@;
        assert(rows[rows.len() - 1].class_id == class_id && rows[rows.len() - 1].student_id
            == student_id);
    }
    Ok(())
}

/// Is this user the teacher of this class? A missing class has no teacher.
pub open spec fn is_class_teacher_spec(s: Store, user_id: i32, class_id: i32) -> bool {
    s.has_class(class_id) && s.class(class_id).user_id == user_id
}

/// Decide whether this user owns this class as its teacher.
pub fn is_class_teacher(store: &Store, user_id: i32, class_id: i32) -> (r: Result<
    bool,
    ServiceError,
>)
    requires
        store.wf(),
    ensures
        r == Result::<bool, ServiceError>::Ok(is_class_teacher_spec(*store, user_id, class_id)),
{
    match store.find_class(class_id) {
        Some(i) => Ok(store.classes[i].user_id == user_id),
        None => Ok(false),
    }
}

/// Decide whether this student is enrolled in this class.
pub fn is_student_enrolled(store: &Store, class_id: i32, student_id: i32) -> (r: Result<
    bool,
    ServiceError,
>)
    ensures
        r == Result::<bool, ServiceError>::Ok(store.is_enrolled(class_id, student_id)),
{
    Ok(store.check_enrolled(class_id, student_id))
}

/// Look up a class by id.
pub fn get_class_by_id(store: &Store, class_id: i32) -> (r: Result<Option<Class>, ServiceError>)
    requires
        store.wf(),
    ensures
        match r {
            Ok(Some(c)) => store.has_class(class_id) && c == store.class(class_id),
            Ok(None) => !store.has_class(class_id),
            Err(_) => false,
        },
{
    match store.find_class(class_id) {
        Some(i) => Ok(Some(store.classes[i].clone())),
        None => Ok(None),
    }
}

} // verus!
