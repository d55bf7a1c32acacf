use vstd::prelude::*;

use crate::errors::ServiceError;
use crate::role::model::{role_name_spec, RoleEnum, UsersRole};
use crate::store::{Store, UserRow};
use crate::user::dto::CreateUserInputDto;
use crate::user::model::User;

verus! {

/// No role occurs twice.
pub open spec fn distinct_roles(roles: Seq<RoleEnum>) -> bool {
    forall|i: int, j: int| 0 <= i < j < roles.len() ==> roles[i] != roles[j]
}

/// Everything but the user and role-assignment tables is unchanged.
pub open spec fn unchanged_except_users(pre: Store, post: Store) -> bool {
    &&& post.classes == pre.classes
    &&& post.classes_students == pre.classes_students
    &&& post.questions == pre.questions
    &&& post.answers == pre.answers
    &&& post.exams == pre.exams
    &&& post.exam_questions == pre.exam_questions
    &&& post.student_answers == pre.student_answers
    &&& post.next_class_id == pre.next_class_id
    &&& post.next_question_id == pre.next_question_id
    &&& post.next_answer_id == pre.next_answer_id
    &&& post.next_exam_id == pre.next_exam_id
    &&& post.next_student_answer_id == pre.next_student_answer_id
}

/// Insert one user row together with one role-assignment row per given
/// role, in one transaction: a duplicate email, a duplicate role or an
/// exhausted id space violates a constraint, and then nothing is written.
/// The password arrives already hashed.
#[verifier::loop_isolation(false)]
pub fn create_user(store: &mut Store, now: i64, user: CreateUserInputDto, roles: Vec<RoleEnum>) -> (r:
    Result<User, ServiceError>)
    requires
        old(store).wf(),
    ensures
        final(store).wf(),
        match r {
            Ok(u) => {
                &&& !old(store).has_user_email(user.email@)
                &&& distinct_roles(roles@)
                &&& old(store).next_user_id < i32::MAX
                &&& u == (User {
                    id: old(store).next_user_id,
                    name: user.name,
                    email: user.email,
                    created_at: now,
                })
                &&& final(store).users@ == old(store).users@.push(
                    UserRow {
                        id: old(store).next_user_id,
                        name: user.name,
                        email: user.email,
                        password: user.password,
                        created_at: now,
                    },
                )
                &&& final(store).next_user_id == old(store).next_user_id + 1
                &&& final(store).users_roles@.len() == old(store).users_roles@.len() + roles@.len()
                &&& (forall|t: int|
                    0 <= t < old(store).users_roles@.len() ==> final(store).users_roles@[t] == old(
                        store,
                    ).users_roles@[t])
                &&& (forall|t: int|
                    old(store).users_roles@.len() <= t < final(store).users_roles@.len() ==> ((
                    #[trigger] final(store).users_roles@[t]).user_id == old(store).next_user_id
                        && final(store).users_roles@[t].role_name@ == role_name_spec(
                        roles@[t - old(store).users_roles@.len()],
                    )))
                &&& unchanged_except_users(*old(store), *final(store))
            },
            Err(e) => {
                &&& e == ServiceError::InternalServerError
                &&& *final(store) == *old(store)
                &&& (old(store).has_user_email(user.email@) || !distinct_roles(roles@) || old(
                    store,
                ).next_user_id == i32::MAX)
            },
        },
{
    match store.find_user_by_email(&user.email) {
        Some(_) => {
            // The unique constraint on the email column fails the insert.
            return Err(ServiceError::InternalServerError);
        },
        None => {},
    }
    let n = roles.len();
    let mut i: usize = 0;
    while i < n
        invariant
            i <= n,
            n == roles@.len(),
            forall|a: int, b: int| 0 <= a < b < n && a < i ==> roles@[a] != roles@[b],
        decreases n - i,
    {
        let mut j: usize = i + 1;
        while j < n
            invariant
                i < n,
                i + 1 <= j <= n,
                n == roles@.len(),
                forall|b: int| i < b < j ==> roles@[i as int] != roles@[b],
            decreases n - j,
        {
            if roles[i] == roles[j] {
                proof {
                    assert(!distinct_roles(roles@)) by {
                        assert(roles@[i as int] == roles@[j as int]);
                    }
                }
                // The primary key of the role-assignment table fails the
                // insert; the transaction rolls back.
                return Err(ServiceError::InternalServerError);
            }
            j += 1;
        }
        i += 1;
    }
    if store.next_user_id == i32::MAX {
        // The id space of the serial column is exhausted: the insert fails.
        return Err(ServiceError::InternalServerError);
    }
    let uid = store.next_user_id;
    let result = User {
        id: uid,
        name: user.name.clone(),
        email: user.email.clone(),
        created_at: now,
    };
    store.users.push(
        UserRow {
            id: uid,
            name: user.name,
            email: user.email,
            password: user.password,
            created_at: now,
        },
    );
    store.next_user_id = uid + 1;
    let ghost base = store.users_roles@;
    let ghost mid = *store;
    let mut k: usize = 0;
    while k < n
        invariant
            k <= n,
            n == roles@.len(),
            store.users == mid.users,
            store.next_user_id == mid.next_user_id,
            unchanged_except_users(mid, *store),
            store.users_roles@.len() == base.len() + k,
            forall|t: int| 0 <= t < base.len() ==> store.users_roles@[t] == base[t],
            forall|t: int|
                base.len() <= t < store.users_roles@.len() ==> ((#[trigger] store.users_roles@[
                    t
                ]).user_id == uid && store.users_roles@[t].role_name@ == role_name_spec(
                    roles@[t - base.len()],
                )),
        decreases n - k,
    {
        let role = roles[k];
        store.users_roles.push(UsersRole { user_id: uid, role_name: role.role_name() });
        k += 1;
    }
    Ok(result)
}

/// Look up a user by email; the password hash is not handed out.
pub fn get_user_by_email(store: &Store, email: &String) -> (r: Result<Option<User>, ServiceError>)
    requires
        store.wf(),
    ensures
        match r {
            Ok(Some(u)) => {
                &&& store.has_user_email(email@)
                &&& u == (User {
                    id: store.users@[store.user_email_index(email@)].id,
                    name: store.users@[store.user_email_index(email@)].name,
                    email: store.users@[store.user_email_index(email@)].email,
                    created_at: store.users@[store.user_email_index(email@)].created_at,
                })
            },
            Ok(None) => !store.has_user_email(email@),
            Err(_) => false,
        },
{
    match store.find_user_by_email(email) {
        Some(i) => Ok(
            Some(
                User {
                    id: store.users[i].id,
                    name: store.users[i].name.clone(),
                    email: store.users[i].email.clone(),
                    created_at: store.users[i].created_at,
                },
            ),
        ),
        None => Ok(None),
    }
}

} // verus!
