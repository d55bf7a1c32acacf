use vstd::prelude::*;
use vstd::string::StringExecFns;

use crate::auth::crypto::{bcrypt_hash, encrypt_password, is_ascii_alphanumeric_byte};
use crate::clock::current_timestamp;
use crate::errors::ServiceError;
use crate::role::model::{role_name_spec, RoleEnum};
use crate::store::Store;
use crate::user::dto::{CreateUserInputDto, CreateUserOutputDto};
use crate::user::repository;
use crate::user::repository::unchanged_except_users;

verus! {

/// Everything `create_user` does at time `now`: the email must be free;
/// then one user row is inserted whose stored password is the bcrypt hash
/// of the given one under some fresh 16-byte alphanumeric salt, one
/// role-assignment row grants the student role, and the new user comes back
/// without the hash.
pub open spec fn create_user_post(
    pre: Store,
    post: Store,
    now: i64,
    user: CreateUserInputDto,
    r: Result<CreateUserOutputDto, ServiceError>,
) -> bool {
    match r {
        Ok(out) => {
            &&& !pre.has_user_email(user.email@)
            &&& pre.next_user_id < i32::MAX
            &&& out.id == pre.next_user_id
            &&& out.name@ == user.name@
            &&& out.email@ == user.email@
            &&& post.users@.len() == pre.users@.len() + 1
            &&& (forall|i: int| 0 <= i < pre.users@.len() ==> post.users@[i] == pre.users@[i])
            &&& post.users@.last().id == pre.next_user_id
            &&& post.users@.last().name@ == user.name@
            &&& post.users@.last().email@ == user.email@
            &&& post.users@.last().created_at == now
            &&& post.users@.last().password@.len() == 60
            &&& (exists|salt: Seq<u8>|
                salt.len() == 16 && (forall|i: int|
                    0 <= i < 16 ==> is_ascii_alphanumeric_byte(salt[i]))
                    && post.users@.last().password@ == bcrypt_hash(user.password@, 4, salt))
            &&& post.next_user_id == pre.next_user_id + 1
            &&& post.users_roles@.len() == pre.users_roles@.len() + 1
            &&& (forall|t: int|
                0 <= t < pre.users_roles@.len() ==> post.users_roles@[t] == pre.users_roles@[t])
            &&& post.users_roles@.last().user_id == pre.next_user_id
            &&& post.users_roles@.last().role_name@ == role_name_spec(RoleEnum::STUDENT)
            &&& unchanged_except_users(pre, post)
        },
        Err(e) => {
            &&& post == pre
            &&& if pre.has_user_email(user.email@) {
                e matches ServiceError::BadRequest(m) && m@ == "Email already exists"@
            } else {
                pre.next_user_id == i32::MAX && e == ServiceError::InternalServerError
            }
        },
    }
}

/// Register a user with the student role, taking the current time as an
/// argument.
pub fn create_user_at(store: &mut Store, now: i64, user: CreateUserInputDto) -> (r: Result<
    CreateUserOutputDto,
    ServiceError,
>)
    requires
        old(store).wf(),
    ensures
        final(store).wf(),
        create_user_post(*old(store), *final(store), now, user, r),
{
    let existing = match repository::get_user_by_email(store, &user.email) {
        Ok(o) => o,
        Err(e) => {
            return Err(e);
        },
    };
    match existing {
        Some(_) => {
            return Err(ServiceError::BadRequest(String::from_str("Email already exists")));
        },
        None => {},
    }
    let hashed_password = match encrypt_password(user.password.as_str()) {
        Ok(h) => h,
        Err(e) => {
            return Err(e);
        },
    };
    let mut roles: Vec<RoleEnum> = Vec::new();
    roles.push(RoleEnum::STUDENT);
    let created = match repository::create_user(
        store,
        now,
        CreateUserInputDto { name: user.name, email: user.email, password: hashed_password },
        roles,
    ) {
        Ok(u) => u,
        Err(e) => {
            return Err(e);
        },
    };
    Ok(CreateUserOutputDto { id: created.id, name: created.name, email: created.email })
}

/// Register a user with the student role as of the current clock time.
pub fn create_user(store: &mut Store, user: CreateUserInputDto) -> (r: Result<
    CreateUserOutputDto,
    ServiceError,
>)
    requires
        old(store).wf(),
    ensures
        final(store).wf(),
        exists|now: i64| create_user_post(*old(store), *final(store), now, user, r),
{
    let now = current_timestamp();
    create_user_at(store, now, user)
}

} // verus!
