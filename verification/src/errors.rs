use vstd::prelude::*;

verus! {

/// The failure taxonomy shared by every service operation.
///
/// `BadRequest` carries a human-readable message describing the violated
/// business rule; `Forbidden` means the caller is authenticated but not
/// authorized for the resource; `Unauthorized` means the credential itself is
/// missing or invalid; `InternalServerError` stands for a persistence or
/// otherwise unexpected failure whose cause is not leaked to the caller.
#[derive(Debug, Clone, PartialEq, Eq)]
pub enum ServiceError {
    BadRequest(String),
    Forbidden,
    Unauthorized,
    InternalServerError,
}

} // verus!
