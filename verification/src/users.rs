//! Deleting a user account, one decision at a time.

use vstd::prelude::*;
use vstd::string::StringExecFns;
use crate::codec::{encode, encoded};
use crate::decimal::RawDecimal;
use crate::response::InternalServerError;

verus! {

/// The statement that deletes a user. Its parameter is the user's identifier.
pub const DELETE_USER_SQL: &'static str = "DELETE FROM users WHERE id = $1 RETURNING (id)";

/// What a caller is told who asks to delete another's account.
pub const NOT_YOURS: &'static str = "this account is not yours";

/// What a caller is told whose account is not there.
pub const NOT_FOUND: &'static str = "account not found";

/// What the endpoint answers.
#[derive(Clone, Debug, PartialEq, Eq)]
pub enum DeleteUserResponse {
    /// 204: the account is gone.
    NoContent,
    /// 403: the account is not the caller's.
    Forbidden { message: String },
    /// 404: there is no such account.
    NotFound { message: String },
    /// 500: the store failed.
    InternalServerError(InternalServerError),
}

impl DeleteUserResponse {
    /// The HTTP status of an answer.
    pub open spec fn status_code(self) -> u16 {
        match self {
            DeleteUserResponse::NoContent => 204,
            DeleteUserResponse::Forbidden { .. } => 403,
            DeleteUserResponse::NotFound { .. } => 404,
            DeleteUserResponse::InternalServerError(_) => 500,
        }
    }

    /// The HTTP status of this answer.
    pub fn status(&self) -> (code: u16)
        ensures
            code == self.status_code(),
    {
        match self {
            DeleteUserResponse::NoContent => 204,
            DeleteUserResponse::Forbidden { .. } => 403,
            DeleteUserResponse::NotFound { .. } => 404,
            DeleteUserResponse::InternalServerError(_) => 500,
        }
    }
}

/// What has happened to the endpoint.
#[derive(Clone, Debug, PartialEq, Eq)]
pub enum DeleteUserEvent {
    /// `caller`, authenticated, asks to delete the account `user_id`.
    Request { user_id: u128, caller: u128 },
    /// The store has run the statement; `found` says whether it deleted a row.
    Deleted { found: bool },
    /// The store has failed, and said this.
    StoreFailure(String),
}

/// What the endpoint does next.
#[derive(Clone, Debug, PartialEq, Eq)]
pub enum DeleteUserAction {
    /// Run the delete statement on this identifier and come back.
    Delete(RawDecimal),
    /// Answer the client.
    Respond(DeleteUserResponse),
}

/// Whether `action` is what the endpoint does on `event`.
///
/// An account is deleted only at its owner's request. Whether it was there
/// decides between 204 and 404.
pub open spec fn delete_user_step(event: DeleteUserEvent, action: DeleteUserAction) -> bool {
    match event {
        DeleteUserEvent::Request { user_id, caller } => if user_id != caller {
            action matches DeleteUserAction::Respond(DeleteUserResponse::Forbidden { message })
                && message@ == NOT_YOURS@
        } else {
            action matches DeleteUserAction::Delete(id) && id@ == encoded(user_id)
        },
        DeleteUserEvent::Deleted { found } => if found {
            action == DeleteUserAction::Respond(DeleteUserResponse::NoContent)
        } else {
            action matches DeleteUserAction::Respond(DeleteUserResponse::NotFound { message })
                && message@ == NOT_FOUND@
        },
        DeleteUserEvent::StoreFailure(diagnostic) => {
            action matches DeleteUserAction::Respond(DeleteUserResponse::InternalServerError(body))
                && body.is_store_failure(diagnostic@)
        },
    }
}

/// DELETE `/api/v0/users/{user_id}`: one step of it.
///
/// Called with the request, it says whether to run the delete; called with
/// what the store returned, it says what to answer.
pub fn delete_user(event: DeleteUserEvent) -> (action: DeleteUserAction)
    ensures
        delete_user_step(event, action),
{
    match event {
        DeleteUserEvent::Request { user_id, caller } => {
            if user_id != caller {
                DeleteUserAction::Respond(
                    DeleteUserResponse::Forbidden { message: String::from_str(NOT_YOURS) },
                )
            } else {
                DeleteUserAction::Delete(encode(user_id))
            }
        },
        DeleteUserEvent::Deleted { found } => {
            if found {
                DeleteUserAction::Respond(DeleteUserResponse::NoContent)
            } else {
                DeleteUserAction::Respond(
                    DeleteUserResponse::NotFound { message: String::from_str(NOT_FOUND) },
                )
            }
        },
        DeleteUserEvent::StoreFailure(diagnostic) => {
            let body = InternalServerError::store_failure(diagnostic.as_str());
            DeleteUserAction::Respond(DeleteUserResponse::InternalServerError(body))
        },
    }
}

} // verus!
