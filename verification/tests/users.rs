use ferrischat_history::codec::decode;
use ferrischat_history::users::{
    delete_user, DeleteUserAction, DeleteUserEvent, DeleteUserResponse, DELETE_USER_SQL,
};

#[test]
fn owner_may_delete_the_account() {
    match delete_user(DeleteUserEvent::Request { user_id: 42, caller: 42 }) {
        DeleteUserAction::Delete(id) => assert_eq!(decode(&id), Some(42)),
        other => panic!("not a delete: {:?}", other),
    }
    assert_eq!(DELETE_USER_SQL, "DELETE FROM users WHERE id = $1 RETURNING (id)");
}

#[test]
fn nobody_else_may_delete_the_account() {
    let action = delete_user(DeleteUserEvent::Request { user_id: 42, caller: 43 });
    let expected = DeleteUserResponse::Forbidden { message: "this account is not yours".to_string() };
    assert_eq!(expected.status(), 403);
    assert_eq!(action, DeleteUserAction::Respond(expected));
}

#[test]
fn deleted_account_is_answered_with_no_content() {
    let action = delete_user(DeleteUserEvent::Deleted { found: true });
    assert_eq!(action, DeleteUserAction::Respond(DeleteUserResponse::NoContent));
    assert_eq!(DeleteUserResponse::NoContent.status(), 204);
}

#[test]
fn missing_account_is_not_found() {
    let action = delete_user(DeleteUserEvent::Deleted { found: false });
    let expected = DeleteUserResponse::NotFound { message: "account not found".to_string() };
    assert_eq!(expected.status(), 404);
    assert_eq!(action, DeleteUserAction::Respond(expected));
}

#[test]
fn store_failure_while_deleting_is_an_internal_error() {
    match delete_user(DeleteUserEvent::StoreFailure("pool timed out".to_string())) {
        DeleteUserAction::Respond(response) => {
            assert_eq!(response.status(), 500);
            match response {
                DeleteUserResponse::InternalServerError(body) => {
                    assert_eq!(body.reason, "database returned a error: pool timed out");
                    assert!(body.is_bug);
                    assert_eq!(body.link, None);
                }
                other => panic!("not an internal error: {:?}", other),
            }
        }
        other => panic!("not an answer: {:?}", other),
    }
}
