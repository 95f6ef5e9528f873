//! The history endpoint, one decision at a time.
//!
//! The endpoint talks to the store, which this library cannot do. So the
//! caller runs the query and the library decides: what to do with a request,
//! and what to answer once the store has spoken.

use vstd::prelude::*;
use crate::assemble::{assemble, assembled};
use crate::model::{message_views, row_views, HistoryRow, Message};
use crate::plan::{plan_history, planned, PageRequest, QueryPlan};
use crate::response::{BadRequest, InternalServerError};

verus! {

/// The body of a successful answer: one field, the messages of the page.
#[derive(Clone, Debug, PartialEq, Eq)]
pub struct MessageHistory {
    pub messages: Vec<Message>,
}

/// What the history endpoint answers.
#[derive(Clone, Debug, PartialEq, Eq)]
pub enum HistoryResponse {
    /// 200: the page.
    Page(MessageHistory),
    /// 400: the request was turned down.
    BadRequest(BadRequest),
    /// 500: the store failed.
    InternalServerError(InternalServerError),
}

impl HistoryResponse {
    /// The HTTP status of an answer.
    pub open spec fn status_code(self) -> u16 {
        match self {
            HistoryResponse::Page(_) => 200,
            HistoryResponse::BadRequest(_) => 400,
            HistoryResponse::InternalServerError(_) => 500,
        }
    }

    /// The HTTP status of this answer.
    pub fn status(&self) -> (code: u16)
        ensures
            code == self.status_code(),
    {
        match self {
            HistoryResponse::Page(_) => 200,
            HistoryResponse::BadRequest(_) => 400,
            HistoryResponse::InternalServerError(_) => 500,
        }
    }
}

/// What has happened to the endpoint.
#[derive(Clone, Debug, PartialEq, Eq)]
pub enum HistoryEvent {
    /// An authenticated request for a page of `channel_id` has come in.
    Request { channel_id: u128, page: PageRequest },
    /// The store has answered the query with these rows, in this order.
    Rows(Vec<HistoryRow>),
    /// The store has failed, and said this.
    StoreFailure(String),
}

/// What the endpoint does next.
#[derive(Clone, Debug, PartialEq, Eq)]
pub enum HistoryAction {
    /// Run this query and come back with its rows or its failure.
    Fetch(QueryPlan),
    /// Answer the client.
    Respond(HistoryResponse),
}

/// Whether `action` is what the endpoint does on `event`.
///
/// A request is planned, or turned down without a word to the store. Rows
/// are assembled into the page. A failure of the store becomes the answer.
pub open spec fn history_step(event: HistoryEvent, action: HistoryAction) -> bool {
    match event {
        HistoryEvent::Request { channel_id, page } => if page.rejected() {
            action matches HistoryAction::Respond(HistoryResponse::BadRequest(body))
                && body.is_negative_limit()
        } else {
            action matches HistoryAction::Fetch(plan) && plan@ == planned(channel_id, page)
        },
        HistoryEvent::Rows(rows) => {
            action matches HistoryAction::Respond(HistoryResponse::Page(history))
                && message_views(history.messages@) == assembled(row_views(rows@))
        },
        HistoryEvent::StoreFailure(diagnostic) => {
            action matches HistoryAction::Respond(HistoryResponse::InternalServerError(body))
                && body.is_store_failure(diagnostic@)
        },
    }
}

/// GET `/api/v0/channels/{channel_id}/messages`: one step of it.
///
/// Called with the request, it says which query to run, if any; called with
/// what the store returned, it says what to answer. It changes nothing.
pub fn get_message_history(event: HistoryEvent) -> (action: HistoryAction)
    ensures
        history_step(event, action),
{
    match event {
        HistoryEvent::Request { channel_id, page } => match plan_history(channel_id, &page) {
            Ok(plan) => HistoryAction::Fetch(plan),
            Err(body) => HistoryAction::Respond(HistoryResponse::BadRequest(body)),
        },
        HistoryEvent::Rows(rows) => {
            let messages = assemble(rows);
            HistoryAction::Respond(HistoryResponse::Page(MessageHistory { messages }))
        },
        HistoryEvent::StoreFailure(diagnostic) => {
            let body = InternalServerError::store_failure(diagnostic.as_str());
            HistoryAction::Respond(HistoryResponse::InternalServerError(body))
        },
    }
}

/// A request with a negative limit is answered with a 400 and no query is
/// run for it.
pub proof fn lemma_negative_limit_never_fetches(
    channel_id: u128,
    page: PageRequest,
    limit: i64,
    action: HistoryAction,
)
    requires
        page.limit == Some(limit),
        limit < 0,
        history_step(HistoryEvent::Request { channel_id, page }, action),
    ensures
        action matches HistoryAction::Respond(response) && response.status_code() == 400,
        !(action is Fetch),
{
}

} // verus!
