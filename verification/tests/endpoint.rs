use bigdecimal::num_bigint::BigInt;
use ferrischat_history::codec::{decode, encode};
use ferrischat_history::decimal::RawDecimal;
use ferrischat_history::endpoint::{
    get_message_history, HistoryAction, HistoryEvent, HistoryResponse,
};
use ferrischat_history::model::HistoryRow;
use ferrischat_history::plan::{Direction, PageRequest, QueryPlan};

const A: u128 = 1_000;
const B: u128 = 2_000;
const C: u128 = 3_000;
const D: u128 = 4_000;
const CHANNEL: u128 = 77;

fn row(id: u128, channel: u128) -> HistoryRow {
    HistoryRow {
        id: encode(id),
        content: format!("message {}", id),
        channel_id: encode(channel),
        author_id: encode(5),
        edited_at: None,
        author_name: "ferris".to_string(),
        author_flags: 0,
        author_discriminator: 1,
    }
}

fn integer(raw: &RawDecimal) -> BigInt {
    assert_eq!(raw.scale, 0);
    BigInt::from_signed_bytes_be(&raw.digits)
}

/// A store that holds `table` and answers a plan as the query says: the rows
/// of the channel, ordered by identifier, after the offset, within the limit.
fn run(table: &[HistoryRow], plan: &QueryPlan) -> Vec<HistoryRow> {
    let mut rows: Vec<HistoryRow> = table
        .iter()
        .filter(|row| integer(&row.channel_id) == integer(&plan.channel))
        .cloned()
        .collect();
    rows.sort_by_key(|row| integer(&row.id));
    if plan.direction == Direction::NewestFirst {
        rows.reverse();
    }
    let rows = rows.into_iter().skip(plan.offset as usize);
    match plan.limit {
        Some(limit) => rows.take(limit as usize).collect(),
        None => rows.collect(),
    }
}

/// The endpoint from the request to the answer, over a store that holds
/// `table`. The second value says how many queries were run.
fn serve(table: &[HistoryRow], channel_id: u128, page: PageRequest) -> (HistoryResponse, usize) {
    match get_message_history(HistoryEvent::Request { channel_id, page }) {
        HistoryAction::Respond(response) => (response, 0),
        HistoryAction::Fetch(plan) => {
            match get_message_history(HistoryEvent::Rows(run(table, &plan))) {
                HistoryAction::Respond(response) => (response, 1),
                HistoryAction::Fetch(_) => panic!("rows must be answered"),
            }
        }
    }
}

fn table() -> Vec<HistoryRow> {
    vec![row(C, CHANNEL), row(A, CHANNEL), row(9_999, 78), row(D, CHANNEL), row(B, CHANNEL)]
}

fn ids(response: &HistoryResponse) -> Vec<u128> {
    match response {
        HistoryResponse::Page(history) => history.messages.iter().map(|m| m.id).collect(),
        other => panic!("not a page: {:?}", other),
    }
}

#[test]
fn oldest_first_with_limit_and_offset() {
    let page = PageRequest {
        direction: Direction::from_oldest_first(Some(true)),
        limit: Some(2),
        offset: Some(1),
    };
    let (response, queries) = serve(&table(), CHANNEL, page);
    assert_eq!(response.status(), 200);
    assert_eq!(queries, 1);
    assert_eq!(ids(&response), vec![B, C]);
}

#[test]
fn newest_first_by_default_with_limit() {
    let page = PageRequest {
        direction: Direction::from_oldest_first(None),
        limit: Some(2),
        offset: None,
    };
    let (response, _) = serve(&table(), CHANNEL, page);
    assert_eq!(response.status(), 200);
    assert_eq!(ids(&response), vec![D, C]);
}

#[test]
fn limit_of_minus_one_is_a_bad_request() {
    let page = PageRequest { direction: Direction::NewestFirst, limit: Some(-1), offset: None };
    let (response, queries) = serve(&table(), CHANNEL, page);
    assert_eq!(queries, 0);
    assert_eq!(response.status(), 400);
    match response {
        HistoryResponse::BadRequest(body) => {
            assert_eq!(body.reason, "limit must be > 0");
            assert_eq!(body.location, None);
        }
        other => panic!("not a bad request: {:?}", other),
    }
}

#[test]
fn limit_at_the_bound_returns_every_message() {
    let page = PageRequest { direction: Direction::OldestFirst, limit: Some(i64::MAX), offset: None };
    let (response, _) = serve(&table(), CHANNEL, page);
    assert_eq!(ids(&response), vec![A, B, C, D]);
}

#[test]
fn limit_at_the_bound_still_skips_the_offset() {
    let page = PageRequest { direction: Direction::OldestFirst, limit: Some(i64::MAX), offset: Some(3) };
    let (response, _) = serve(&table(), CHANNEL, page);
    assert_eq!(ids(&response), vec![D]);
}

#[test]
fn offset_out_of_range_starts_at_the_first_message() {
    for offset in [-1, i64::MIN, i64::MAX] {
        let page = PageRequest { direction: Direction::OldestFirst, limit: Some(2), offset: Some(offset) };
        let (response, _) = serve(&table(), CHANNEL, page);
        assert_eq!(ids(&response), vec![A, B]);
    }
}

#[test]
fn pages_are_ordered_by_identifier() {
    let oldest = PageRequest { direction: Direction::OldestFirst, limit: None, offset: None };
    let found = ids(&serve(&table(), CHANNEL, oldest).0);
    assert!(found.windows(2).all(|pair| pair[0] <= pair[1]));
    let newest = PageRequest { direction: Direction::NewestFirst, limit: None, offset: None };
    let found = ids(&serve(&table(), CHANNEL, newest).0);
    assert_eq!(found, vec![D, C, B, A]);
    assert!(found.windows(2).all(|pair| pair[0] >= pair[1]));
}

#[test]
fn row_with_an_author_beyond_128_bits_is_left_out_of_the_page() {
    let mut rows = table();
    let mut digits = vec![0u8; 17];
    digits[0] = 1;
    rows[0].author_id = RawDecimal { digits, scale: 0 };
    let page = PageRequest { direction: Direction::OldestFirst, limit: None, offset: None };
    let (response, _) = serve(&rows, CHANNEL, page);
    assert_eq!(response.status(), 200);
    assert_eq!(ids(&response), vec![A, B, D]);
}

#[test]
fn request_is_planned_for_its_channel() {
    let page = PageRequest { direction: Direction::OldestFirst, limit: Some(10), offset: Some(20) };
    match get_message_history(HistoryEvent::Request { channel_id: CHANNEL, page }) {
        HistoryAction::Fetch(plan) => {
            assert_eq!(decode(&plan.channel), Some(CHANNEL));
            assert_eq!(plan.direction, Direction::OldestFirst);
            assert_eq!(plan.limit, Some(10));
            assert_eq!(plan.offset, 20);
        }
        other => panic!("not a query: {:?}", other),
    }
}

#[test]
fn empty_channel_gives_an_empty_page() {
    let page = PageRequest { direction: Direction::NewestFirst, limit: None, offset: None };
    let (response, _) = serve(&table(), 12345, page);
    assert_eq!(response.status(), 200);
    assert_eq!(ids(&response), Vec::<u128>::new());
}

#[test]
fn store_failure_is_an_internal_error_with_the_words_of_the_store() {
    let event = HistoryEvent::StoreFailure("connection reset".to_string());
    match get_message_history(event) {
        HistoryAction::Respond(response) => {
            assert_eq!(response.status(), 500);
            match response {
                HistoryResponse::InternalServerError(body) => {
                    assert_eq!(body.reason, "database returned a error: connection reset");
                    assert!(body.is_bug);
                    assert_eq!(body.link, None);
                }
                other => panic!("not an internal error: {:?}", other),
            }
        }
        other => panic!("not an answer: {:?}", other),
    }
}
