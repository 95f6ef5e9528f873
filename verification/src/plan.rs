//! The query planner: from a page request to the bounded, ordered fetch that
//! the store is asked for.

use vstd::prelude::*;
use crate::codec::{encode, encoded};
use crate::decimal::{DecimalValue, RawDecimal};
use crate::response::BadRequest;

verus! {

/// The first bound that the store's parameters cannot hold: a limit or an
/// offset is a signed 64-bit integer below this.
pub const STORE_BOUND: i64 = 9223372036854775807;

/// The history query that returns the oldest messages first.
pub const OLDEST_FIRST_SQL: &'static str =
    "SELECT m.*, a.name AS author_name, a.flags AS author_flags, a.discriminator AS author_discriminator FROM messages m CROSS JOIN LATERAL (SELECT * FROM users WHERE id = m.author_id) as a WHERE channel_id = $1 ORDER BY id ASC LIMIT $2 OFFSET $3";

/// The history query that returns the newest messages first.
pub const NEWEST_FIRST_SQL: &'static str =
    "SELECT m.*, a.name AS author_name, a.flags AS author_flags, a.discriminator AS author_discriminator FROM messages m CROSS JOIN LATERAL (SELECT * FROM users WHERE id = m.author_id) as a WHERE channel_id = $1 ORDER BY id DESC LIMIT $2 OFFSET $3";

/// The order of a page. Identifiers grow with time, so the order by
/// identifier is the order of creation.
#[derive(Clone, Copy, Debug, PartialEq, Eq, Structural)]
pub enum Direction {
    /// Ascending by identifier.
    OldestFirst,
    /// Descending by identifier.
    NewestFirst,
}

impl Direction {
    /// The direction that a request's `oldest_first` asks for.
    pub open spec fn of_flag(oldest_first: Option<bool>) -> Direction {
        if oldest_first == Some(true) {
            Direction::OldestFirst
        } else {
            Direction::NewestFirst
        }
    }

    /// The direction that a request's `oldest_first` asks for: newest first
    /// unless the flag is there and set.
    pub fn from_oldest_first(oldest_first: Option<bool>) -> (direction: Direction)
        ensures
            direction == Direction::of_flag(oldest_first),
    {
        match oldest_first {
            Some(true) => Direction::OldestFirst,
            _ => Direction::NewestFirst,
        }
    }

    /// The text of the history query in this direction.
    pub open spec fn sql(self) -> Seq<char> {
        match self {
            Direction::OldestFirst => OLDEST_FIRST_SQL@,
            Direction::NewestFirst => NEWEST_FIRST_SQL@,
        }
    }
}

/// A request for one page of a channel's history, as the client sent it.
#[derive(Clone, Copy, Debug, PartialEq, Eq, Structural)]
pub struct PageRequest {
    pub direction: Direction,
    /// The most rows to return.
    pub limit: Option<i64>,
    /// The rows to skip.
    pub offset: Option<i64>,
}

impl PageRequest {
    /// Whether the request is turned down: it names a negative limit.
    pub open spec fn rejected(self) -> bool {
        self.limit matches Some(limit) && limit < 0
    }

    /// The limit that the store is given: none where the request names none,
    /// or one that the store cannot hold.
    pub open spec fn effective_limit(self) -> Option<i64> {
        match self.limit {
            Some(limit) if limit < STORE_BOUND => Some(limit),
            _ => None,
        }
    }

    /// The offset that the store is given: zero where the request names none,
    /// a negative one, or one that the store cannot hold.
    pub open spec fn effective_offset(self) -> i64 {
        match self.offset {
            Some(offset) if 0 <= offset < STORE_BOUND => offset,
            _ => 0,
        }
    }
}

/// The fetch that the store is asked for: the messages of one channel, joined
/// with their authors, ordered by identifier, within a limit and after an
/// offset.
#[derive(Clone, Debug, PartialEq, Eq)]
pub struct QueryPlan {
    /// The channel, as the decimal that the store compares with.
    pub channel: RawDecimal,
    pub direction: Direction,
    /// The most rows to return; `None` for all.
    pub limit: Option<i64>,
    /// The rows to skip.
    pub offset: i64,
}

/// What a [`QueryPlan`] is.
pub struct PlanView {
    pub channel: DecimalValue,
    pub direction: Direction,
    pub limit: Option<i64>,
    pub offset: i64,
}

impl View for QueryPlan {
    type V = PlanView;

    open spec fn view(&self) -> PlanView {
        PlanView {
            channel: self.channel@,
            direction: self.direction,
            limit: self.limit,
            offset: self.offset,
        }
    }
}

impl PlanView {
    /// Whether the store can hold the plan's limit and offset.
    pub open spec fn bounded(self) -> bool {
        &&& self.limit matches Some(limit) ==> 0 <= limit < STORE_BOUND
        &&& 0 <= self.offset < STORE_BOUND
    }
}

impl QueryPlan {
    /// The text of the query. Its parameters are the channel, the limit and
    /// the offset, in this order.
    pub fn sql(&self) -> (text: &'static str)
        ensures
            text@ == self.direction.sql(),
    {
        match self.direction {
            Direction::OldestFirst => OLDEST_FIRST_SQL,
            Direction::NewestFirst => NEWEST_FIRST_SQL,
        }
    }
}

/// The plan for a request that is not turned down.
pub open spec fn planned(channel_id: u128, request: PageRequest) -> PlanView {
    PlanView {
        channel: encoded(channel_id),
        direction: request.direction,
        limit: request.effective_limit(),
        offset: request.effective_offset(),
    }
}

/// Plans the fetch of one page of a channel's history.
///
/// A negative limit turns the request down before anything else is looked
/// at. A limit that the store cannot hold is dropped, and an offset that is
/// negative or that the store cannot hold becomes zero.
pub fn plan_history(channel_id: u128, request: &PageRequest) -> (outcome: Result<
    QueryPlan,
    BadRequest,
>)
    ensures
        match outcome {
            Ok(plan) => !request.rejected() && plan@ == planned(channel_id, *request)
                && plan@.bounded(),
            Err(body) => request.rejected() && body.is_negative_limit(),
        },
{
    let limit: Option<i64> = match request.limit {
        Some(limit) => {
            if limit < 0 {
                return Err(BadRequest::negative_limit());
            }
            if limit >= STORE_BOUND {
                None
            } else {
                Some(limit)
            }
        },
        None => None,
    };
    let offset: i64 = match request.offset {
        Some(offset) => {
            if offset >= STORE_BOUND || offset < 0 {
                0
            } else {
                offset
            }
        },
        None => 0,
    };
    Ok(QueryPlan { channel: encode(channel_id), direction: request.direction, limit, offset })
}

/// Every request with a negative limit is turned down.
pub proof fn lemma_negative_limit_is_rejected(request: PageRequest, limit: i64)
    requires
        request.limit == Some(limit),
        limit < 0,
    ensures
        request.rejected(),
{
}

/// A limit at or above the store's bound is no limit.
pub proof fn lemma_limit_at_bound_is_dropped(channel_id: u128, request: PageRequest, limit: i64)
    requires
        request.limit == Some(limit),
        limit >= STORE_BOUND,
    ensures
        !request.rejected(),
        planned(channel_id, request).limit is None,
{
}

/// An offset that is negative, or at or above the store's bound, is zero.
pub proof fn lemma_offset_out_of_range_is_zero(channel_id: u128, request: PageRequest, offset: i64)
    requires
        request.offset == Some(offset),
        offset < 0 || offset >= STORE_BOUND,
    ensures
        planned(channel_id, request).offset == 0,
{
}

/// Every plan stays within what the store can hold.
pub proof fn lemma_planned_is_bounded(channel_id: u128, request: PageRequest)
    requires
        !request.rejected(),
    ensures
        planned(channel_id, request).bounded(),
{
}

} // verus!
