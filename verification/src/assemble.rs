//! The result assembler: from the rows of the history query to the messages
//! that a client is shown.
//!
//! A row whose identifiers do not decode is left out and the page goes on
//! without it. The rows that remain keep the order in which the store
//! returned them.

use vstd::prelude::*;
use crate::codec::{decode, decoded};
use crate::decimal::lemma_integral_is_monotonic;
use crate::plan::Direction;
use crate::model::{
    known_flags, message_views, row_views, truncate_user_flags, Author, AuthorView, HistoryRow,
    Message, MessageView, RowView,
};

verus! {

/// The message that a row stands for: none where one of the row's three
/// identifiers is no identifier.
pub open spec fn row_message(row: RowView) -> Option<MessageView> {
    match (decoded(row.id), decoded(row.channel_id), decoded(row.author_id)) {
        (Some(id), Some(channel_id), Some(author_id)) => Some(
            MessageView {
                id,
                content: row.content,
                channel_id,
                author_id,
                author: Some(
                    AuthorView {
                        id: author_id,
                        name: row.author_name,
                        avatar: None,
                        guilds: None,
                        flags: known_flags(row.author_flags),
                        discriminator: row.author_discriminator,
                    },
                ),
                edited_at: row.edited_at,
                embeds: Seq::empty(),
                nonce: None,
            },
        ),
        _ => None,
    }
}

/// The messages that a run of rows stands for: the message of each row that
/// has one, in the order of the rows.
pub open spec fn assembled(rows: Seq<RowView>) -> Seq<MessageView> {
    rows.filter_map(|row: RowView| row_message(row))
}

/// Turns one row into its message, or into nothing where an identifier of the
/// row does not decode. The text of the row moves into the message.
pub fn assemble_row(row: HistoryRow) -> (message: Option<Message>)
    ensures
        match message {
            Some(m) => row_message(row@) == Some(m@),
            None => row_message(row@) is None,
        },
{
    let author_id: u128 = match decode(&row.author_id) {
        Some(id) => id,
        None => {
            return None;
        },
    };
    let id: u128 = match decode(&row.id) {
        Some(id) => id,
        None => {
            return None;
        },
    };
    let channel_id: u128 = match decode(&row.channel_id) {
        Some(id) => id,
        None => {
            return None;
        },
    };
    let author = Author {
        id: author_id,
        name: row.author_name,
        avatar: None,
        guilds: None,
        flags: truncate_user_flags(row.author_flags),
        discriminator: row.author_discriminator,
    };
    Some(
        Message {
            id,
            content: row.content,
            channel_id,
            author_id,
            author: Some(author),
            edited_at: row.edited_at,
            embeds: Vec::new(),
            nonce: None,
        },
    )
}

/// Assembles the rows of one query into messages, in the order of the rows.
pub fn assemble(rows: Vec<HistoryRow>) -> (messages: Vec<Message>)
    ensures
        message_views(messages@) == assembled(row_views(rows@)),
{
    let ghost all = row_views(rows@);
    let mut messages: Vec<Message> = Vec::new();
    for row in it: rows.into_iter()
        invariant
            it.seq() == rows@,
            all == row_views(rows@),
            message_views(messages@) == assembled(all.take(it.index() as int)),
    {
        proof {
            all.lemma_filter_map_take_succ(|r: RowView| row_message(r), it.index() as int);
        }
        match assemble_row(row) {
            Some(message) => {
                messages.push(message);
            },
            None => {},
        }
    }
    proof {
        assert(all.take(all.len() as int) =~= all);
    }
    messages
}

/// Whether row `first` may stand before row `second` on a page of this
/// direction: their identifiers, as the store's decimals, do not go against
/// it.
pub open spec fn row_precedes(direction: Direction, first: RowView, second: RowView) -> bool {
    match direction {
        Direction::OldestFirst => first.id.le(second.id),
        Direction::NewestFirst => second.id.le(first.id),
    }
}

/// Whether rows are in the order that a query of this direction returns.
pub open spec fn rows_in_order(rows: Seq<RowView>, direction: Direction) -> bool {
    forall|i: int, j: int|
        0 <= i < j < rows.len() ==> #[trigger] row_precedes(direction, rows[i], rows[j])
}

/// Whether message `first` may stand before message `second` on a page of
/// this direction.
pub open spec fn message_precedes(
    direction: Direction,
    first: MessageView,
    second: MessageView,
) -> bool {
    match direction {
        Direction::OldestFirst => first.id <= second.id,
        Direction::NewestFirst => first.id >= second.id,
    }
}

/// Whether messages are in the order of a page of this direction: by
/// identifier, never falling where the oldest come first and never rising
/// where the newest do.
pub open spec fn messages_in_order(messages: Seq<MessageView>, direction: Direction) -> bool {
    forall|i: int, j: int|
        0 <= i < j < messages.len() ==> #[trigger] message_precedes(
            direction,
            messages[i],
            messages[j],
        )
}

/// Pages compose: the messages of two runs of rows, one after the other, are
/// those of the first run, then those of the second.
pub proof fn lemma_assembled_concat(first: Seq<RowView>, second: Seq<RowView>)
    ensures
        assembled(first + second) == assembled(first) + assembled(second),
    decreases second.len(),
{
    if second.len() == 0 {
        assert(first + second =~= first);
    } else {
        let all = first + second;
        assert(all.drop_last() =~= first + second.drop_last());
        assert(all.last() == second.last());
        lemma_assembled_concat(first, second.drop_last());
        assert(assembled(all) =~= assembled(first) + assembled(second));
    }
}

/// No page holds more messages than the store returned rows, so a page stays
/// within the limit that the store kept to.
pub proof fn lemma_assembled_len(rows: Seq<RowView>)
    ensures
        assembled(rows).len() <= rows.len(),
    decreases rows.len(),
{
    if rows.len() > 0 {
        lemma_assembled_len(rows.drop_last());
    }
}

/// Whether each of the rows has a message: all three identifiers decode.
pub open spec fn all_decode(rows: Seq<RowView>) -> bool {
    forall|i: int| 0 <= i < rows.len() ==> (#[trigger] row_message(rows[i])) is Some
}

/// Rows that all decode give one message each, in their places.
pub proof fn lemma_assembled_of_decodable(rows: Seq<RowView>)
    requires
        all_decode(rows),
    ensures
        assembled(rows).len() == rows.len(),
        forall|i: int|
            0 <= i < rows.len() ==> row_message(rows[i]) == Some(#[trigger] assembled(rows)[i]),
    decreases rows.len(),
{
    if rows.len() > 0 {
        let rest = rows.drop_last();
        assert forall|i: int| 0 <= i < rest.len() implies (#[trigger] row_message(
            rest[i],
        )) is Some by {
            assert(rest[i] == rows[i]);
        }
        lemma_assembled_of_decodable(rest);
        assert forall|i: int| 0 <= i < rows.len() implies row_message(rows[i]) == Some(
            #[trigger] assembled(rows)[i],
        ) by {
            if i < rest.len() {
                assert(rest[i] == rows[i]);
            }
        }
    }
}

/// A row with an identifier that does not decode adds nothing to the page:
/// the page is that of the rows before it, then that of the rows after it.
pub proof fn lemma_undecodable_row_is_left_out(
    before: Seq<RowView>,
    row: RowView,
    after: Seq<RowView>,
)
    requires
        decoded(row.id) is None || decoded(row.channel_id) is None || decoded(row.author_id)
            is None,
    ensures
        assembled(before + seq![row] + after) == assembled(before) + assembled(after),
{
    assert(row_message(row) is None);
    assert(assembled(seq![row]) =~= Seq::<MessageView>::empty()) by {
        Seq::lemma_filter_map_singleton(row, |row: RowView| row_message(row));
    }
    lemma_assembled_concat(before, seq![row]);
    lemma_assembled_concat(before + seq![row], after);
    assert(assembled(before + seq![row] + after) =~= assembled(before) + assembled(after));
}

/// A row that does not decode costs the page that row and nothing else:
/// among rows that decode, it is left out, and every other row has its
/// message on the page, in the place that it has among those others.
pub proof fn lemma_decode_failure_is_isolated(
    before: Seq<RowView>,
    row: RowView,
    after: Seq<RowView>,
)
    requires
        row_message(row) is None,
        all_decode(before),
        all_decode(after),
    ensures
        assembled(before + seq![row] + after).len() == before.len() + after.len(),
        forall|i: int|
            0 <= i < before.len() ==> row_message(before[i]) == Some(
                #[trigger] assembled(before + seq![row] + after)[i],
            ),
        forall|i: int|
            0 <= i < after.len() ==> row_message(after[i]) == Some(
                #[trigger] assembled(before + seq![row] + after)[before.len() + i],
            ),
{
    lemma_undecodable_row_is_left_out(before, row, after);
    lemma_assembled_of_decodable(before);
    lemma_assembled_of_decodable(after);
}

/// Every message of a page is the message of one of the rows.
proof fn lemma_assembled_has_source(rows: Seq<RowView>, i: int) -> (k: int)
    requires
        0 <= i < assembled(rows).len(),
    ensures
        0 <= k < rows.len(),
        row_message(rows[k]) == Some(assembled(rows)[i]),
{
    let message = assembled(rows)[i];
    assert(assembled(rows).contains(message));
    rows.lemma_filter_map_contains(|row: RowView| row_message(row), message);
    let source = choose|source: RowView| #[trigger]
        rows.contains(source) && row_message(source) == Some(message);
    let k = choose|k: int| 0 <= k < rows.len() && rows[k] == source;
    k
}

/// A page keeps the order of the store: where the rows come ordered by
/// identifier in the direction of the query, so do the messages. Oldest
/// first, the identifiers never fall; newest first, they never rise.
pub proof fn lemma_assembled_keeps_order(rows: Seq<RowView>, direction: Direction)
    requires
        rows_in_order(rows, direction),
    ensures
        messages_in_order(assembled(rows), direction),
    decreases rows.len(),
{
    if rows.len() > 0 {
        let rest = rows.drop_last();
        let last = rows.last();
        assert forall|i: int, j: int| 0 <= i < j < rest.len() implies #[trigger] row_precedes(
            direction,
            rest[i],
            rest[j],
        ) by {
            assert(row_precedes(direction, rows[i], rows[j]));
        }
        lemma_assembled_keeps_order(rest, direction);
        let page = assembled(rows);
        let head = assembled(rest);
        assert forall|i: int, j: int| 0 <= i < j < page.len() implies #[trigger] message_precedes(
            direction,
            page[i],
            page[j],
        ) by {
            if j < head.len() {
                assert(message_precedes(direction, head[i], head[j]));
            } else {
                let k = lemma_assembled_has_source(rest, i);
                assert(row_precedes(direction, rows[k], rows[rows.len() - 1]));
                match direction {
                    Direction::OldestFirst => lemma_integral_is_monotonic(rest[k].id, last.id),
                    Direction::NewestFirst => lemma_integral_is_monotonic(last.id, rest[k].id),
                }
            }
        }
    }
}

} // verus!
