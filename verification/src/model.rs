//! The data of message history: what the store returns and what a client is
//! shown.

use vstd::prelude::*;
use ferrischat_common::types::UserFlags;
use crate::decimal::{DecimalValue, RawDecimal};

verus! {

/// A point in time without a zone: seconds since the Unix epoch and the
/// nanosecond within that second. History carries edit times through
/// unchanged and never reads them.
#[derive(Clone, Copy, Debug, PartialEq, Eq, Structural)]
pub struct Timestamp {
    pub seconds: i64,
    pub nanoseconds: u32,
}

/// Who an embed names as its author.
#[derive(Clone, Debug, PartialEq, Eq)]
pub struct EmbedAuthor {
    pub name: String,
    pub icon_url: Option<String>,
}

/// The line below an embed.
#[derive(Clone, Debug, PartialEq, Eq)]
pub struct EmbedFooter {
    pub text: String,
    pub icon_url: Option<String>,
}

/// One titled entry of an embed.
#[derive(Clone, Debug, PartialEq, Eq)]
pub struct EmbedField {
    pub name: String,
    pub value: String,
    pub inline: bool,
}

/// Rich content attached to a message. History never attaches any.
#[derive(Clone, Debug, PartialEq, Eq)]
pub struct Embed {
    pub kind: String,
    pub title: Option<String>,
    pub description: Option<String>,
    pub url: Option<String>,
    pub timestamp: Option<Timestamp>,
    pub author: Option<EmbedAuthor>,
    pub footer: Option<EmbedFooter>,
    pub fields: Vec<EmbedField>,
}

/// The author of a message as the message carries it.
///
/// `avatar` and `guilds` are `None` where they were not fetched, which is not
/// the same as an author without avatar or guilds.
#[derive(Clone, Debug, PartialEq, Eq)]
pub struct Author {
    pub id: u128,
    pub name: String,
    pub avatar: Option<String>,
    pub guilds: Option<Vec<u128>>,
    pub flags: i64,
    pub discriminator: i16,
}

/// What an [`Author`] is, with its text as sequences of characters.
pub struct AuthorView {
    pub id: u128,
    pub name: Seq<char>,
    pub avatar: Option<Seq<char>>,
    pub guilds: Option<Seq<u128>>,
    pub flags: i64,
    pub discriminator: i16,
}

impl View for Author {
    type V = AuthorView;

    open spec fn view(&self) -> AuthorView {
        AuthorView {
            id: self.id,
            name: self.name@,
            avatar: match self.avatar {
                Some(url) => Some(url@),
                None => None,
            },
            guilds: match self.guilds {
                Some(ids) => Some(ids@),
                None => None,
            },
            flags: self.flags,
            discriminator: self.discriminator,
        }
    }
}

/// A message as a client is shown it.
#[derive(Clone, Debug, PartialEq, Eq)]
pub struct Message {
    pub id: u128,
    pub content: String,
    pub channel_id: u128,
    pub author_id: u128,
    pub author: Option<Author>,
    pub edited_at: Option<Timestamp>,
    pub embeds: Vec<Embed>,
    pub nonce: Option<String>,
}

/// What a [`Message`] is, with its text as sequences of characters.
pub struct MessageView {
    pub id: u128,
    pub content: Seq<char>,
    pub channel_id: u128,
    pub author_id: u128,
    pub author: Option<AuthorView>,
    pub edited_at: Option<Timestamp>,
    pub embeds: Seq<Embed>,
    pub nonce: Option<Seq<char>>,
}

impl View for Message {
    type V = MessageView;

    open spec fn view(&self) -> MessageView {
        MessageView {
            id: self.id,
            content: self.content@,
            channel_id: self.channel_id,
            author_id: self.author_id,
            author: match self.author {
                Some(author) => Some(author@),
                None => None,
            },
            edited_at: self.edited_at,
            embeds: self.embeds@,
            nonce: match self.nonce {
                Some(text) => Some(text@),
                None => None,
            },
        }
    }
}

/// One row of the history query: a message joined with the columns of its
/// author. The three identifiers are still the store's decimals.
#[derive(Clone, Debug, PartialEq, Eq)]
pub struct HistoryRow {
    pub id: RawDecimal,
    pub content: String,
    pub channel_id: RawDecimal,
    pub author_id: RawDecimal,
    pub edited_at: Option<Timestamp>,
    pub author_name: String,
    pub author_flags: i64,
    pub author_discriminator: i16,
}

/// What a [`HistoryRow`] is.
pub struct RowView {
    pub id: DecimalValue,
    pub content: Seq<char>,
    pub channel_id: DecimalValue,
    pub author_id: DecimalValue,
    pub edited_at: Option<Timestamp>,
    pub author_name: Seq<char>,
    pub author_flags: i64,
    pub author_discriminator: i16,
}

impl View for HistoryRow {
    type V = RowView;

    open spec fn view(&self) -> RowView {
        RowView {
            id: self.id@,
            content: self.content@,
            channel_id: self.channel_id@,
            author_id: self.author_id@,
            edited_at: self.edited_at,
            author_name: self.author_name@,
            author_flags: self.author_flags,
            author_discriminator: self.author_discriminator,
        }
    }
}

/// The views of a run of messages, in order.
pub open spec fn message_views(messages: Seq<Message>) -> Seq<MessageView> {
    messages.map_values(|m: Message| m@)
}

/// The views of a run of rows, in order.
pub open spec fn row_views(rows: Seq<HistoryRow>) -> Seq<RowView> {
    rows.map_values(|r: HistoryRow| r@)
}

/// The bits of a flags column that name a flag: the lowest fourteen.
pub const KNOWN_USER_FLAGS: i64 = 0x3FFF;

/// A flags column with the bits that name no flag cleared.
pub open spec fn known_flags(raw: i64) -> i64 {
    raw & KNOWN_USER_FLAGS
}

/// `UserFlags::from_bits_truncate`, and the bits of what it returns. Trusted:
/// the bits of `raw` that name a flag are kept and all others are cleared.
#[verifier::external_body]
pub(crate) fn truncate_user_flags(raw: i64) -> (flags: i64)
    ensures
        flags == known_flags(raw),
{
    UserFlags::from_bits_truncate(raw).bits()
}

} // verus!
