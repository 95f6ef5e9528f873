use ferrischat_history::assemble::{assemble, assemble_row};
use ferrischat_history::codec::encode;
use ferrischat_history::decimal::RawDecimal;
use ferrischat_history::model::{Author, HistoryRow, Message, Timestamp};

fn row(id: u128, channel: u128, author: u128, content: &str) -> HistoryRow {
    HistoryRow {
        id: encode(id),
        content: content.to_string(),
        channel_id: encode(channel),
        author_id: encode(author),
        edited_at: None,
        author_name: format!("user{}", author),
        author_flags: 0,
        author_discriminator: 1,
    }
}

/// Two to the 128th: the first integer that is no identifier.
fn too_large() -> RawDecimal {
    let mut digits = vec![0u8; 17];
    digits[0] = 1;
    RawDecimal { digits, scale: 0 }
}

#[test]
fn row_becomes_a_message_with_its_author() {
    let edited = Timestamp { seconds: 1_640_000_000, nanoseconds: 250_000_000 };
    let source = HistoryRow {
        id: encode(1000),
        content: "hello".to_string(),
        channel_id: encode(20),
        author_id: encode(3),
        edited_at: Some(edited),
        author_name: "ferris".to_string(),
        author_flags: 0b101,
        author_discriminator: 4242,
    };
    let expected = Message {
        id: 1000,
        content: "hello".to_string(),
        channel_id: 20,
        author_id: 3,
        author: Some(Author {
            id: 3,
            name: "ferris".to_string(),
            avatar: None,
            guilds: None,
            flags: 0b101,
            discriminator: 4242,
        }),
        edited_at: Some(edited),
        embeds: vec![],
        nonce: None,
    };
    assert_eq!(assemble_row(source), Some(expected));
}

#[test]
fn message_that_was_never_edited_has_no_edit_time() {
    let message = assemble_row(row(1, 2, 3, "x")).unwrap();
    assert_eq!(message.edited_at, None);
}

#[test]
fn history_attaches_no_embeds_and_no_nonce() {
    let message = assemble_row(row(1, 2, 3, "x")).unwrap();
    assert!(message.embeds.is_empty());
    assert_eq!(message.nonce, None);
}

#[test]
fn author_of_history_has_no_avatar_and_no_guilds() {
    let author = assemble_row(row(1, 2, 3, "x")).unwrap().author.unwrap();
    assert_eq!(author.avatar, None);
    assert_eq!(author.guilds, None);
}

#[test]
fn flags_that_name_nothing_are_cleared() {
    let mut source = row(1, 2, 3, "x");
    source.author_flags = 0x7fff;
    assert_eq!(assemble_row(source).unwrap().author.unwrap().flags, 0x3fff);
    let mut source = row(1, 2, 3, "x");
    source.author_flags = -1;
    assert_eq!(assemble_row(source).unwrap().author.unwrap().flags, 0x3fff);
    let mut source = row(1, 2, 3, "x");
    source.author_flags = 1 << 14;
    assert_eq!(assemble_row(source).unwrap().author.unwrap().flags, 0);
    let mut source = row(1, 2, 3, "x");
    source.author_flags = (1 << 13) | (1 << 40) | 1;
    assert_eq!(assemble_row(source).unwrap().author.unwrap().flags, (1 << 13) | 1);
}

#[test]
fn row_with_an_identifier_that_does_not_decode_gives_nothing() {
    let mut source = row(1, 2, 3, "x");
    source.id = too_large();
    assert_eq!(assemble_row(source), None);
    let mut source = row(1, 2, 3, "x");
    source.channel_id = too_large();
    assert_eq!(assemble_row(source), None);
    let mut source = row(1, 2, 3, "x");
    source.author_id = too_large();
    assert_eq!(assemble_row(source), None);
    let mut source = row(1, 2, 3, "x");
    source.author_id = RawDecimal { digits: vec![0xff], scale: 0 };
    assert_eq!(assemble_row(source), None);
}

#[test]
fn row_with_a_fraction_in_an_identifier_is_cut_to_its_integral_part() {
    let mut source = row(1, 2, 3, "x");
    source.id = RawDecimal { digits: vec![0x04, 0xd2], scale: 1 };
    assert_eq!(assemble_row(source).unwrap().id, 123);
}

#[test]
fn assemble_of_no_rows_is_no_messages() {
    assert_eq!(assemble(vec![]), vec![]);
}

#[test]
fn assemble_keeps_the_order_of_the_rows() {
    let rows = vec![row(30, 1, 7, "c"), row(10, 1, 8, "a"), row(20, 1, 9, "b")];
    let messages = assemble(rows);
    let ids: Vec<u128> = messages.iter().map(|m| m.id).collect();
    assert_eq!(ids, vec![30, 10, 20]);
    let contents: Vec<&str> = messages.iter().map(|m| m.content.as_str()).collect();
    assert_eq!(contents, vec!["c", "a", "b"]);
}

#[test]
fn one_row_that_does_not_decode_is_left_out_alone() {
    let mut bad = row(25, 1, 7, "bad");
    bad.author_id = too_large();
    let rows = vec![row(10, 1, 7, "a"), row(20, 1, 8, "b"), bad, row(30, 1, 9, "c"), row(40, 1, 7, "d")];
    let messages = assemble(rows);
    assert_eq!(messages.len(), 4);
    let ids: Vec<u128> = messages.iter().map(|m| m.id).collect();
    assert_eq!(ids, vec![10, 20, 30, 40]);
    let authors: Vec<u128> = messages.iter().map(|m| m.author_id).collect();
    assert_eq!(authors, vec![7, 8, 9, 7]);
    assert_eq!(messages[2], assemble_row(row(30, 1, 9, "c")).unwrap());
}

#[test]
fn rows_that_do_not_decode_at_the_ends_are_left_out() {
    let mut first = row(1, 1, 7, "first");
    first.id = RawDecimal { digits: vec![0x80], scale: 0 };
    let mut last = row(9, 1, 7, "last");
    last.channel_id = too_large();
    let messages = assemble(vec![first, row(5, 1, 7, "kept"), last]);
    assert_eq!(messages.len(), 1);
    assert_eq!(messages[0].content, "kept");
}

#[test]
fn page_is_never_longer_than_the_rows() {
    let mut bad = row(2, 1, 7, "bad");
    bad.id = too_large();
    assert_eq!(assemble(vec![row(1, 1, 7, "a"), bad.clone(), bad]).len(), 1);
    assert_eq!(assemble(vec![row(1, 1, 7, "a"), row(2, 1, 7, "b")]).len(), 2);
}
