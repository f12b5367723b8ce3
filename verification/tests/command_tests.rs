use rello::board::Board;
use rello::command::{command_kind, Command, CommandKind, Outcome};
use rello::input::{parse_id, strip_line_end};

fn two_columns() -> Board {
    let mut board = Board::new();
    board.create_column(String::from("ToDo"));
    board.create_column(String::from("Doing"));
    board
}

fn add(board: &mut Board, title: &str, assignee: &str, column: &str) -> Outcome {
    board.apply(Command::AddItem {
        title: String::from(title),
        body: String::from("body"),
        assignee: String::from(assignee),
        column: String::from(column),
    })
}

#[test]
fn every_command_name_is_known() {
    assert_eq!(command_kind("exit"), Some(CommandKind::Exit));
    assert_eq!(command_kind("list"), Some(CommandKind::List));
    assert_eq!(command_kind("add_column"), Some(CommandKind::AddColumn));
    assert_eq!(command_kind("remove_column"), Some(CommandKind::RemoveColumn));
    assert_eq!(command_kind("add_item"), Some(CommandKind::AddItem));
    assert_eq!(command_kind("remove_item"), Some(CommandKind::RemoveItem));
    assert_eq!(command_kind("move_item"), Some(CommandKind::MoveItem));
    assert_eq!(command_kind("edit_item"), Some(CommandKind::EditItem));
}

#[test]
fn other_words_name_no_command() {
    assert_eq!(command_kind(""), None);
    assert_eq!(command_kind("List"), None);
    assert_eq!(command_kind("list "), None);
    assert_eq!(command_kind("quit"), None);
}

#[test]
fn identifiers_are_read_from_decimal_text() {
    assert_eq!(parse_id("0"), Some(0));
    assert_eq!(parse_id("7"), Some(7));
    assert_eq!(parse_id("42"), Some(42));
    assert_eq!(parse_id("007"), Some(7));
    assert_eq!(parse_id("+15"), Some(15));
    assert_eq!(parse_id("65535"), Some(65535));
    assert_eq!(parse_id("0000065535"), Some(65535));
}

#[test]
fn malformed_identifiers_are_refused() {
    assert_eq!(parse_id(""), None);
    assert_eq!(parse_id("+"), None);
    assert_eq!(parse_id("-1"), None);
    assert_eq!(parse_id("65536"), None);
    assert_eq!(parse_id("99999999999999999999"), None);
    assert_eq!(parse_id("12a"), None);
    assert_eq!(parse_id("a12"), None);
    assert_eq!(parse_id(" 12"), None);
    assert_eq!(parse_id("12 "), None);
    assert_eq!(parse_id("1+2"), None);
    assert_eq!(parse_id("++1"), None);
    assert_eq!(parse_id("１２"), None);
    assert_eq!(parse_id("1é"), None);
}

#[test]
fn parsing_agrees_with_the_standard_parser() {
    for text in ["0", "1", "+1", "-0", "65535", "65536", "655350", "", "+", "x", "00", "1 ", "９"] {
        assert_eq!(parse_id(text), text.parse::<u16>().ok());
    }
    for n in 0u32..70000 {
        let text = n.to_string();
        assert_eq!(parse_id(&text), text.parse::<u16>().ok());
    }
}

#[test]
fn line_ends_are_cut_off() {
    assert_eq!(strip_line_end("list\n"), "list");
    assert_eq!(strip_line_end("list\r\n"), "list");
    assert_eq!(strip_line_end("list\r"), "list");
    assert_eq!(strip_line_end("list"), "list");
    assert_eq!(strip_line_end(""), "");
    assert_eq!(strip_line_end("\n"), "");
    assert_eq!(strip_line_end("\r\n"), "");
    assert_eq!(strip_line_end("a\n\n"), "a\n");
    assert_eq!(strip_line_end("a\n\r"), "a\n");
    assert_eq!(strip_line_end("a\r\r\n"), "a\r");
    assert_eq!(strip_line_end("héllo wörld\r\n"), "héllo wörld");
}

#[test]
fn list_hands_back_the_rendering() {
    let mut board = two_columns();
    add(&mut board, "a", "", "ToDo");
    let text = board.to_string();
    assert_eq!(board.apply(Command::List), Outcome::Listed(text.clone()));
    assert_eq!(board.to_string(), text);
}

#[test]
fn column_commands_without_a_title_change_nothing() {
    let mut board = two_columns();
    assert_eq!(board.apply(Command::AddColumn(None)), Outcome::Done);
    assert_eq!(board.apply(Command::RemoveColumn(None)), Outcome::Done);
    assert_eq!(board.column_count(), 2);
}

#[test]
fn column_commands_add_and_remove() {
    let mut board = two_columns();
    assert_eq!(board.apply(Command::AddColumn(Some(String::from("Done")))), Outcome::Done);
    assert!(board.column_exists(String::from("Done")));
    assert_eq!(board.column_count(), 3);
    assert_eq!(
        board.apply(Command::RemoveColumn(Some(String::from("ToDo")))),
        Outcome::Done
    );
    assert!(!board.column_exists(String::from("ToDo")));
    assert_eq!(board.column_count(), 2);
}

#[test]
fn empty_assignee_means_unassigned() {
    let mut board = two_columns();
    assert_eq!(add(&mut board, "a", "", "ToDo"), Outcome::Done);
    assert_eq!(add(&mut board, "b", "bob", "ToDo"), Outcome::Done);
    assert_eq!(board.column(0).item(0).assignee(), &None);
    assert_eq!(board.column(0).item(1).assignee(), &Some(String::from("bob")));
    assert_eq!(board.counter, 2);
}

#[test]
fn add_item_to_a_missing_column_is_silent() {
    let mut board = two_columns();
    assert_eq!(add(&mut board, "a", "", "Done"), Outcome::Done);
    assert_eq!(board.counter, 0);
    assert_eq!(board.item_exists(0), None);
}

#[test]
fn remove_item_reads_the_identifier() {
    let mut board = two_columns();
    add(&mut board, "a", "", "ToDo");
    add(&mut board, "b", "", "ToDo");
    assert_eq!(board.apply(Command::RemoveItem(Some(String::from("1")))), Outcome::Done);
    assert_eq!(board.item_exists(1), None);
    assert_eq!(board.item_exists(0), Some(&String::from("ToDo")));
    assert_eq!(board.apply(Command::RemoveItem(None)), Outcome::Done);
    assert_eq!(board.item_exists(0), Some(&String::from("ToDo")));
    assert_eq!(
        board.apply(Command::RemoveItem(Some(String::from("1")))),
        Outcome::ItemNotFound
    );
    assert_eq!(board.item_exists(0), Some(&String::from("ToDo")));
    assert_eq!(board.counter, 2);
}

#[test]
fn a_malformed_identifier_fails_the_command_only() {
    let mut board = two_columns();
    add(&mut board, "a", "", "ToDo");
    let before = board.to_string();
    assert_eq!(board.apply(Command::RemoveItem(Some(String::from("zero")))), Outcome::BadId);
    assert_eq!(
        board.apply(Command::MoveItem { id: String::from("-0"), column: String::from("Doing") }),
        Outcome::BadId
    );
    assert_eq!(
        board.apply(Command::EditItem {
            id: String::from("70000"),
            title: String::from("t"),
            body: String::from("b"),
        }),
        Outcome::BadId
    );
    assert_eq!(
        board.apply(Command::EditItem {
            id: String::new(),
            title: String::from("t"),
            body: String::from("b"),
        }),
        Outcome::BadId
    );
    assert_eq!(board.to_string(), before);
    assert_eq!(board.counter, 1);
}

#[test]
fn move_command_reports_what_was_missing() {
    let mut board = two_columns();
    add(&mut board, "a", "", "ToDo");
    assert_eq!(
        board.apply(Command::MoveItem { id: String::from("0"), column: String::from("Done") }),
        Outcome::ColumnNotFound
    );
    assert_eq!(
        board.apply(Command::MoveItem { id: String::from("3"), column: String::from("Doing") }),
        Outcome::ItemNotFound
    );
    assert_eq!(board.item_exists(0), Some(&String::from("ToDo")));
    assert_eq!(
        board.apply(Command::MoveItem { id: String::from("0"), column: String::from("Doing") }),
        Outcome::Done
    );
    assert_eq!(board.item_exists(0), Some(&String::from("Doing")));
}

#[test]
fn empty_edit_fields_are_skipped() {
    let mut board = two_columns();
    add(&mut board, "a", "", "ToDo");
    assert_eq!(
        board.apply(Command::EditItem {
            id: String::from("0"),
            title: String::new(),
            body: String::from("new body"),
        }),
        Outcome::Edited { title: false, body: true }
    );
    assert_eq!(board.column(0).item(0).title(), "a");
    assert_eq!(board.column(0).item(0).body(), "new body");
    assert_eq!(
        board.apply(Command::EditItem {
            id: String::from("0"),
            title: String::from("A"),
            body: String::new(),
        }),
        Outcome::Edited { title: true, body: false }
    );
    assert_eq!(board.column(0).item(0).title(), "A");
    assert_eq!(board.column(0).item(0).body(), "new body");
    assert_eq!(
        board.apply(Command::EditItem {
            id: String::from("0"),
            title: String::new(),
            body: String::new(),
        }),
        Outcome::Edited { title: false, body: false }
    );
    assert_eq!(
        board.apply(Command::EditItem {
            id: String::from("0"),
            title: String::from("T"),
            body: String::from("B"),
        }),
        Outcome::Edited { title: true, body: true }
    );
    assert_eq!(board.column(0).item(0).title(), "T");
    assert_eq!(board.column(0).item(0).body(), "B");
}
