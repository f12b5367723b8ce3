use rello::board::Board;
use rello::column::Column;
use rello::item::Item;

#[test]
fn item_without_assignee_renders_three_fields() {
    let item = Item::new(7, String::from("Fix bug"), String::from("desc"), None);
    assert_eq!(item.to_string(), "(ID: 7) Title: Fix bug, Body: desc");
}

#[test]
fn item_with_assignee_renders_four_fields() {
    let item = Item::new(
        12,
        String::from("Fix bug"),
        String::from("desc"),
        Some(String::from("ann")),
    );
    assert_eq!(item.to_string(), "(ID: 12) Title: Fix bug, Body: desc, Assigned To: ann");
}

#[test]
fn identifiers_render_in_decimal() {
    for id in [0u16, 9, 10, 99, 100, 1005, 9999, 10000, 40302, 65535] {
        let item = Item::new(id, String::new(), String::new(), None);
        assert_eq!(item.to_string(), format!("(ID: {}) Title: , Body: ", id));
    }
}

#[test]
fn empty_column_renders_its_title_alone() {
    let column = Column::new(String::from("ToDo"));
    assert_eq!(column.to_string(), "ToDo: \n\t\t");
}

#[test]
fn column_renders_one_line_per_item() {
    let mut column = Column::new(String::from("ToDo"));
    column.push(Item::new(0, String::from("a"), String::from("x"), None));
    column.push(Item::new(1, String::from("b"), String::from("y"), Some(String::from("bob"))));
    assert_eq!(
        column.to_string(),
        "ToDo: \n\t\t(ID: 0) Title: a, Body: x\n\t\t(ID: 1) Title: b, Body: y, Assigned To: bob"
    );
}

#[test]
fn empty_board_renders_its_header() {
    assert_eq!(Board::new().to_string(), "Board: \n\t");
}

#[test]
fn board_renders_columns_in_order() {
    let mut board = Board::new();
    board.create_column(String::from("ToDo"));
    board.create_column(String::from("Doing"));
    board.create_item(String::from("a"), String::from("x"), None, String::from("Doing"));
    board.create_item(String::from("b"), String::from("y"), None, String::from("ToDo"));
    assert_eq!(
        board.to_string(),
        "Board: \n\tToDo: \n\t\t(ID: 1) Title: b, Body: y\n\tDoing: \n\t\t(ID: 0) Title: a, Body: x"
    );
}

#[test]
fn rendering_twice_gives_the_same_text() {
    let mut board = Board::new();
    board.create_column(String::from("ToDo"));
    board.create_item(String::from("a"), String::from("x"), None, String::from("ToDo"));
    assert_eq!(board.to_string(), board.to_string());
}
