use vstd::prelude::*;
use crate::board::{Board, MoveError};
use crate::input::{id_of, parse_id};
use crate::item::text_of;
use crate::laws::law_apply;
use crate::model::BoardView;

verus! {

/// The operations that a user can name.
#[derive(Debug, Clone, Copy, PartialEq, Eq, Structural)]
pub enum CommandKind {
    Exit,
    List,
    AddColumn,
    RemoveColumn,
    AddItem,
    RemoveItem,
    MoveItem,
    EditItem,
}

/// The operation that a word names, if it names one.
pub open spec fn kind_of(name: Seq<char>) -> Option<CommandKind> {
    if name == "exit"@ {
        Some(CommandKind::Exit)
    } else if name == "list"@ {
        Some(CommandKind::List)
    } else if name == "add_column"@ {
        Some(CommandKind::AddColumn)
    } else if name == "remove_column"@ {
        Some(CommandKind::RemoveColumn)
    } else if name == "add_item"@ {
        Some(CommandKind::AddItem)
    } else if name == "remove_item"@ {
        Some(CommandKind::RemoveItem)
    } else if name == "move_item"@ {
        Some(CommandKind::MoveItem)
    } else if name == "edit_item"@ {
        Some(CommandKind::EditItem)
    } else {
        None
    }
}

/// Whether two texts are the same, character by character.
fn same_text(a: &str, b: &str) -> (same: bool)
    ensures
        same == (a@ == b@),
{
    String::from_str(a) == String::from_str(b)
}

/// Looks up the operation that `name` names.
pub fn command_kind(name: &str) -> (kind: Option<CommandKind>)
    ensures
        kind == kind_of(name@),
{
    if same_text(name, "exit") {
        Some(CommandKind::Exit)
    } else if same_text(name, "list") {
        Some(CommandKind::List)
    } else if same_text(name, "add_column") {
        Some(CommandKind::AddColumn)
    } else if same_text(name, "remove_column") {
        Some(CommandKind::RemoveColumn)
    } else if same_text(name, "add_item") {
        Some(CommandKind::AddItem)
    } else if same_text(name, "remove_item") {
        Some(CommandKind::RemoveItem)
    } else if same_text(name, "move_item") {
        Some(CommandKind::MoveItem)
    } else if same_text(name, "edit_item") {
        Some(CommandKind::EditItem)
    } else {
        None
    }
}

/// One operation on a board, with the parameters as the user gave them.
/// Identifiers are still text; a parameter that may be left out is an
/// `Option`.
#[derive(Debug)]
pub enum Command {
    /// Show the board.
    List,
    /// Append a column; without a title nothing is added.
    AddColumn(Option<String>),
    /// Remove a column; without a title nothing is removed.
    RemoveColumn(Option<String>),
    /// Create an item in `column`; an empty `assignee` means unassigned.
    AddItem { title: String, body: String, assignee: String, column: String },
    /// Remove an item; without an identifier nothing is removed.
    RemoveItem(Option<String>),
    /// Move an item to the end of `column`.
    MoveItem { id: String, column: String },
    /// Overwrite an item's title and body; an empty text leaves that field
    /// as it is.
    EditItem { id: String, title: String, body: String },
}

/// Mathematical value of a [`Command`].
pub enum CommandView {
    List,
    AddColumn(Option<Seq<char>>),
    RemoveColumn(Option<Seq<char>>),
    AddItem { title: Seq<char>, body: Seq<char>, assignee: Seq<char>, column: Seq<char> },
    RemoveItem(Option<Seq<char>>),
    MoveItem { id: Seq<char>, column: Seq<char> },
    EditItem { id: Seq<char>, title: Seq<char>, body: Seq<char> },
}

impl View for Command {
    type V = CommandView;

    open spec fn view(&self) -> CommandView {
        match *self {
            Command::List => CommandView::List,
            Command::AddColumn(title) => CommandView::AddColumn(text_of(title)),
            Command::RemoveColumn(title) => CommandView::RemoveColumn(text_of(title)),
            Command::AddItem { title, body, assignee, column } => CommandView::AddItem {
                title: title@,
                body: body@,
                assignee: assignee@,
                column: column@,
            },
            Command::RemoveItem(id) => CommandView::RemoveItem(text_of(id)),
            Command::MoveItem { id, column } => CommandView::MoveItem { id: id@, column: column@ },
            Command::EditItem { id, title, body } => CommandView::EditItem {
                id: id@,
                title: title@,
                body: body@,
            },
        }
    }
}

/// What a command came to.
#[derive(Debug, PartialEq, Eq)]
pub enum Outcome {
    /// The board as text.
    Listed(String),
    /// The command ran. Creating an item in a column that does not exist,
    /// and removing a column that does not exist, change nothing and still
    /// end here.
    Done,
    /// A move named a column that does not exist; the board is as it was.
    ColumnNotFound,
    /// A move or a removal named an item that does not exist; the board is
    /// as it was.
    ItemNotFound,
    /// An edit ran; each flag says whether that field was given, so whether
    /// it was overwritten where the item exists.
    Edited { title: bool, body: bool },
    /// The identifier was not a number from 0 to 65535; the board is as it
    /// was.
    BadId,
}

/// Mathematical value of an [`Outcome`].
pub enum OutcomeView {
    Listed(Seq<char>),
    Done,
    ColumnNotFound,
    ItemNotFound,
    Edited { title: bool, body: bool },
    BadId,
}

impl View for Outcome {
    type V = OutcomeView;

    open spec fn view(&self) -> OutcomeView {
        match *self {
            Outcome::Listed(text) => OutcomeView::Listed(text@),
            Outcome::Done => OutcomeView::Done,
            Outcome::ColumnNotFound => OutcomeView::ColumnNotFound,
            Outcome::ItemNotFound => OutcomeView::ItemNotFound,
            Outcome::Edited { title, body } => OutcomeView::Edited { title: title, body: body },
            Outcome::BadId => OutcomeView::BadId,
        }
    }
}

/// The assignee that an entered text stands for: none where it is empty.
pub open spec fn assignee_of(text: Seq<char>) -> Option<Seq<char>> {
    if text.len() == 0 {
        None
    } else {
        Some(text)
    }
}

impl CommandView {
    /// The command can be applied to `board` without running out of
    /// identifiers.
    pub open spec fn fits(self, board: BoardView) -> bool {
        match self {
            CommandView::AddItem { column, .. } => board.has_column(column) ==> board.counter
                < u16::MAX,
            _ => true,
        }
    }
}

impl BoardView {
    /// The board after `command`.
    pub open spec fn after(self, command: CommandView) -> BoardView {
        match command {
            CommandView::List => self,
            CommandView::AddColumn(Some(t)) => self.with_column(t),
            CommandView::AddColumn(None) => self,
            CommandView::RemoveColumn(Some(t)) => self.without_column(t),
            CommandView::RemoveColumn(None) => self,
            CommandView::AddItem { title, body, assignee, column } => self.with_item(
                title,
                body,
                assignee_of(assignee),
                column,
            ),
            CommandView::RemoveItem(Some(text)) => match id_of(text) {
                Some(id) => self.without_item(id),
                None => self,
            },
            CommandView::RemoveItem(None) => self,
            CommandView::MoveItem { id, column } => match id_of(id) {
                Some(id) => self.with_item_moved(id, column),
                None => self,
            },
            CommandView::EditItem { id, title, body } => match id_of(id) {
                Some(id) => {
                    let retitled = if title.len() > 0 {
                        self.with_item_title(id, title)
                    } else {
                        self
                    };
                    if body.len() > 0 {
                        retitled.with_item_body(id, body)
                    } else {
                        retitled
                    }
                },
                None => self,
            },
        }
    }

    /// What `command` comes to on this board.
    pub open spec fn outcome(self, command: CommandView) -> OutcomeView {
        match command {
            CommandView::List => OutcomeView::Listed(self.render()),
            CommandView::AddColumn(_) => OutcomeView::Done,
            CommandView::RemoveColumn(_) => OutcomeView::Done,
            CommandView::AddItem { .. } => OutcomeView::Done,
            CommandView::RemoveItem(Some(text)) => match id_of(text) {
                Some(id) => if self.has_item(id) {
                    OutcomeView::Done
                } else {
                    OutcomeView::ItemNotFound
                },
                None => OutcomeView::BadId,
            },
            CommandView::RemoveItem(None) => OutcomeView::Done,
            CommandView::MoveItem { id, column } => match id_of(id) {
                Some(id) => if !self.has_column(column) {
                    OutcomeView::ColumnNotFound
                } else if !self.has_item(id) {
                    OutcomeView::ItemNotFound
                } else {
                    OutcomeView::Done
                },
                None => OutcomeView::BadId,
            },
            CommandView::EditItem { id, title, body } => match id_of(id) {
                Some(_) => OutcomeView::Edited { title: title.len() > 0, body: body.len() > 0 },
                None => OutcomeView::BadId,
            },
        }
    }
}

impl Board {
    /// Carries out one command. An identifier that is no number from 0 to
    /// 65535 fails the command before the board is touched.
    pub fn apply(&mut self, command: Command) -> (outcome: Outcome)
        requires
            command@.fits(old(self)@),
        ensures
            final(self)@ == old(self)@.after(command@),
            outcome@ == old(self)@.outcome(command@),
            old(self)@.wf() ==> final(self)@.wf(),
    {
        proof {
            if self@.wf() {
                law_apply(self@, command@);
            }
        }
        match command {
            Command::List => Outcome::Listed(self.to_string()),
            Command::AddColumn(title) => {
                match title {
                    Some(t) => self.create_column(t),
                    None => {},
                }
                Outcome::Done
            },
            Command::RemoveColumn(title) => {
                match title {
                    Some(t) => self.remove_column(t),
                    None => {},
                }
                Outcome::Done
            },
            Command::AddItem { title, body, assignee, column } => {
                let assignee = if assignee.as_str().is_empty() {
                    None
                } else {
                    Some(assignee)
                };
                self.create_item(title, body, assignee, column);
                Outcome::Done
            },
            Command::RemoveItem(id) => match id {
                Some(text) => match parse_id(text.as_str()) {
                    Some(id) => if self.remove_item(id) {
                        Outcome::Done
                    } else {
                        Outcome::ItemNotFound
                    },
                    None => Outcome::BadId,
                },
                None => Outcome::Done,
            },
            Command::MoveItem { id, column } => match parse_id(id.as_str()) {
                Some(id) => match self.move_item(id, column) {
                    Ok(()) => Outcome::Done,
                    Err(MoveError::ColumnNotFound) => Outcome::ColumnNotFound,
                    Err(MoveError::ItemNotFound) => Outcome::ItemNotFound,
                },
                None => Outcome::BadId,
            },
            Command::EditItem { id, title, body } => match parse_id(id.as_str()) {
                Some(id) => {
                    let title_given = !title.as_str().is_empty();
                    let body_given = !body.as_str().is_empty();
                    if title_given {
                        self.edit_item_title(id, title);
                    }
                    if body_given {
                        self.edit_item_body(id, body);
                    }
                    Outcome::Edited { title: title_given, body: body_given }
                },
                None => Outcome::BadId,
            },
        }
    }
}

} // verus!
