use vstd::prelude::*;
use crate::role::Role;

verus! {

/// One account: a row of the account table.
#[derive(Debug)]
pub struct Record {
    pub email: String,
    pub username: String,
    pub password: Option<String>,
    pub displayed_name: Option<String>,
    pub role: Option<Role>,
}

/// The content of a [`Record`], with its texts as character sequences.
pub ghost struct RecordView {
    pub email: Seq<char>,
    pub username: Seq<char>,
    pub password: Option<Seq<char>>,
    pub displayed_name: Option<Seq<char>>,
    pub role: Option<Role>,
}

pub open spec fn opt_text(s: Option<String>) -> Option<Seq<char>> {
    match s {
        Some(t) => Some(t@),
        None => None,
    }
}

impl View for Record {
    type V = RecordView;

    open spec fn view(&self) -> RecordView {
        RecordView {
            email: self.email@,
            username: self.username@,
            password: opt_text(self.password),
            displayed_name: opt_text(self.displayed_name),
            role: self.role,
        }
    }
}

pub open spec fn records_view(v: Seq<Record>) -> Seq<RecordView> {
    v.map_values(|r: Record| r@)
}

/// Why a table could not be provisioned.
#[derive(Debug, Clone, Copy, PartialEq, Eq, Structural)]
pub enum ProvisionError {
    /// The CSV reader rejected the text (for instance, invalid UTF-8).
    Malformed,
    /// The header row names no `email` column.
    MissingEmailColumn,
    /// The header row names no `username` column.
    MissingUsernameColumn,
    /// The row at this 1-based position (the header is row 1) does not
    /// have as many fields as the header.
    FieldCount { row: usize },
    /// The `role` field of the row at this 1-based position is not the
    /// text of a role.
    InvalidRole { row: usize },
    /// The CSV writer failed to produce the output text.
    Serialization,
}

} // verus!
