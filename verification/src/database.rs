//! The wording of the record store's queries. Running them is the caller's
//! part; which table and which field they name is decided here.

use crate::traits::{HasChatId, HasTaskId};
use vstd::prelude::*;
use vstd::string::StringExecFns;

verus! {

/// How a kind of record keeps its fields when stored.
#[derive(Debug, Clone, Copy, PartialEq, Eq, Structural)]
pub enum Layout {
    /// The fields stand at the top of the record.
    Flat,
    /// The fields stand under `data`, beside the tag that names the variant.
    Tagged,
}

impl Layout {
    /// What stands before a field's name in a query.
    pub open spec fn prefix(self) -> Seq<char> {
        match self {
            Layout::Flat => ""@,
            Layout::Tagged => "data."@,
        }
    }

    /// What stands before a field's name in a query.
    pub fn field_prefix(&self) -> (prefix: &'static str)
        ensures
            prefix@ == self.prefix(),
    {
        match self {
            Layout::Flat => "",
            Layout::Tagged => "data.",
        }
    }
}

/// A kind of record that is kept in the record store, in a table of its own.
pub trait DbRecord: HasTaskId + HasChatId {
    /// The name of the kind.
    spec fn kind() -> Seq<char>;

    /// How the kind keeps its fields.
    spec fn stored_as() -> Layout;

    fn record_name() -> (name: &'static str)
        ensures
            name@ == Self::kind(),
    ;

    fn layout() -> (layout: Layout)
        ensures
            layout == Self::stored_as(),
    ;
}

/// The table of a kind of record. A development build keeps its records
/// apart, in tables that end in `_dev`.
pub open spec fn table_of(record_name: Seq<char>, dev: bool) -> Seq<char> {
    if dev {
        record_name + "_dev"@
    } else {
        record_name
    }
}

/// The query that reads a whole table.
pub open spec fn select_all_text(table: Seq<char>) -> Seq<char> {
    "SELECT * FROM "@ + table
}

/// The query that reads the records of one task.
pub open spec fn select_by_task_id_text(table: Seq<char>, layout: Layout) -> Seq<char> {
    "SELECT * FROM "@ + table + " WHERE "@ + layout.prefix() + "task_id = $task_id_object"@
}

/// The query that reads the records of one conversation.
pub open spec fn select_by_chat_id_text(table: Seq<char>, layout: Layout) -> Seq<char> {
    "SELECT * FROM "@ + table + " WHERE "@ + layout.prefix() + "chat_id = $chat_id_object"@
}

/// The query that removes the records of one task.
pub open spec fn delete_by_task_id_text(table: Seq<char>, layout: Layout) -> Seq<char> {
    "DELETE FROM "@ + table + " WHERE "@ + layout.prefix() + "task_id = $task_id_object"@
}

/// The query that puts a record in the place of the records of one task.
pub open spec fn update_by_task_id_text(table: Seq<char>, layout: Layout) -> Seq<char> {
    "UPDATE "@ + table + " CONTENT $self_object WHERE "@ + layout.prefix()
        + "task_id = $task_id_object"@
}

pub fn table_name(kind_name: &str, dev: bool) -> (table: String)
    ensures
        table@ == table_of(kind_name@, dev),
{
    if dev {
        kind_name.to_owned().concat("_dev")
    } else {
        kind_name.to_owned()
    }
}

/// The query that reads every record of `table`.
pub fn select_all(table: &str) -> (query: String)
    ensures
        query@ == select_all_text(table@),
{
    "SELECT * FROM ".to_owned().concat(table)
}

/// The query that reads the records of the task bound to `$task_id_object`.
pub fn select_by_task_id(table: &str, layout: Layout) -> (query: String)
    ensures
        query@ == select_by_task_id_text(table@, layout),
{
    "SELECT * FROM ".to_owned().concat(table).concat(" WHERE ").concat(
        layout.field_prefix(),
    ).concat("task_id = $task_id_object")
}

/// The query that reads the records of the conversation bound to
/// `$chat_id_object`.
pub fn select_by_chat_id(table: &str, layout: Layout) -> (query: String)
    ensures
        query@ == select_by_chat_id_text(table@, layout),
{
    "SELECT * FROM ".to_owned().concat(table).concat(" WHERE ").concat(
        layout.field_prefix(),
    ).concat("chat_id = $chat_id_object")
}

/// The query that removes the records of the task bound to
/// `$task_id_object`.
pub fn delete_by_task_id(table: &str, layout: Layout) -> (query: String)
    ensures
        query@ == delete_by_task_id_text(table@, layout),
{
    "DELETE FROM ".to_owned().concat(table).concat(" WHERE ").concat(
        layout.field_prefix(),
    ).concat("task_id = $task_id_object")
}

/// The query that replaces the records of the task bound to
/// `$task_id_object` by the record bound to `$self_object`.
pub fn update_by_task_id(table: &str, layout: Layout) -> (query: String)
    ensures
        query@ == update_by_task_id_text(table@, layout),
{
    "UPDATE ".to_owned().concat(table).concat(" CONTENT $self_object WHERE ").concat(
        layout.field_prefix(),
    ).concat("task_id = $task_id_object")
}

} // verus!
