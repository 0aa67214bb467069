//! The todo record, the partial-update payload, the query options and the
//! response envelopes, together with their mathematical views.

use vstd::prelude::*;

verus! {

/// A todo record as the store holds it.  Timestamps are milliseconds since
/// the Unix epoch, UTC.
#[allow(non_snake_case)]
pub struct Todo {
    pub id: String,
    pub title: String,
    pub content: String,
    pub completed: bool,
    pub createdAt: u64,
    pub updatedAt: u64,
}

/// The mathematical view of a [`Todo`]: every string as a sequence of
/// characters, everything else as itself.
#[allow(non_snake_case)]
pub ghost struct TodoView {
    pub id: Seq<char>,
    pub title: Seq<char>,
    pub content: Seq<char>,
    pub completed: bool,
    pub createdAt: u64,
    pub updatedAt: u64,
}

impl View for Todo {
    type V = TodoView;

    open spec fn view(&self) -> TodoView {
        TodoView {
            id: self.id@,
            title: self.title@,
            content: self.content@,
            completed: self.completed,
            createdAt: self.createdAt,
            updatedAt: self.updatedAt,
        }
    }
}

impl Todo {
    /// A field-for-field copy of the record.
    pub fn duplicate(&self) -> (r: Todo)
        ensures
            r@ == self@,
    {
        Todo {
            id: self.id.clone(),
            title: self.title.clone(),
            content: self.content.clone(),
            completed: self.completed,
            createdAt: self.createdAt,
            updatedAt: self.updatedAt,
        }
    }
}

/// Pagination options of a list request; either may be absent.
pub struct QueryOptions {
    pub page: Option<usize>,
    pub limit: Option<usize>,
}

/// A partial-update payload: only the fields that are present overwrite the
/// record's fields.
pub struct UpdateTodoSchema {
    pub title: Option<String>,
    pub content: Option<String>,
    pub completed: Option<bool>,
}

/// The mathematical view of an [`UpdateTodoSchema`].
pub ghost struct PatchView {
    pub title: Option<Seq<char>>,
    pub content: Option<Seq<char>>,
    pub completed: Option<bool>,
}

impl View for UpdateTodoSchema {
    type V = PatchView;

    open spec fn view(&self) -> PatchView {
        PatchView {
            title: match self.title {
                Some(ref t) => Some(t@),
                None => None,
            },
            content: match self.content {
                Some(ref c) => Some(c@),
                None => None,
            },
            completed: self.completed,
        }
    }
}

/// The `{status, message}` envelope used for the health check, for errors
/// and for delete confirmations.
pub struct GenericResponse {
    pub status: String,
    pub message: String,
}

/// The payload of a single-item envelope.
pub struct TodoData {
    pub todo: Todo,
}

/// The `{status, data: {todo}}` envelope around one record.
pub struct SingleTodoResponse {
    pub status: String,
    pub data: TodoData,
}

/// The `{status, results, todos}` envelope around a page of records.
pub struct TodoListResponse {
    pub status: String,
    pub results: usize,
    pub todos: Vec<Todo>,
}

/// The views of a sequence of records.
pub open spec fn views_of(s: Seq<Todo>) -> Seq<TodoView> {
    s.map_values(|t: Todo| t@)
}

} // verus!
