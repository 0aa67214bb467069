//! Request handlers: the stateless translation layer between the transport
//! and the store.
//!
//! Each handler takes the already-parsed request values, drives exactly one
//! store operation, and wraps the outcome in the uniform envelope together
//! with the HTTP status code.  All state lives in the store.

use vstd::prelude::*;
use vstd::string::StringExecFns;
use crate::model::{
    GenericResponse,
    SingleTodoResponse,
    TodoData,
    TodoListResponse,
    QueryOptions,
    UpdateTodoSchema,
    views_of,
};
use crate::store::{
    TodoStore,
    StoreError,
    has_id,
    apply_patch,
    create_success,
    page_slice,
    resolved_page,
    resolved_limit,
};

verus! {

/// One of the three envelope shapes, or no body at all (delete success).
pub enum ResponseBody {
    Single(SingleTodoResponse),
    List(TodoListResponse),
    Message(GenericResponse),
    Empty,
}

/// What a handler hands back to the transport: an HTTP status code and the
/// body to serialize.
pub struct Reply {
    pub code: u16,
    pub body: ResponseBody,
}

/// The `{status:"fail", message}` view of a not-found reply for `id`.
pub open spec fn not_found_message(id: Seq<char>) -> Seq<char> {
    "Todo with ID: "@ + id + " not found"@
}

/// A 404 reply whose message names the identifier.
fn not_found_reply(id: &String) -> (r: Reply)
    ensures
        r.code == 404,
        r.body matches ResponseBody::Message(m) && m.status@ == "fail"@ && m.message@
            == not_found_message(id@),
{
    let mut message = String::from_str("Todo with ID: ");
    message.append(id.as_str());
    message.append(" not found");
    Reply {
        code: 404,
        body: ResponseBody::Message(
            GenericResponse { status: String::from_str("fail"), message },
        ),
    }
}

/// A 400 reply naming the missing required field.
fn validation_reply(message: &'static str) -> (r: Reply)
    ensures
        r.code == 400,
        r.body matches ResponseBody::Message(m) && m.status@ == "fail"@ && m.message@ == message@,
{
    Reply {
        code: 400,
        body: ResponseBody::Message(
            GenericResponse {
                status: String::from_str("fail"),
                message: String::from_str(message),
            },
        ),
    }
}

/// Health check: no store interaction, always the same success message.
pub fn health_checker_handler() -> (r: Reply)
    ensures
        r.code == 200,
        r.body matches ResponseBody::Message(m) && m.status@ == "success"@ && m.message@
            == "Build CRUD API with Rust and Warp"@,
{
    Reply {
        code: 200,
        body: ResponseBody::Message(
            GenericResponse {
                status: String::from_str("success"),
                message: String::from_str("Build CRUD API with Rust and Warp"),
            },
        ),
    }
}

/// Create: 201 with the single-item envelope around the new record, or 400
/// when a required field is empty (the store untouched), or 500 should the
/// identifier counter ever be spent.
pub fn create_todo_handler(
    store: &mut TodoStore,
    title: String,
    content: String,
    completed: Option<bool>,
    now: u64,
) -> (r: Reply)
    requires
        old(store).wf(),
    ensures
        final(store).wf(),
        title@.len() == 0 ==> r.code == 400 && *final(store) == *old(store) && (
        r.body matches ResponseBody::Message(m) && m.status@ == "fail"@ && m.message@
            == "title is required"@),
        title@.len() > 0 && content@.len() == 0 ==> r.code == 400 && *final(store) == *old(store)
            && (r.body matches ResponseBody::Message(m) && m.status@ == "fail"@ && m.message@
            == "content is required"@),
        title@.len() > 0 && content@.len() > 0 && old(store).ids_exhausted() ==> r.code == 500
            && *final(store) == *old(store) && (r.body matches ResponseBody::Message(m)
            && m.status@ == "error"@),
        title@.len() > 0 && content@.len() > 0 && !old(store).ids_exhausted() ==> r.code == 201 && (
        r.body matches ResponseBody::Single(sr) && sr.status@ == "success"@ && create_success(
            old(store)@,
            final(store)@,
            sr.data.todo@,
            title@,
            content@,
            completed,
            now,
        )),
{
    match store.create(title, content, completed, now) {
        Ok(todo) => Reply {
            code: 201,
            body: ResponseBody::Single(
                SingleTodoResponse {
                    status: String::from_str("success"),
                    data: TodoData { todo },
                },
            ),
        },
        Err(StoreError::EmptyTitle) => validation_reply("title is required"),
        Err(StoreError::EmptyContent) => validation_reply("content is required"),
        Err(_) => Reply {
            code: 500,
            body: ResponseBody::Message(
                GenericResponse {
                    status: String::from_str("error"),
                    message: String::from_str("internal server error"),
                },
            ),
        },
    }
}

/// List: always 200; the envelope holds the requested page in insertion
/// order and `results` counts the records returned, not the whole
/// collection.
pub fn todos_list_handler(store: &TodoStore, opts: QueryOptions) -> (r: Reply)
    requires
        store.wf(),
    ensures
        r.code == 200,
        r.body matches ResponseBody::List(lr) && lr.status@ == "success"@ && views_of(lr.todos@)
            == page_slice(store@, resolved_page(opts.page), resolved_limit(opts.limit))
            && lr.results == lr.todos@.len() && lr.todos@.len() <= resolved_limit(opts.limit),
{
    let todos = store.list(opts.page, opts.limit);
    proof {
        assert(views_of(todos@).len() == todos@.len());
    }
    let results = todos.len();
    Reply {
        code: 200,
        body: ResponseBody::List(
            TodoListResponse { status: String::from_str("success"), results, todos },
        ),
    }
}

/// GetById: 200 with the single-item envelope, or 404 with a message naming
/// the identifier.  Read-only.
pub fn get_todo_handler(store: &TodoStore, id: String) -> (r: Reply)
    requires
        store.wf(),
    ensures
        has_id(store@, id@) ==> r.code == 200 && (r.body matches ResponseBody::Single(sr)
            && sr.status@ == "success"@ && sr.data.todo@.id == id@ && exists|i: int|
            0 <= i < store@.len() && #[trigger] store@[i] == sr.data.todo@),
        !has_id(store@, id@) ==> r.code == 404 && (r.body matches ResponseBody::Message(m)
            && m.status@ == "fail"@ && m.message@ == not_found_message(id@)),
{
    match store.get_by_id(&id) {
        Some(todo) => Reply {
            code: 200,
            body: ResponseBody::Single(
                SingleTodoResponse {
                    status: String::from_str("success"),
                    data: TodoData { todo },
                },
            ),
        },
        None => not_found_reply(&id),
    }
}

/// UpdateById: 200 with the updated record (present fields overwritten,
/// absent fields kept, `updatedAt` refreshed), or 404 with the store
/// untouched.
pub fn edit_todo_handler(
    store: &mut TodoStore,
    id: String,
    body: UpdateTodoSchema,
    now: u64,
) -> (r: Reply)
    requires
        old(store).wf(),
    ensures
        final(store).wf(),
        !has_id(old(store)@, id@) ==> r.code == 404 && *final(store) == *old(store) && (
        r.body matches ResponseBody::Message(m) && m.status@ == "fail"@ && m.message@
            == not_found_message(id@)),
        forall|i: int|
            0 <= i < old(store)@.len() && (#[trigger] old(store)@[i]).id == id@ ==> r.code == 200
                && final(store)@ == old(store)@.update(i, apply_patch(old(store)@[i], body@, now))
                && (r.body matches ResponseBody::Single(sr) && sr.status@ == "success"@
                && sr.data.todo@ == apply_patch(old(store)@[i], body@, now)),
{
    match store.update_by_id(&id, &body, now) {
        Ok(todo) => Reply {
            code: 200,
            body: ResponseBody::Single(
                SingleTodoResponse {
                    status: String::from_str("success"),
                    data: TodoData { todo },
                },
            ),
        },
        Err(_) => not_found_reply(&id),
    }
}

/// DeleteById: 204 with no body (the record is gone and later records moved
/// one position forward), or 404 with the store untouched.
pub fn delete_todo_handler(store: &mut TodoStore, id: String) -> (r: Reply)
    requires
        old(store).wf(),
    ensures
        final(store).wf(),
        !has_id(old(store)@, id@) ==> r.code == 404 && *final(store) == *old(store) && (
        r.body matches ResponseBody::Message(m) && m.status@ == "fail"@ && m.message@
            == not_found_message(id@)),
        has_id(old(store)@, id@) ==> r.code == 204 && (r.body matches ResponseBody::Empty),
        forall|i: int|
            0 <= i < old(store)@.len() && (#[trigger] old(store)@[i]).id == id@ ==> final(store)@
                == old(store)@.remove(i),
{
    match store.delete_by_id(&id) {
        Ok(_) => Reply { code: 204, body: ResponseBody::Empty },
        Err(_) => not_found_reply(&id),
    }
}

} // verus!
