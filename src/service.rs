use vstd::prelude::*;
use crate::table::{has_id, opt_view, merged, page, views, TableError, TodoTable};
use crate::todo::{
    is_todo_id, opt_or, resolve_pagination, todo_from_request, CreateTodo, Pagination, Todo,
    UpdateTodo, DEFAULT_LIMIT, DEFAULT_OFFSET,
};

verus! {

pub const STATUS_OK: u16 = 200;

pub const STATUS_CREATED: u16 = 201;

pub const STATUS_NOT_FOUND: u16 = 404;

pub const STATUS_INTERNAL_SERVER_ERROR: u16 = 500;

/// A failed request: status and plain-text body.
pub type ErrorReply = (u16, String);

/// A server error that carries the underlying diagnostic verbatim.
pub fn internal_error(message: String) -> (r: ErrorReply)
    ensures
        r.0 == STATUS_INTERNAL_SERVER_ERROR,
        r.1@ == message@,
{
    (STATUS_INTERNAL_SERVER_ERROR, message)
}

/// The reply to any request that no route matches.
pub fn handler_404() -> (r: ErrorReply)
    ensures
        r.0 == STATUS_NOT_FOUND,
        r.1@ == "404"@,
{
    (STATUS_NOT_FOUND, "404".to_string())
}

/// The error reply for a failed statement.
pub fn table_error(e: TableError) -> (r: ErrorReply)
    ensures
        r.0 == STATUS_INTERNAL_SERVER_ERROR,
        r.1@ == e.message_spec(),
{
    internal_error(e.message())
}

/// The offset and limit that a listing request reads with.
pub open spec fn requested_page(pagination: Option<Pagination>) -> (int, int) {
    match pagination {
        Some(p) => (opt_or(p.offset, DEFAULT_OFFSET) as int, opt_or(p.limit, DEFAULT_LIMIT) as int),
        None => (DEFAULT_OFFSET as int, DEFAULT_LIMIT as int),
    }
}

/// Lists the todos of the page that the request asks for (offset 0 and limit
/// 100 where not given). A negative offset or limit is a server error.
pub fn todos_index(table: &TodoTable, pagination: Option<Pagination>) -> (r: Result<Vec<Todo>, ErrorReply>)
    ensures
        requested_page(pagination).0 < 0 ==> r is Err && r->Err_0.0 == STATUS_INTERNAL_SERVER_ERROR
            && r->Err_0.1@ == TableError::NegativeOffset.message_spec(),
        requested_page(pagination).0 >= 0 && requested_page(pagination).1 < 0 ==> r is Err
            && r->Err_0.0 == STATUS_INTERNAL_SERVER_ERROR && r->Err_0.1@
            == TableError::NegativeLimit.message_spec(),
        requested_page(pagination).0 >= 0 && requested_page(pagination).1 >= 0 ==> r is Ok && views(
            r->Ok_0@,
        ) == page(table@, requested_page(pagination).0, requested_page(pagination).1),
{
    let (offset, limit) = resolve_pagination(pagination);
    match table.select(offset, limit) {
        Ok(rows) => Ok(rows),
        Err(e) => Err(table_error(e)),
    }
}

/// Inserts the record, replying 201 with it, or a server error where its id is taken.
pub fn insert_todo(table: &mut TodoTable, todo: Todo) -> (r: Result<(u16, Todo), ErrorReply>)
    requires
        old(table).well_formed(),
    ensures
        final(table).well_formed(),
        has_id(old(table)@, todo@.id) ==> r is Err && r->Err_0.0 == STATUS_INTERNAL_SERVER_ERROR
            && r->Err_0.1@ == TableError::DuplicateId.message_spec() && final(table)@ == old(table)@,
        !has_id(old(table)@, todo@.id) ==> r is Ok && r->Ok_0.0 == STATUS_CREATED && r->Ok_0.1@
            == todo@ && final(table)@ == old(table)@.push(todo@),
{
    let reply = todo.duplicate();
    match table.insert(todo) {
        Ok(_) => Ok((STATUS_CREATED, reply)),
        Err(e) => Err(table_error(e)),
    }
}

/// Creates a todo with a newly generated id and the requested description,
/// not completed, and replies 201 with it. Should the generated id already
/// be taken, the insert fails and the reply is a server error; so a table
/// that holds no id of the generated shape always gets the new row.
pub fn todo_create(table: &mut TodoTable, input: CreateTodo) -> (r: Result<(u16, Todo), ErrorReply>)
    requires
        old(table).well_formed(),
    ensures
        final(table).well_formed(),
        match r {
            Ok((status, todo)) => status == STATUS_CREATED && is_todo_id(todo.id@)
                && todo.description@ == input.description@ && !todo.completed && !has_id(
                old(table)@,
                todo.id@,
            ) && final(table)@ == old(table)@.push(todo@),
            Err((status, message)) => status == STATUS_INTERNAL_SERVER_ERROR && message@
                == TableError::DuplicateId.message_spec() && final(table)@ == old(table)@,
        },
        r is Err ==> exists|i: int|
            0 <= i < old(table)@.len() && is_todo_id(#[trigger] old(table)@[i].id),
{
    let todo = todo_from_request(input);
    insert_todo(table, todo)
}

/// Writes the fields that the request gives into the row with its id, and
/// keeps the others. Replies 200 with the id, whether or not a row matched.
pub fn todo_update(table: &mut TodoTable, input: UpdateTodo) -> (r: Result<(u16, String), ErrorReply>)
    requires
        old(table).well_formed(),
    ensures
        final(table).well_formed(),
        r is Ok && r->Ok_0.0 == STATUS_OK && r->Ok_0.1@ == input.id@,
        !has_id(old(table)@, input.id@) ==> final(table)@ == old(table)@,
        has_id(old(table)@, input.id@) ==> exists|i: int|
            0 <= i < old(table)@.len() && (#[trigger] old(table)@[i]).id == input.id@ && final(table)@
                == old(table)@.update(
                i,
                merged(old(table)@[i], opt_view(input.description), input.completed),
            ),
{
    let UpdateTodo { id, description, completed } = input;
    let _written = table.update(&id, description, completed);
    Ok((STATUS_OK, id))
}

/// Removes the row with the id, if any. Replies 200 with the id either way.
pub fn todo_delete(table: &mut TodoTable, id: String) -> (r: Result<(u16, String), ErrorReply>)
    requires
        old(table).well_formed(),
    ensures
        final(table).well_formed(),
        r is Ok && r->Ok_0.0 == STATUS_OK && r->Ok_0.1@ == id@,
        !has_id(final(table)@, id@),
        !has_id(old(table)@, id@) ==> final(table)@ == old(table)@,
        has_id(old(table)@, id@) ==> exists|i: int|
            0 <= i < old(table)@.len() && (#[trigger] old(table)@[i]).id == id@ && final(table)@
                == old(table)@.remove(i),
{
    let ghost before = table@;
    let _removed = table.delete(&id);
    proof {
        if has_id(before, id@) {
            let i = choose|i: int| 0 <= i < before.len() && (#[trigger] before[i]).id == id@
                && table@ == before.remove(i);
            crate::table::lemma_removed_id_is_gone(before, i, id@);
        }
    }
    Ok((STATUS_OK, id))
}

} // verus!
