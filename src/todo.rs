use vstd::prelude::*;

verus! {

/// A stored todo record.
#[derive(Debug, Clone)]
pub struct Todo {
    pub id: String,
    pub description: String,
    pub completed: bool,
}

/// The mathematical value of a `Todo`.
pub ghost struct TodoView {
    pub id: Seq<char>,
    pub description: Seq<char>,
    pub completed: bool,
}

impl View for Todo {
    type V = TodoView;

    open spec fn view(&self) -> TodoView {
        TodoView { id: self.id@, description: self.description@, completed: self.completed }
    }
}

impl Todo {
    /// A copy of this record, field for field.
    pub fn duplicate(&self) -> (r: Todo)
        ensures
            r@ == self@,
    {
        Todo { id: self.id.clone(), description: self.description.clone(), completed: self.completed }
    }
}

/// The body of a create request.
#[derive(Debug, Clone)]
pub struct CreateTodo {
    pub description: String,
}

/// The body of an update request: only the fields that are present are written.
#[derive(Debug, Clone)]
pub struct UpdateTodo {
    pub id: String,
    pub description: Option<String>,
    pub completed: Option<bool>,
}

/// Query parameters of the listing.
#[derive(Debug, Clone, Copy, Default)]
pub struct Pagination {
    pub offset: Option<i64>,
    pub limit: Option<i64>,
}

pub const DEFAULT_OFFSET: i64 = 0;

pub const DEFAULT_LIMIT: i64 = 100;

pub open spec fn opt_or<T>(o: Option<T>, d: T) -> T {
    match o {
        Some(v) => v,
        None => d,
    }
}

impl Pagination {
    /// The offset to read from: the one given, else 0.
    pub fn offset_or_default(&self) -> (r: i64)
        ensures
            r == opt_or(self.offset, DEFAULT_OFFSET),
    {
        match self.offset {
            Some(o) => o,
            None => DEFAULT_OFFSET,
        }
    }

    /// The most rows to return: the limit given, else 100.
    pub fn limit_or_default(&self) -> (r: i64)
        ensures
            r == opt_or(self.limit, DEFAULT_LIMIT),
    {
        match self.limit {
            Some(l) => l,
            None => DEFAULT_LIMIT,
        }
    }
}

/// The pagination that applies to a request: absent or unreadable query
/// parameters count as no parameters at all.
pub fn resolve_pagination(pagination: Option<Pagination>) -> (r: (i64, i64))
    ensures
        r == (match pagination {
            Some(p) => (opt_or(p.offset, DEFAULT_OFFSET), opt_or(p.limit, DEFAULT_LIMIT)),
            None => (DEFAULT_OFFSET, DEFAULT_LIMIT),
        }),
{
    match pagination {
        Some(p) => (p.offset_or_default(), p.limit_or_default()),
        None => (DEFAULT_OFFSET, DEFAULT_LIMIT),
    }
}

pub open spec fn is_lower_hex_digit(c: char) -> bool {
    ('0' <= c && c <= '9') || ('a' <= c && c <= 'f')
}

/// The shape of a generated identifier: a version-4 UUID in simple form,
/// 32 lowercase hexadecimal digits, the version digit `4` at position 12 and
/// a variant digit `8`, `9`, `a` or `b` at position 16.
pub open spec fn is_todo_id(s: Seq<char>) -> bool {
    &&& s.len() == 32
    &&& forall|i: int| 0 <= i < s.len() ==> is_lower_hex_digit(#[trigger] s[i])
    &&& s[12] == '4'
    &&& (s[16] == '8' || s[16] == '9' || s[16] == 'a' || s[16] == 'b')
}

/// Relies on uuid's `Uuid::new_v4` and the `Display` of its `Simple` form:
/// a random UUID whose version and variant bits `new_v4` fixes by a mask,
/// written big-endian as 32 lowercase hex digits, no hyphens.
#[verifier::external_body]
fn random_simple_uuid() -> (r: String)
    ensures
        is_todo_id(r@),
{
    uuid::Uuid::new_v4().simple().to_string()
}

/// A fresh record: the given id and description, not completed.
pub fn new_todo(id: String, description: String) -> (r: Todo)
    ensures
        r@ == (TodoView { id: id@, description: description@, completed: false }),
{
    Todo { id, description, completed: false }
}

/// The record that a create request makes: a newly generated id, the
/// requested description, not completed.
pub fn todo_from_request(input: CreateTodo) -> (r: Todo)
    ensures
        is_todo_id(r.id@),
        r.description@ == input.description@,
        !r.completed,
{
    let id = random_simple_uuid();
    new_todo(id, input.description)
}

} // verus!
