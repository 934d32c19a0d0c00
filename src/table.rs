use vstd::prelude::*;
use crate::todo::{Todo, TodoView};

verus! {

/// Why a statement on the table fails.
#[derive(Debug, Clone, Copy, PartialEq, Eq)]
pub enum TableError {
    NegativeOffset,
    NegativeLimit,
    DuplicateId,
}

impl TableError {
    /// The model's own diagnostic for each failure; a database reports its own text.
    pub open spec fn message_spec(&self) -> Seq<char> {
        match self {
            TableError::NegativeOffset => "OFFSET must not be negative"@,
            TableError::NegativeLimit => "LIMIT must not be negative"@,
            TableError::DuplicateId => "duplicate id"@,
        }
    }

    /// The diagnostic text carried to the caller.
    pub fn message(&self) -> (r: String)
        ensures
            r@ == self.message_spec(),
    {
        match self {
            TableError::NegativeOffset => "OFFSET must not be negative".to_string(),
            TableError::NegativeLimit => "LIMIT must not be negative".to_string(),
            TableError::DuplicateId => "duplicate id".to_string(),
        }
    }
}

/// The statement whose meaning `TodoTable::select` models.
pub const SELECT_SQL: &'static str = "select id, description, completed from todo offset $1 limit $2";

/// The statement whose meaning `TodoTable::insert` models.
pub const INSERT_SQL: &'static str = "insert into todo (id, description, completed) values ($1, $2, $3)";

/// The statement whose meaning `TodoTable::update` models: a field that is
/// not given (null) keeps its value.
pub const UPDATE_SQL: &'static str = "update todo set description = coalesce($1, description), completed = coalesce($2, completed) where id = $3";

/// The statement whose meaning `TodoTable::delete` models.
pub const DELETE_SQL: &'static str = "delete from todo where id = $1";

/// Whether some row carries the id.
pub open spec fn has_id(rows: Seq<TodoView>, id: Seq<char>) -> bool {
    exists|i: int| 0 <= i < rows.len() && (#[trigger] rows[i]).id == id
}

/// The table's key: no two rows share an id.
pub open spec fn unique_ids(rows: Seq<TodoView>) -> bool {
    forall|i: int, j: int|
        0 <= i < rows.len() && 0 <= j < rows.len() && i != j ==> (#[trigger] rows[i]).id
            != (#[trigger] rows[j]).id
}

/// The rows that `offset .. offset + limit` selects, in table order.
pub open spec fn page(rows: Seq<TodoView>, offset: int, limit: int) -> Seq<TodoView> {
    if offset >= rows.len() || limit <= 0 {
        Seq::empty()
    } else if offset + limit >= rows.len() {
        rows.subrange(offset, rows.len() as int)
    } else {
        rows.subrange(offset, offset + limit)
    }
}

/// A row after a partial update: the fields that are given replace the old ones.
pub open spec fn merged(
    row: TodoView,
    description: Option<Seq<char>>,
    completed: Option<bool>,
) -> TodoView {
    TodoView {
        id: row.id,
        description: match description {
            Some(d) => d,
            None => row.description,
        },
        completed: match completed {
            Some(c) => c,
            None => row.completed,
        },
    }
}

pub open spec fn opt_view(o: Option<String>) -> Option<Seq<char>> {
    match o {
        Some(s) => Some(s@),
        None => None,
    }
}

pub open spec fn views(v: Seq<Todo>) -> Seq<TodoView> {
    v.map_values(|t: Todo| t@)
}

/// An in-memory reference model of the todo table, keyed by id. The service
/// in front of a database does not run it: it states, and lets one prove,
/// what the list, insert, update and delete statements mean. Rows are kept
/// in insertion order, which is one order a store may list them in; the
/// store itself promises none.
pub struct TodoTable {
    rows: Vec<Todo>,
}

impl View for TodoTable {
    type V = Seq<TodoView>;

    closed spec fn view(&self) -> Seq<TodoView> {
        views(self.rows@)
    }
}

impl TodoTable {
    pub open spec fn well_formed(&self) -> bool {
        unique_ids(self@)
    }

    /// An empty table.
    pub fn new() -> (r: TodoTable)
        ensures
            r@ == Seq::<TodoView>::empty(),
            r.well_formed(),
    {
        let r = TodoTable { rows: Vec::new() };
        assert(r@ =~= Seq::<TodoView>::empty());
        r
    }

    /// Number of rows.
    pub fn len(&self) -> (r: usize)
        ensures
            r == self@.len(),
    {
        self.rows.len()
    }

    /// The position of the row with the id, if any.
    fn position(&self, id: &String) -> (r: Option<usize>)
        ensures
            match r {
                Some(i) => i < self@.len() && self@[i as int].id == id@,
                None => !has_id(self@, id@),
            },
    {
        let mut i: usize = 0;
        while i < self.rows.len()
            invariant
                i <= self.rows@.len(),
                forall|k: int| 0 <= k < i ==> (#[trigger] self.rows@[k])@.id != id@,
            decreases self.rows@.len() - i,
        {
            if self.rows[i].id == *id {
                return Some(i);
            }
            i = i + 1;
        }
        assert forall|k: int| 0 <= k < self@.len() implies (#[trigger] self@[k]).id != id@ by {
            assert(self@[k] == self.rows@[k]@);
        }
        None
    }

    /// Reads `limit` rows starting at row `offset`; negative values are refused.
    pub fn select(&self, offset: i64, limit: i64) -> (r: Result<Vec<Todo>, TableError>)
        ensures
            offset < 0 ==> r == Err::<Vec<Todo>, TableError>(TableError::NegativeOffset),
            offset >= 0 && limit < 0 ==> r == Err::<Vec<Todo>, TableError>(TableError::NegativeLimit),
            offset >= 0 && limit >= 0 ==> r is Ok && views(r->Ok_0@) == page(self@, offset as int, limit as int),
    {
        if offset < 0 {
            return Err(TableError::NegativeOffset);
        }
        if limit < 0 {
            return Err(TableError::NegativeLimit);
        }
        let n = self.rows.len();
        let mut out: Vec<Todo> = Vec::new();
        if (offset as u64) >= (n as u64) || limit == 0 {
            assert(views(out@) =~= page(self@, offset as int, limit as int));
            return Ok(out);
        }
        let start = offset as usize;
        let end: usize = if (limit as u64) >= ((n - start) as u64) { n } else { start + limit as usize };
        let mut i: usize = start;
        while i < end
            invariant
                start <= i <= end <= n == self.rows@.len(),
                views(out@) =~= views(self.rows@).subrange(start as int, i as int),
            decreases end - i,
        {
            let t = self.rows[i].duplicate();
            let ghost prev = out@;
            out.push(t);
            assert(views(out@) =~= views(prev).push(self.rows@[i as int]@));
            i = i + 1;
        }
        assert(views(out@) =~= page(self@, offset as int, limit as int));
        Ok(out)
    }

    /// Adds a row at the end, unless its id is taken. Returns the number of rows written.
    pub fn insert(&mut self, todo: Todo) -> (r: Result<u64, TableError>)
        requires
            old(self).well_formed(),
        ensures
            final(self).well_formed(),
            has_id(old(self)@, todo@.id) ==> r == Err::<u64, TableError>(TableError::DuplicateId)
                && final(self)@ == old(self)@,
            !has_id(old(self)@, todo@.id) ==> r == Ok::<u64, TableError>(1) && final(self)@
                == old(self)@.push(todo@),
    {
        match self.position(&todo.id) {
            Some(_) => Err(TableError::DuplicateId),
            None => {
                let ghost before = self@;
                self.rows.push(todo);
                assert(self@ =~= before.push(todo@));
                Ok(1)
            },
        }
    }

    /// Writes the given fields into the row with the id. Returns the number of rows written.
    pub fn update(&mut self, id: &String, description: Option<String>, completed: Option<bool>) -> (r: u64)
        requires
            old(self).well_formed(),
        ensures
            final(self).well_formed(),
            !has_id(old(self)@, id@) ==> r == 0 && final(self)@ == old(self)@,
            has_id(old(self)@, id@) ==> r == 1 && exists|i: int|
                0 <= i < old(self)@.len() && (#[trigger] old(self)@[i]).id == id@ && final(self)@
                    == old(self)@.update(i, merged(old(self)@[i], opt_view(description), completed)),
    {
        match self.position(id) {
            None => 0,
            Some(i) => {
                let ghost before = self@;
                let ghost m = merged(before[i as int], opt_view(description), completed);
                let row = &self.rows[i];
                let new_description = match description {
                    Some(d) => d,
                    None => row.description.clone(),
                };
                let new_completed = match completed {
                    Some(c) => c,
                    None => row.completed,
                };
                let new_row = Todo { id: row.id.clone(), description: new_description, completed: new_completed };
                self.rows.set(i, new_row);
                assert(self@ =~= before.update(i as int, m));
                assert(before[i as int].id == id@);
                1
            },
        }
    }

    /// Removes the row with the id, if there is one. Returns the number of rows removed.
    pub fn delete(&mut self, id: &String) -> (r: u64)
        requires
            old(self).well_formed(),
        ensures
            final(self).well_formed(),
            !has_id(old(self)@, id@) ==> r == 0 && final(self)@ == old(self)@,
            has_id(old(self)@, id@) ==> r == 1 && exists|i: int|
                0 <= i < old(self)@.len() && (#[trigger] old(self)@[i]).id == id@ && final(self)@
                    == old(self)@.remove(i),
    {
        match self.position(id) {
            None => 0,
            Some(i) => {
                let ghost before = self@;
                self.rows.remove(i);
                assert(self@ =~= before.remove(i as int));
                assert(before[i as int].id == id@);
                1
            },
        }
    }
}

/// A row that was inserted is read back by any listing from the start whose
/// limit covers the whole table.
pub proof fn lemma_inserted_row_is_listed(rows: Seq<TodoView>, todo: TodoView, limit: int)
    requires
        limit >= rows.len() + 1,
    ensures
        page(rows.push(todo), 0, limit).contains(todo),
{
    let after = rows.push(todo);
    assert(page(after, 0, limit) =~= after);
    assert(after[rows.len() as int] == todo);
}

/// Once the row with an id is removed, no row carries that id, so removing
/// it again finds nothing and leaves the table as it is.
pub proof fn lemma_removed_id_is_gone(rows: Seq<TodoView>, i: int, id: Seq<char>)
    requires
        unique_ids(rows),
        0 <= i < rows.len(),
        rows[i].id == id,
    ensures
        !has_id(rows.remove(i), id),
        unique_ids(rows.remove(i)),
{
    let after = rows.remove(i);
    assert forall|k: int| 0 <= k < after.len() implies (#[trigger] after[k]).id != id by {
        if k < i {
            assert(after[k] == rows[k]);
        } else {
            assert(after[k] == rows[k + 1]);
        }
    }
}

/// A listing with limit zero, or starting past the last row, is empty.
pub proof fn lemma_empty_pages(rows: Seq<TodoView>, offset: int, limit: int)
    ensures
        page(rows, offset, 0) == Seq::<TodoView>::empty(),
        offset >= rows.len() ==> page(rows, offset, limit) == Seq::<TodoView>::empty(),
{
}

/// An update that names only the id leaves the row, and so the table, unchanged.
pub proof fn lemma_update_without_fields_keeps_row(rows: Seq<TodoView>, i: int)
    requires
        0 <= i < rows.len(),
    ensures
        merged(rows[i], None, None) == rows[i],
        rows.update(i, merged(rows[i], None, None)) == rows,
{
    assert(rows.update(i, merged(rows[i], None, None)) =~= rows);
}

} // verus!
