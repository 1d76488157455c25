//! The embedded relational store, modelled row for row.
//!
//! Two tables, `todos` and `users`, each with an autoincrementing id seed
//! that starts at 1 and never steps back, so an id is never reused even
//! after a delete.  Rows keep insertion order, which is the order every
//! listing returns.  A logical foreign key from todos to users is declared
//! at this level for joins but deliberately not enforced on insertion,
//! matching the schema it models.

use vstd::prelude::*;
use crate::text::has_substring;
use crate::todos::{NewTodoItem, TodoItem};
use crate::user::{NewUser, PublicUser, User};

verus! {

/// Every to-do id is at least 1 and below `bound`.
pub open spec fn todo_ids_below(rows: Seq<TodoItem>, bound: int) -> bool {
    forall|i: int| #![trigger rows[i]] 0 <= i < rows.len() ==> 1 <= rows[i].id && rows[i].id < bound
}

/// To-do ids grow strictly along the table: insertion order, no duplicates.
pub open spec fn todo_ids_increasing(rows: Seq<TodoItem>) -> bool {
    forall|i: int, j: int| #![trigger rows[i], rows[j]]
        0 <= i < j < rows.len() ==> rows[i].id < rows[j].id
}

/// Every user id is at least 1 and below `bound`.
pub open spec fn user_ids_below(rows: Seq<User>, bound: int) -> bool {
    forall|i: int| #![trigger rows[i]] 0 <= i < rows.len() ==> 1 <= rows[i].id && rows[i].id < bound
}

/// User ids grow strictly along the table.
pub open spec fn user_ids_increasing(rows: Seq<User>) -> bool {
    forall|i: int, j: int| #![trigger rows[i], rows[j]]
        0 <= i < j < rows.len() ==> rows[i].id < rows[j].id
}

/// Some row carries the given to-do id.
pub open spec fn has_todo_with_id(rows: Seq<TodoItem>, id: i32) -> bool {
    exists|i: int| 0 <= i < rows.len() && (#[trigger] rows[i]).id == id
}

/// Some row carries the given user id.
pub open spec fn has_user_with_id(rows: Seq<User>, id: i32) -> bool {
    exists|i: int| 0 <= i < rows.len() && (#[trigger] rows[i]).id == id
}

/// The search condition: the row belongs to `user_id`, and when a needle is
/// given its characters occur contiguously in the title.
pub open spec fn matches_search(t: TodoItem, user_id: i32, query: Option<Seq<char>>) -> bool {
    t.user_id == user_id && match query {
        Some(q) => has_substring(t.title@, q),
        None => true,
    }
}

/// The search condition as a predicate on rows.
pub open spec fn search_pred(user_id: i32, query: Option<Seq<char>>) -> spec_fn(TodoItem) -> bool {
    |t: TodoItem| matches_search(t, user_id, query)
}

/// What a search returns: the matching rows, in stored order.
pub open spec fn search_results(
    rows: Seq<TodoItem>,
    user_id: i32,
    query: Option<Seq<char>>,
) -> Seq<TodoItem> {
    rows.filter(search_pred(user_id, query))
}

/// The rows that survive deleting `id`.
pub open spec fn keep_other_ids(id: i32) -> spec_fn(TodoItem) -> bool {
    |t: TodoItem| t.id != id
}

/// The table after deleting `id`: all other rows, order kept.
pub open spec fn without_todo(rows: Seq<TodoItem>, id: i32) -> Seq<TodoItem> {
    rows.filter(keep_other_ids(id))
}

/// The narrow update projection: on the matching row only the title and the
/// completion flag move; every other column keeps its stored value.
pub open spec fn apply_update(id: i32, title: String, completed: bool) -> spec_fn(
    TodoItem,
) -> TodoItem {
    |t: TodoItem|
        if t.id == id {
            TodoItem { title: title, completed: completed, ..t }
        } else {
            t
        }
}

/// Completion: the matching row's flag becomes true, nothing else moves.
pub open spec fn apply_complete(id: i32) -> spec_fn(TodoItem) -> TodoItem {
    |t: TodoItem|
        if t.id == id {
            TodoItem { completed: true, ..t }
        } else {
            t
        }
}

/// The row that inserting `new` under `id` persists.
pub open spec fn inserted_todo(new: NewTodoItem, id: i32) -> TodoItem {
    TodoItem {
        id: id,
        title: new.title,
        description: new.description,
        priority: new.priority,
        due_date: new.due_date,
        completed: new.completed,
        user_id: new.user_id,
    }
}

/// The row that inserting `new` under `id` persists.
pub open spec fn inserted_user(new: NewUser, id: i32) -> User {
    User { id: id, username: new.username, password_hash: new.password_hash }
}

/// One filtering step: extending the scanned prefix by one row extends the
/// filtered prefix by that row exactly when the predicate keeps it.
proof fn lemma_filter_take_step<A>(rows: Seq<A>, pred: spec_fn(A) -> bool, i: int)
    requires
        0 <= i < rows.len(),
    ensures
        rows.take(i + 1).filter(pred) == (if pred(rows[i]) {
            rows.take(i).filter(pred).push(rows[i])
        } else {
            rows.take(i).filter(pred)
        }),
{
    reveal(Seq::filter);
    assert(rows.take(i + 1).drop_last() =~= rows.take(i));
    assert(rows.take(i + 1).last() == rows[i]);
}

/// Appending a row that carries the current seed keeps the id discipline.
proof fn lemma_todo_push_wf(rows: Seq<TodoItem>, r: TodoItem, seed: int)
    requires
        todo_ids_below(rows, seed),
        todo_ids_increasing(rows),
        1 <= r.id,
        r.id == seed,
    ensures
        todo_ids_below(rows.push(r), seed + 1),
        todo_ids_increasing(rows.push(r)),
{
    let grown = rows.push(r);
    assert forall|i: int| 0 <= i < grown.len() implies 1 <= (#[trigger] grown[i]).id && grown[i].id
        < seed + 1 by {
        if i < rows.len() {
            assert(grown[i] == rows[i]);
        } else {
            assert(grown[i] == r);
        }
    }
    assert forall|i: int, j: int| #![trigger grown[i], grown[j]]
        0 <= i < j < grown.len() implies grown[i].id < grown[j].id by {
        assert(grown[i] == rows[i]);
        if j < rows.len() {
            assert(grown[j] == rows[j]);
        } else {
            assert(grown[j] == r);
        }
    }
}

/// Appending a row that carries the current seed keeps the id discipline.
proof fn lemma_user_push_wf(rows: Seq<User>, r: User, seed: int)
    requires
        user_ids_below(rows, seed),
        user_ids_increasing(rows),
        1 <= r.id,
        r.id == seed,
    ensures
        user_ids_below(rows.push(r), seed + 1),
        user_ids_increasing(rows.push(r)),
{
    let grown = rows.push(r);
    assert forall|i: int| 0 <= i < grown.len() implies 1 <= (#[trigger] grown[i]).id && grown[i].id
        < seed + 1 by {
        if i < rows.len() {
            assert(grown[i] == rows[i]);
        } else {
            assert(grown[i] == r);
        }
    }
    assert forall|i: int, j: int| #![trigger grown[i], grown[j]]
        0 <= i < j < grown.len() implies grown[i].id < grown[j].id by {
        assert(grown[i] == rows[i]);
        if j < rows.len() {
            assert(grown[j] == rows[j]);
        } else {
            assert(grown[j] == r);
        }
    }
}

/// Filtering keeps the id discipline: the kept rows are a subsequence.
proof fn lemma_filter_keeps_todo_order(rows: Seq<TodoItem>, pred: spec_fn(TodoItem) -> bool, bound: int)
    requires
        todo_ids_below(rows, bound),
        todo_ids_increasing(rows),
    ensures
        todo_ids_below(rows.filter(pred), bound),
        todo_ids_increasing(rows.filter(pred)),
    decreases rows.len(),
{
    reveal(Seq::filter);
    if rows.len() > 0 {
        let prefix = rows.drop_last();
        let last = rows.last();
        assert forall|i: int| 0 <= i < prefix.len() implies 1 <= (#[trigger] prefix[i]).id
            && prefix[i].id < bound by {
            assert(prefix[i] == rows[i]);
        }
        assert forall|i: int, j: int| #![trigger prefix[i], prefix[j]]
            0 <= i < j < prefix.len() implies prefix[i].id < prefix[j].id by {
            assert(prefix[i] == rows[i]);
            assert(prefix[j] == rows[j]);
        }
        lemma_filter_keeps_todo_order(prefix, pred, bound);
        if pred(last) {
            let kept = prefix.filter(pred);
            assert forall|i: int| 0 <= i < kept.len() implies (#[trigger] kept[i]).id
                < last.id by {
                assert(kept.contains(kept[i]));
                prefix.lemma_filter_contains_rev(pred, kept[i]);
                let j = choose|j: int| 0 <= j < prefix.len() && prefix[j] == kept[i];
                assert(prefix[j] == rows[j]);
                assert(rows[j].id < last.id);
            }
            let grown = kept.push(last);
            assert(rows.filter(pred) == grown);
            assert forall|i: int| 0 <= i < grown.len() implies 1 <= (#[trigger] grown[i]).id
                && grown[i].id < bound by {
                if i < kept.len() {
                    assert(grown[i] == kept[i]);
                } else {
                    assert(grown[i] == last);
                    assert(rows[rows.len() - 1] == last);
                }
            }
            assert forall|i: int, j: int| #![trigger grown[i], grown[j]]
                0 <= i < j < grown.len() implies grown[i].id < grown[j].id by {
                assert(grown[i] == kept[i]);
                if j < kept.len() {
                    assert(grown[j] == kept[j]);
                } else {
                    assert(grown[j] == last);
                }
            }
        }
    }
}

/// A mapping that never touches ids keeps the id discipline.
proof fn lemma_map_keeps_todo_order(rows: Seq<TodoItem>, f: spec_fn(TodoItem) -> TodoItem, bound: int)
    requires
        forall|t: TodoItem| (#[trigger] f(t)).id == t.id,
        todo_ids_below(rows, bound),
        todo_ids_increasing(rows),
    ensures
        todo_ids_below(rows.map_values(f), bound),
        todo_ids_increasing(rows.map_values(f)),
{
    let mapped = rows.map_values(f);
    assert forall|i: int| 0 <= i < mapped.len() implies 1 <= (#[trigger] mapped[i]).id
        && mapped[i].id < bound by {
        assert(mapped[i] == f(rows[i]));
        assert(rows[i] == rows[i]);
    }
    assert forall|i: int, j: int| #![trigger mapped[i], mapped[j]]
        0 <= i < j < mapped.len() implies mapped[i].id < mapped[j].id by {
        assert(mapped[i] == f(rows[i]));
        assert(mapped[j] == f(rows[j]));
    }
}

/// The single embedded store behind the connection pool.
pub struct Store {
    todos: Vec<TodoItem>,
    users: Vec<User>,
    next_todo_id: i32,
    next_user_id: i32,
}

impl Store {
    /// The `todos` table, in stored (insertion) order.
    pub closed spec fn todo_rows(&self) -> Seq<TodoItem> {
        self.todos@
    }

    /// The `users` table, in stored (insertion) order.
    pub closed spec fn user_rows(&self) -> Seq<User> {
        self.users@
    }

    /// The id the next to-do insertion will assign.
    pub closed spec fn todo_id_seed(&self) -> int {
        self.next_todo_id as int
    }

    /// The id the next user insertion will assign.
    pub closed spec fn user_id_seed(&self) -> int {
        self.next_user_id as int
    }

    /// The store's id discipline: both seeds start at 1 and stay in range,
    /// and each table's ids grow strictly in insertion order, all below the
    /// seed.  Constructors establish it and every operation preserves it.
    pub open spec fn wf(&self) -> bool {
        &&& 1 <= self.todo_id_seed() <= i32::MAX
        &&& 1 <= self.user_id_seed() <= i32::MAX
        &&& todo_ids_below(self.todo_rows(), self.todo_id_seed())
        &&& todo_ids_increasing(self.todo_rows())
        &&& user_ids_below(self.user_rows(), self.user_id_seed())
        &&& user_ids_increasing(self.user_rows())
    }

    /// An empty store: no rows, both id seeds at 1.
    pub fn new() -> (s: Store)
        ensures
            s.wf(),
            s.todo_rows() == Seq::<TodoItem>::empty(),
            s.user_rows() == Seq::<User>::empty(),
            s.todo_id_seed() == 1,
            s.user_id_seed() == 1,
    {
        Store { todos: Vec::new(), users: Vec::new(), next_todo_id: 1, next_user_id: 1 }
    }

    /// Whether the engine can still assign a fresh to-do id.
    pub fn can_assign_todo_id(&self) -> (b: bool)
        ensures
            b == (self.todo_id_seed() < i32::MAX),
    {
        self.next_todo_id < i32::MAX
    }

    /// Whether the engine can still assign a fresh user id.
    pub fn can_assign_user_id(&self) -> (b: bool)
        ensures
            b == (self.user_id_seed() < i32::MAX),
    {
        self.next_user_id < i32::MAX
    }

    /// INSERT INTO todos: appends the row under the next id and advances
    /// the seed.  The engine checks nothing here — field rules run above,
    /// and `user_id` is not checked against `users` (the foreign key is
    /// declared, not enforced).
    pub fn insert_todo(&mut self, new: NewTodoItem) -> (id: i32)
        requires
            old(self).wf(),
            old(self).todo_id_seed() < i32::MAX,
        ensures
            final(self).wf(),
            id as int == old(self).todo_id_seed(),
            final(self).todo_rows() == old(self).todo_rows().push(inserted_todo(new, id)),
            final(self).todo_id_seed() == old(self).todo_id_seed() + 1,
            final(self).user_rows() == old(self).user_rows(),
            final(self).user_id_seed() == old(self).user_id_seed(),
    {
        let id = self.next_todo_id;
        self.next_todo_id = self.next_todo_id + 1;
        let row = TodoItem {
            id,
            title: new.title,
            description: new.description,
            priority: new.priority,
            due_date: new.due_date,
            completed: new.completed,
            user_id: new.user_id,
        };
        proof {
            lemma_todo_push_wf(self.todos@, row, id as int);
        }
        self.todos.push(row);
        id
    }

    /// SELECT 1 FROM todos WHERE id: whether a row with this id exists.
    pub fn contains_todo(&self, id: i32) -> (b: bool)
        ensures
            b == has_todo_with_id(self.todo_rows(), id),
    {
        let mut i: usize = 0;
        while i < self.todos.len()
            invariant
                0 <= i <= self.todos@.len(),
                forall|j: int| 0 <= j < i ==> (#[trigger] self.todos@[j]).id != id,
            decreases self.todos@.len() - i,
        {
            if self.todos[i].id == id {
                proof {
                    assert((self.todos@[i as int]).id == id);
                }
                return true;
            }
            i += 1;
        }
        proof {
            if has_todo_with_id(self.todos@, id) {
                let j = choose|j: int| 0 <= j < self.todos@.len() && (#[trigger] self.todos@[j]).id
                    == id;
                assert(false);
            }
        }
        false
    }

    /// DELETE FROM todos WHERE id: removes the matching row and reports how
    /// many rows went.  A missing id is not an error: zero rows affected.
    pub fn delete_todo_rows(&mut self, id: i32) -> (n: usize)
        requires
            old(self).wf(),
        ensures
            final(self).wf(),
            final(self).todo_rows() == without_todo(old(self).todo_rows(), id),
            n <= 1,
            (n == 1) <==> has_todo_with_id(old(self).todo_rows(), id),
            final(self).todo_id_seed() == old(self).todo_id_seed(),
            final(self).user_rows() == old(self).user_rows(),
            final(self).user_id_seed() == old(self).user_id_seed(),
    {
        let mut kept: Vec<TodoItem> = Vec::new();
        let mut found = false;
        let mut i: usize = 0;
        while i < self.todos.len()
            invariant
                *self == *old(self),
                old(self).wf(),
                0 <= i <= self.todos@.len(),
                kept@ == self.todos@.take(i as int).filter(keep_other_ids(id)),
                found <==> has_todo_with_id(self.todos@.take(i as int), id),
            decreases self.todos@.len() - i,
        {
            let t = &self.todos[i];
            proof {
                lemma_filter_take_step(self.todos@, keep_other_ids(id), i as int);
            }
            if t.id == id {
                proof {
                    if found {
                        let j = choose|j: int|
                            0 <= j < self.todos@.take(i as int).len() && (#[trigger] self.todos@.take(
                                i as int,
                            )[j]).id == id;
                        assert(self.todos@[j].id < self.todos@[i as int].id);
                    }
                    assert((self.todos@.take(i as int + 1)[i as int]).id == id);
                }
                found = true;
            } else {
                kept.push(t.duplicate());
                proof {
                    if has_todo_with_id(self.todos@.take(i as int + 1), id) {
                        let j = choose|j: int|
                            0 <= j < self.todos@.take(i as int + 1).len() && (#[trigger] self.todos@.take(
                                i as int + 1,
                            )[j]).id == id;
                        assert(j < i as int + 1);
                        if j == i as int {
                            assert(false);
                        } else {
                            assert((self.todos@.take(i as int)[j]).id == id);
                        }
                    }
                }
            }
            i += 1;
        }
        proof {
            assert(self.todos@.take(self.todos@.len() as int) =~= self.todos@);
            lemma_filter_keeps_todo_order(
                self.todos@,
                keep_other_ids(id),
                self.next_todo_id as int,
            );
        }
        self.todos = kept;
        if found {
            1
        } else {
            0
        }
    }

    /// UPDATE todos SET title, completed WHERE id: the narrow projection —
    /// only those two columns move, whatever else a caller supplied.
    /// Reports rows affected; a missing id is zero, not an error.
    pub fn update_todo_rows(&mut self, id: i32, title: String, completed: bool) -> (n: usize)
        requires
            old(self).wf(),
        ensures
            final(self).wf(),
            final(self).todo_rows() == old(self).todo_rows().map_values(
                apply_update(id, title, completed),
            ),
            n <= 1,
            (n == 1) <==> has_todo_with_id(old(self).todo_rows(), id),
            final(self).todo_id_seed() == old(self).todo_id_seed(),
            final(self).user_rows() == old(self).user_rows(),
            final(self).user_id_seed() == old(self).user_id_seed(),
    {
        let mut updated: Vec<TodoItem> = Vec::new();
        let mut found = false;
        let mut i: usize = 0;
        while i < self.todos.len()
            invariant
                *self == *old(self),
                old(self).wf(),
                0 <= i <= self.todos@.len(),
                updated@.len() == i,
                forall|k: int|
                    0 <= k < i ==> #[trigger] updated@[k] == apply_update(id, title, completed)(
                        self.todos@[k],
                    ),
                found <==> has_todo_with_id(self.todos@.take(i as int), id),
            decreases self.todos@.len() - i,
        {
            let t = &self.todos[i];
            if t.id == id {
                proof {
                    if found {
                        let j = choose|j: int|
                            0 <= j < self.todos@.take(i as int).len() && (#[trigger] self.todos@.take(
                                i as int,
                            )[j]).id == id;
                        assert(self.todos@[j].id < self.todos@[i as int].id);
                    }
                    assert((self.todos@.take(i as int + 1)[i as int]).id == id);
                }
                updated.push(
                    TodoItem {
                        id: t.id,
                        title: title.clone(),
                        description: match &t.description {
                            Some(d) => Some(d.clone()),
                            None => None,
                        },
                        priority: t.priority,
                        due_date: t.due_date,
                        completed,
                        user_id: t.user_id,
                    },
                );
                found = true;
            } else {
                updated.push(t.duplicate());
                proof {
                    if has_todo_with_id(self.todos@.take(i as int + 1), id) {
                        let j = choose|j: int|
                            0 <= j < self.todos@.take(i as int + 1).len() && (#[trigger] self.todos@.take(
                                i as int + 1,
                            )[j]).id == id;
                        if j == i as int {
                            assert(false);
                        } else {
                            assert((self.todos@.take(i as int)[j]).id == id);
                        }
                    }
                }
            }
            i += 1;
        }
        proof {
            assert(self.todos@.take(self.todos@.len() as int) =~= self.todos@);
            assert(updated@ =~= self.todos@.map_values(apply_update(id, title, completed)));
            lemma_map_keeps_todo_order(
                self.todos@,
                apply_update(id, title, completed),
                self.next_todo_id as int,
            );
        }
        self.todos = updated;
        if found {
            1
        } else {
            0
        }
    }

    /// UPDATE todos SET completed = true WHERE id: flips the matching row's
    /// flag.  Reports rows affected; a missing id is zero, not an error.
    pub fn complete_todo_rows(&mut self, id: i32) -> (n: usize)
        requires
            old(self).wf(),
        ensures
            final(self).wf(),
            final(self).todo_rows() == old(self).todo_rows().map_values(apply_complete(id)),
            n <= 1,
            (n == 1) <==> has_todo_with_id(old(self).todo_rows(), id),
            final(self).todo_id_seed() == old(self).todo_id_seed(),
            final(self).user_rows() == old(self).user_rows(),
            final(self).user_id_seed() == old(self).user_id_seed(),
    {
        let mut updated: Vec<TodoItem> = Vec::new();
        let mut found = false;
        let mut i: usize = 0;
        while i < self.todos.len()
            invariant
                *self == *old(self),
                old(self).wf(),
                0 <= i <= self.todos@.len(),
                updated@.len() == i,
                forall|k: int|
                    0 <= k < i ==> #[trigger] updated@[k] == apply_complete(id)(self.todos@[k]),
                found <==> has_todo_with_id(self.todos@.take(i as int), id),
            decreases self.todos@.len() - i,
        {
            let t = &self.todos[i];
            if t.id == id {
                proof {
                    if found {
                        let j = choose|j: int|
                            0 <= j < self.todos@.take(i as int).len() && (#[trigger] self.todos@.take(
                                i as int,
                            )[j]).id == id;
                        assert(self.todos@[j].id < self.todos@[i as int].id);
                    }
                    assert((self.todos@.take(i as int + 1)[i as int]).id == id);
                }
                updated.push(
                    TodoItem {
                        id: t.id,
                        title: t.title.clone(),
                        description: match &t.description {
                            Some(d) => Some(d.clone()),
                            None => None,
                        },
                        priority: t.priority,
                        due_date: t.due_date,
                        completed: true,
                        user_id: t.user_id,
                    },
                );
                found = true;
            } else {
                updated.push(t.duplicate());
                proof {
                    if has_todo_with_id(self.todos@.take(i as int + 1), id) {
                        let j = choose|j: int|
                            0 <= j < self.todos@.take(i as int + 1).len() && (#[trigger] self.todos@.take(
                                i as int + 1,
                            )[j]).id == id;
                        if j == i as int {
                            assert(false);
                        } else {
                            assert((self.todos@.take(i as int)[j]).id == id);
                        }
                    }
                }
            }
            i += 1;
        }
        proof {
            assert(self.todos@.take(self.todos@.len() as int) =~= self.todos@);
            assert(updated@ =~= self.todos@.map_values(apply_complete(id)));
            lemma_map_keeps_todo_order(
                self.todos@,
                apply_complete(id),
                self.next_todo_id as int,
            );
        }
        self.todos = updated;
        if found {
            1
        } else {
            0
        }
    }

    /// SELECT * FROM todos: every row, in stored order.
    pub fn select_todos(&self) -> (r: Vec<TodoItem>)
        ensures
            r@ == self.todo_rows(),
    {
        let mut out: Vec<TodoItem> = Vec::new();
        let mut i: usize = 0;
        while i < self.todos.len()
            invariant
                0 <= i <= self.todos@.len(),
                out@ == self.todos@.take(i as int),
            decreases self.todos@.len() - i,
        {
            out.push(self.todos[i].duplicate());
            proof {
                assert(self.todos@.take(i as int + 1) =~= self.todos@.take(i as int).push(
                    self.todos@[i as int],
                ));
            }
            i += 1;
        }
        proof {
            assert(self.todos@.take(self.todos@.len() as int) =~= self.todos@);
        }
        out
    }

    /// SELECT * FROM todos WHERE user_id [AND title contains the needle]:
    /// the rows the given user owns, narrowed by the optional needle, in
    /// stored order.
    pub fn select_todos_matching(&self, user_id: i32, query: Option<&str>) -> (r: Vec<TodoItem>)
        ensures
            r@ == search_results(self.todo_rows(), user_id, str_query_view(query)),
    {
        let ghost qv = str_query_view(query);
        let mut out: Vec<TodoItem> = Vec::new();
        let mut i: usize = 0;
        while i < self.todos.len()
            invariant
                0 <= i <= self.todos@.len(),
                qv == str_query_view(query),
                out@ == self.todos@.take(i as int).filter(search_pred(user_id, qv)),
            decreases self.todos@.len() - i,
        {
            let t = &self.todos[i];
            let keep = if t.user_id == user_id {
                match query {
                    Some(q) => crate::text::str_contains(t.title.as_str(), q),
                    None => true,
                }
            } else {
                false
            };
            proof {
                lemma_filter_take_step(self.todos@, search_pred(user_id, qv), i as int);
                assert(keep == matches_search(self.todos@[i as int], user_id, qv));
            }
            if keep {
                out.push(t.duplicate());
            }
            i += 1;
        }
        proof {
            assert(self.todos@.take(self.todos@.len() as int) =~= self.todos@);
        }
        out
    }

    /// INSERT INTO users: appends the row under the next id and advances
    /// the seed.  The username and hash are persisted verbatim.
    pub fn insert_user(&mut self, new: NewUser) -> (id: i32)
        requires
            old(self).wf(),
            old(self).user_id_seed() < i32::MAX,
        ensures
            final(self).wf(),
            id as int == old(self).user_id_seed(),
            final(self).user_rows() == old(self).user_rows().push(inserted_user(new, id)),
            final(self).user_id_seed() == old(self).user_id_seed() + 1,
            final(self).todo_rows() == old(self).todo_rows(),
            final(self).todo_id_seed() == old(self).todo_id_seed(),
    {
        let id = self.next_user_id;
        self.next_user_id = self.next_user_id + 1;
        let row = User { id, username: new.username, password_hash: new.password_hash };
        proof {
            lemma_user_push_wf(self.users@, row, id as int);
        }
        self.users.push(row);
        id
    }

    /// SELECT id, username FROM users WHERE id: the password-free read.
    /// The hash column is not in the result set at all — the returned type
    /// has no place to put it.
    pub fn select_user_public(&self, id: i32) -> (r: Option<PublicUser>)
        ensures
            r is Some <==> has_user_with_id(self.user_rows(), id),
            (r matches Some(p) ==> exists|i: int|
                0 <= i < self.user_rows().len() && (#[trigger] self.user_rows()[i]).id == id
                    && p.id == id && p.username == self.user_rows()[i].username),
    {
        let mut i: usize = 0;
        while i < self.users.len()
            invariant
                0 <= i <= self.users@.len(),
                forall|j: int| 0 <= j < i ==> (#[trigger] self.users@[j]).id != id,
            decreases self.users@.len() - i,
        {
            let u = &self.users[i];
            if u.id == id {
                proof {
                    assert((self.users@[i as int]).id == id);
                }
                return Some(PublicUser { id: u.id, username: u.username.clone() });
            }
            i += 1;
        }
        proof {
            if has_user_with_id(self.users@, id) {
                let j = choose|j: int| 0 <= j < self.users@.len() && (#[trigger] self.users@[j]).id
                    == id;
                assert(false);
            }
        }
        None
    }
}

/// The view of an optional borrowed needle.
pub open spec fn str_query_view(q: Option<&str>) -> Option<Seq<char>> {
    match q {
        Some(s) => Some(s@),
        None => None,
    }
}

/// The view of an optional owned needle.
pub open spec fn string_query_view(q: Option<String>) -> Option<Seq<char>> {
    match q {
        Some(s) => Some(s@),
        None => None,
    }
}

/// A search returns nothing but matches: every returned row belongs to the
/// requested user, and when a needle is given, every returned title
/// contains it.  Other users' rows never appear.
pub proof fn lemma_search_returns_only_matches(
    rows: Seq<TodoItem>,
    user_id: i32,
    query: Option<Seq<char>>,
    i: int,
)
    requires
        0 <= i < search_results(rows, user_id, query).len(),
    ensures
        search_results(rows, user_id, query)[i].user_id == user_id,
        (query matches Some(q) ==> has_substring(
            search_results(rows, user_id, query)[i].title@,
            q,
        )),
{
    rows.lemma_filter_pred(search_pred(user_id, query), i);
}

/// A search drops no match: every row the user owns whose title meets the
/// needle is in the result.
pub proof fn lemma_search_keeps_all_matches(
    rows: Seq<TodoItem>,
    user_id: i32,
    query: Option<Seq<char>>,
    i: int,
)
    requires
        0 <= i < rows.len(),
        matches_search(rows[i], user_id, query),
    ensures
        search_results(rows, user_id, query).contains(rows[i]),
{
    rows.lemma_filter_contains(search_pred(user_id, query), i);
}

/// In a well-formed store no two rows share a to-do id: every creation,
/// however calls interleave, received an id of its own.
pub proof fn lemma_todo_ids_distinct(s: Store, i: int, j: int)
    requires
        s.wf(),
        0 <= i < s.todo_rows().len(),
        0 <= j < s.todo_rows().len(),
        i != j,
    ensures
        s.todo_rows()[i].id != s.todo_rows()[j].id,
{
}

/// The id the next insertion will assign sits above every stored id, so a
/// later creation never hands out an id already in the table, nor one that
/// a deleted row used to carry.
pub proof fn lemma_next_todo_id_fresh(s: Store, i: int)
    requires
        s.wf(),
        0 <= i < s.todo_rows().len(),
    ensures
        (s.todo_rows()[i].id as int) < s.todo_id_seed(),
{
}

} // verus!
