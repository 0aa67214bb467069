//! The in-memory store of todo records.
//!
//! The store owns the ordered collection (insertion order is pagination
//! order), generates identifiers, stamps timestamps and keeps the
//! invariants: identifiers are unique among live records and never reused,
//! and `createdAt <= updatedAt` on every record.

use vstd::prelude::*;
use crate::ident::{dec_val, lemma_dec_val_of_dec_of, lemma_dec_of_nonempty};
use crate::model::{Todo, TodoView, UpdateTodoSchema, PatchView, views_of};
use crate::ident::u64_to_dec_string;

verus! {

/// The number of records a list request returns when `limit` is absent.
pub const DEFAULT_LIMIT: usize = 10;

/// The typed outcomes a store operation can signal.
#[derive(Clone, Copy, Debug, PartialEq, Eq, Structural)]
pub enum StoreError {
    /// Create was given an empty `title`.
    EmptyTitle,
    /// Create was given an empty `content`.
    EmptyContent,
    /// The identifier counter is spent; no further record can be created.
    Exhausted,
    /// No live record carries the given identifier.
    NotFound,
}

/// No two records of `s` carry the same identifier.
pub open spec fn unique_ids(s: Seq<TodoView>) -> bool {
    forall|i: int, j: int|
        #![trigger s[i].id, s[j].id]
        0 <= i < s.len() && 0 <= j < s.len() && i != j ==> s[i].id != s[j].id
}

/// Some record of `s` carries the identifier `id`.
pub open spec fn has_id(s: Seq<TodoView>, id: Seq<char>) -> bool {
    exists|i: int| 0 <= i < s.len() && (#[trigger] s[i]).id == id
}

/// What is publicly known to hold of the collection at all times.
pub open spec fn store_inv(s: Seq<TodoView>) -> bool {
    &&& unique_ids(s)
    &&& forall|i: int| 0 <= i < s.len() ==> (#[trigger] s[i]).id.len() > 0
    &&& forall|i: int| 0 <= i < s.len() ==> (#[trigger] s[i]).createdAt <= s[i].updatedAt
}

/// `completed` as a record stores it: `false` when the input omits it.
pub open spec fn default_completed(completed: Option<bool>) -> bool {
    match completed {
        Some(b) => b,
        None => false,
    }
}

/// The record a successful create appends, given the fresh identifier.
pub open spec fn created_view(
    id: Seq<char>,
    title: Seq<char>,
    content: Seq<char>,
    completed: Option<bool>,
    now: u64,
) -> TodoView {
    TodoView {
        id: id,
        title: title,
        content: content,
        completed: default_completed(completed),
        createdAt: now,
        updatedAt: now,
    }
}

/// What a successful create guarantees: the returned record `t` carries the
/// given fields with `createdAt = updatedAt = now`, its identifier is
/// non-empty and fresh for the prior collection `pre`, and the collection
/// afterwards is `pre` with `t` appended at the end.
pub open spec fn create_success(
    pre: Seq<TodoView>,
    post: Seq<TodoView>,
    t: TodoView,
    title: Seq<char>,
    content: Seq<char>,
    completed: Option<bool>,
    now: u64,
) -> bool {
    &&& t == created_view(t.id, title, content, completed, now)
    &&& t.id.len() > 0
    &&& !has_id(pre, t.id)
    &&& post == pre.push(t)
}

/// The record a successful update leaves in place of `t`: present fields of
/// the patch overwrite, absent fields keep their prior values, `id` and
/// `createdAt` never change, and `updatedAt` is refreshed to `now` but never
/// moves backwards.
pub open spec fn apply_patch(t: TodoView, p: PatchView, now: u64) -> TodoView {
    TodoView {
        id: t.id,
        title: match p.title {
            Some(x) => x,
            None => t.title,
        },
        content: match p.content {
            Some(x) => x,
            None => t.content,
        },
        completed: match p.completed {
            Some(b) => b,
            None => t.completed,
        },
        createdAt: t.createdAt,
        updatedAt: if now >= t.updatedAt {
            now
        } else {
            t.updatedAt
        },
    }
}

/// The page of a list request: `page` is 1-indexed (0 is read as 1), the
/// window `[(page-1)*limit, (page-1)*limit + limit)` is clipped to the
/// collection's bounds, so an out-of-range page is empty rather than an
/// error.
pub open spec fn page_start(page: usize, limit: usize) -> int {
    if page == 0 {
        0
    } else {
        (page - 1) * limit
    }
}

/// The slice of `s` that `List(page, limit)` returns.
pub open spec fn page_slice(s: Seq<TodoView>, page: usize, limit: usize) -> Seq<TodoView> {
    let start = vstd::math::min(page_start(page, limit), s.len() as int);
    let end = vstd::math::min(start + limit, s.len() as int);
    s.subrange(start, end)
}

/// `page` with its default of 1 applied.
pub open spec fn resolved_page(page: Option<usize>) -> usize {
    match page {
        Some(p) => p,
        None => 1,
    }
}

/// `limit` with its default of [`DEFAULT_LIMIT`] applied.
pub open spec fn resolved_limit(limit: Option<usize>) -> usize {
    match limit {
        Some(l) => l,
        None => DEFAULT_LIMIT,
    }
}

/// The single authoritative container of todo records.
pub struct TodoStore {
    todos: Vec<Todo>,
    next_id: u64,
}

impl View for TodoStore {
    type V = Seq<TodoView>;

    closed spec fn view(&self) -> Seq<TodoView> {
        views_of(self.todos@)
    }
}

impl TodoStore {
    /// Every live identifier is the decimal rendering of a counter value
    /// already spent, so the next counter value renders to a string no live
    /// (or dead) record carries.
    pub closed spec fn counter_ok(&self) -> bool {
        forall|i: int| 0 <= i < self@.len() ==> dec_val((#[trigger] self@[i]).id) < self.next_id
    }

    /// Well-formedness: the public invariant [`store_inv`] together with
    /// the identifier counter's freshness discipline.
    pub open spec fn wf(&self) -> bool {
        &&& store_inv(self@)
        &&& self.counter_ok()
    }

    /// The identifier counter is spent: a further create would signal
    /// [`StoreError::Exhausted`].
    pub closed spec fn ids_exhausted(&self) -> bool {
        self.next_id == u64::MAX
    }

    /// An empty store.
    pub fn new() -> (s: Self)
        ensures
            s.wf(),
            s@ == Seq::<TodoView>::empty(),
            !s.ids_exhausted(),
    {
        let s = TodoStore { todos: Vec::new(), next_id: 0 };
        proof {
            assert(s@ =~= Seq::<TodoView>::empty());
        }
        s
    }

    /// The number of live records.
    pub fn len(&self) -> (n: usize)
        ensures
            n == self@.len(),
    {
        self.todos.len()
    }

    /// The index of the live record carrying `id`, if any.
    fn find_index(&self, id: &String) -> (r: Option<usize>)
        ensures
            match r {
                Some(i) => 0 <= i < self@.len() && self@[i as int].id == id@,
                None => !has_id(self@, id@),
            },
    {
        let n = self.todos.len();
        let mut i: usize = 0;
        while i < n
            invariant
                n == self@.len(),
                i <= n,
                forall|j: int| 0 <= j < i ==> (#[trigger] self@[j]).id != id@,
            decreases n - i,
        {
            if self.todos[i].id == *id {
                return Some(i);
            }
            i = i + 1;
        }
        None
    }

    /// Create: validates the required fields, assigns a fresh identifier
    /// and `createdAt = updatedAt = now`, defaults `completed` to `false`,
    /// and appends the record at the end of the collection.  On any error
    /// the store is unchanged.
    pub fn create(
        &mut self,
        title: String,
        content: String,
        completed: Option<bool>,
        now: u64,
    ) -> (r: Result<Todo, StoreError>)
        requires
            old(self).wf(),
        ensures
            final(self).wf(),
            title@.len() == 0 ==> r == Err::<Todo, StoreError>(StoreError::EmptyTitle),
            title@.len() > 0 && content@.len() == 0 ==> r == Err::<Todo, StoreError>(
                StoreError::EmptyContent,
            ),
            title@.len() > 0 && content@.len() > 0 && old(self).ids_exhausted() ==> r
                == Err::<Todo, StoreError>(StoreError::Exhausted),
            title@.len() > 0 && content@.len() > 0 && !old(self).ids_exhausted() ==> (r matches Ok(t)
                && create_success(old(self)@, final(self)@, t@, title@, content@, completed, now)),
            r matches Err(_) ==> *final(self) == *old(self),
    {
        if title.as_str().is_empty() {
            return Err(StoreError::EmptyTitle);
        }
        if content.as_str().is_empty() {
            return Err(StoreError::EmptyContent);
        }
        if self.next_id == u64::MAX {
            return Err(StoreError::Exhausted);
        }
        let id = u64_to_dec_string(self.next_id);
        proof {
            lemma_dec_val_of_dec_of(self.next_id as nat);
            lemma_dec_of_nonempty(self.next_id as nat);
            assert forall|i: int| 0 <= i < self@.len() implies (#[trigger] self@[i]).id
                != id@ by {
                assert(dec_val(self@[i].id) < self.next_id);
                assert(dec_val(id@) == self.next_id);
            }
        }
        let todo = Todo {
            id: id,
            title: title,
            content: content,
            completed: match completed {
                Some(b) => b,
                None => false,
            },
            createdAt: now,
            updatedAt: now,
        };
        let reply = todo.duplicate();
        let ghost pre = self@;
        self.todos.push(todo);
        self.next_id = self.next_id + 1;
        proof {
            assert(self@ =~= pre.push(reply@));
        }
        Ok(reply)
    }

    /// GetById: a field-for-field copy of the record carrying `id`, or
    /// `None` when no live record does.  Read-only.
    pub fn get_by_id(&self, id: &String) -> (r: Option<Todo>)
        requires
            self.wf(),
        ensures
            match r {
                Some(t) => t@.id == id@ && exists|i: int|
                    0 <= i < self@.len() && #[trigger] self@[i] == t@,
                None => !has_id(self@, id@),
            },
    {
        match self.find_index(id) {
            Some(i) => Some(self.todos[i].duplicate()),
            None => None,
        }
    }

    /// UpdateById: overwrites exactly the fields present in the patch,
    /// keeps `id` and `createdAt`, refreshes `updatedAt`, and returns a
    /// copy of the new record; `NotFound` (store unchanged) when no live
    /// record carries `id`.
    pub fn update_by_id(
        &mut self,
        id: &String,
        patch: &UpdateTodoSchema,
        now: u64,
    ) -> (r: Result<Todo, StoreError>)
        requires
            old(self).wf(),
        ensures
            final(self).wf(),
            !has_id(old(self)@, id@) ==> r == Err::<Todo, StoreError>(StoreError::NotFound)
                && *final(self) == *old(self),
            has_id(old(self)@, id@) ==> r matches Ok(_),
            forall|i: int|
                0 <= i < old(self)@.len() && (#[trigger] old(self)@[i]).id == id@
                    ==> final(self)@ == old(self)@.update(i, apply_patch(old(self)@[i], patch@, now))
                        && (r matches Ok(t) && t@ == apply_patch(old(self)@[i], patch@, now)),
    {
        match self.find_index(id) {
            None => Err(StoreError::NotFound),
            Some(i) => {
                let cur = &self.todos[i];
                let updated_at = if now >= cur.updatedAt {
                    now
                } else {
                    cur.updatedAt
                };
                let new_todo = Todo {
                    id: cur.id.clone(),
                    title: match &patch.title {
                        Some(t) => t.clone(),
                        None => cur.title.clone(),
                    },
                    content: match &patch.content {
                        Some(c) => c.clone(),
                        None => cur.content.clone(),
                    },
                    completed: match patch.completed {
                        Some(b) => b,
                        None => cur.completed,
                    },
                    createdAt: cur.createdAt,
                    updatedAt: updated_at,
                };
                let reply = new_todo.duplicate();
                let ghost pre = self@;
                self.todos.set(i, new_todo);
                proof {
                    assert(self@ =~= pre.update(i as int, reply@));
                }
                Ok(reply)
            },
        }
    }

    /// DeleteById: removes the record carrying `id` (later records move one
    /// position forward); `NotFound` (store unchanged) when no live record
    /// carries `id`.
    pub fn delete_by_id(&mut self, id: &String) -> (r: Result<(), StoreError>)
        requires
            old(self).wf(),
        ensures
            final(self).wf(),
            !has_id(old(self)@, id@) ==> r == Err::<(), StoreError>(StoreError::NotFound)
                && *final(self) == *old(self),
            has_id(old(self)@, id@) ==> r == Ok::<(), StoreError>(()),
            forall|i: int|
                0 <= i < old(self)@.len() && (#[trigger] old(self)@[i]).id == id@
                    ==> final(self)@ == old(self)@.remove(i),
    {
        match self.find_index(id) {
            None => Err(StoreError::NotFound),
            Some(i) => {
                let ghost pre = self@;
                self.todos.remove(i);
                proof {
                    assert(self@ =~= pre.remove(i as int));
                }
                Ok(())
            },
        }
    }

    /// List: the records of the requested page, in insertion order, as
    /// field-for-field copies.  `page` defaults to 1, `limit` to
    /// [`DEFAULT_LIMIT`]; the result never holds more than `limit` records.
    /// Read-only.
    pub fn list(&self, page: Option<usize>, limit: Option<usize>) -> (r: Vec<Todo>)
        requires
            self.wf(),
        ensures
            views_of(r@) == page_slice(self@, resolved_page(page), resolved_limit(limit)),
            r@.len() <= resolved_limit(limit),
    {
        let page_v: usize = match page {
            Some(p) => p,
            None => 1,
        };
        let limit_v: usize = match limit {
            Some(l) => l,
            None => DEFAULT_LIMIT,
        };
        let p1: usize = if page_v == 0 {
            0
        } else {
            page_v - 1
        };
        let len = self.todos.len();
        let pa: u128 = p1 as u128;
        let la: u128 = limit_v as u128;
        proof {
            assert(pa * la <= 0xffff_ffff_ffff_ffffu128 * 0xffff_ffff_ffff_ffffu128)
                by (nonlinear_arith)
                requires
                    pa <= 0xffff_ffff_ffff_ffffu128,
                    la <= 0xffff_ffff_ffff_ffffu128,
            ;
        }
        let start128: u128 = pa * la;
        let start: usize = if start128 >= (len as u128) {
            len
        } else {
            start128 as usize
        };
        let end128: u128 = (start as u128) + (limit_v as u128);
        let end: usize = if end128 >= (len as u128) {
            len
        } else {
            end128 as usize
        };
        let mut r: Vec<Todo> = Vec::new();
        let mut i: usize = start;
        while i < end
            invariant
                start <= i <= end,
                end <= self@.len(),
                r@.len() == i - start,
                forall|k: int| 0 <= k < r@.len() ==> (#[trigger] r@[k])@ == self@[start + k],
            decreases end - i,
        {
            r.push(self.todos[i].duplicate());
            i = i + 1;
        }
        proof {
            assert(views_of(r@) =~= page_slice(
                self@,
                resolved_page(page),
                resolved_limit(limit),
            ));
        }
        r
    }
}

/// A record just created is found again: where `t`'s identifier is fresh
/// for `s`, the collection `s.push(t)` (what create leaves behind) holds
/// `t`'s identifier, and every record of it carrying that identifier is `t`
/// itself — so GetById after Create returns the created record
/// field-for-field.
pub proof fn lemma_created_is_found(s: Seq<TodoView>, t: TodoView)
    requires
        !has_id(s, t.id),
    ensures
        has_id(s.push(t), t.id),
        forall|i: int| 0 <= i < s.push(t).len() && (#[trigger] s.push(t)[i]).id == t.id
            ==> s.push(t)[i] == t,
{
    assert(s.push(t)[s.len() as int] == t);
    assert forall|i: int|
        0 <= i < s.push(t).len() && (#[trigger] s.push(t)[i]).id == t.id implies s.push(t)[i]
        == t by {
        if i < s.len() {
            assert(s[i] == s.push(t)[i]);
            assert(!(exists|j: int| 0 <= j < s.len() && (#[trigger] s[j]).id == t.id));
        }
    }
}

/// A partial update changes only the specified fields: absent fields keep
/// their prior values exactly, `id` and `createdAt` never change, present
/// fields take the patch's values, and `updatedAt` never moves backwards —
/// it becomes `now` whenever the clock has not gone backwards.
pub proof fn lemma_patch_changes_only_given_fields(t: TodoView, p: PatchView, now: u64)
    ensures
        apply_patch(t, p, now).id == t.id,
        apply_patch(t, p, now).createdAt == t.createdAt,
        p.title is None ==> apply_patch(t, p, now).title == t.title,
        p.content is None ==> apply_patch(t, p, now).content == t.content,
        p.completed is None ==> apply_patch(t, p, now).completed == t.completed,
        p.title matches Some(x) ==> apply_patch(t, p, now).title == x,
        p.content matches Some(x) ==> apply_patch(t, p, now).content == x,
        p.completed matches Some(b) ==> apply_patch(t, p, now).completed == b,
        apply_patch(t, p, now).updatedAt >= t.updatedAt,
        now >= t.updatedAt ==> apply_patch(t, p, now).updatedAt == now,
{
}

/// Creates never hand out the same identifier twice, however the store's
/// mutual exclusion serializes them: where one create appends `t1` to `pre`
/// and a later create appends `t2` to the result, the two identifiers
/// differ — and each create grows the collection by exactly one record, so
/// any number of serialized creates leave that many records, all with
/// distinct identifiers.
pub proof fn lemma_serialized_creates_distinct(pre: Seq<TodoView>, t1: TodoView, t2: TodoView)
    requires
        !has_id(pre.push(t1), t2.id),
    ensures
        t1.id != t2.id,
        pre.push(t1).len() == pre.len() + 1,
{
    assert(pre.push(t1)[pre.len() as int] == t1);
}

/// A deleted record stays gone: where the records of `s` carry unique
/// identifiers and `s[i]` is removed, no record of the remainder carries
/// `s[i]`'s identifier — so GetById, UpdateById and DeleteById after
/// DeleteById all signal `NotFound`.
pub proof fn lemma_deleted_not_found(s: Seq<TodoView>, i: int)
    requires
        unique_ids(s),
        0 <= i < s.len(),
    ensures
        !has_id(s.remove(i), s[i].id),
{
    let rem = s.remove(i);
    assert forall|j: int| 0 <= j < rem.len() implies (#[trigger] rem[j]).id != s[i].id by {
        if j < i {
            assert(rem[j] == s[j]);
        } else {
            assert(rem[j] == s[j + 1]);
        }
    }
}

} // verus!
