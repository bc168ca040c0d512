use vstd::prelude::*;
use crate::db::data_error;
use crate::errors::{AppError, AppErrorType};
use crate::models::{TodoList, TodoItem};

verus! {

/// How many lists the list query returns at most.
pub const RECENT_LIMIT: usize = 10;

pub open spec fn lists_ascending(s: Seq<TodoList>) -> bool {
    forall|i: int, j: int| 0 <= i < j < s.len() ==> s[i].id < s[j].id
}

pub open spec fn lists_descending(s: Seq<TodoList>) -> bool {
    forall|i: int, j: int| 0 <= i < j < s.len() ==> s[i].id > s[j].id
}

pub open spec fn items_ascending(s: Seq<TodoItem>) -> bool {
    forall|i: int, j: int| 0 <= i < j < s.len() ==> s[i].id < s[j].id
}

/// The lists that the list query returns from `s`: the last ten, last first.
pub open spec fn recent(s: Seq<TodoList>) -> Seq<TodoList> {
    let k = if s.len() < RECENT_LIMIT { s.len() as int } else { RECENT_LIMIT as int };
    Seq::new(k as nat, |i: int| s[s.len() - 1 - i])
}

/// The items of list `list_id`, in the order they are stored.
pub open spec fn items_in(s: Seq<TodoItem>, list_id: i32) -> Seq<TodoItem>
    decreases s.len(),
{
    if s.len() == 0 {
        Seq::empty()
    } else {
        let rest = items_in(s.drop_last(), list_id);
        if s.last().list_id == list_id {
            rest.push(s.last())
        } else {
            rest
        }
    }
}

pub open spec fn has_list(lists: Seq<TodoList>, id: i32) -> bool {
    exists|k: int| 0 <= k < lists.len() && lists[k].id == id
}

/// The predicate of the conditional update.
pub open spec fn check_matches(it: TodoItem, list_id: i32, item_id: i32) -> bool {
    it.list_id == list_id && it.id == item_id && !it.checked
}

/// Some item meets the predicate of the conditional update.
pub open spec fn matched(items: Seq<TodoItem>, list_id: i32, item_id: i32) -> bool {
    exists|k: int| 0 <= k < items.len() && check_matches(items[k], list_id, item_id)
}

/// The items after the conditional update: those that meet its predicate are checked.
pub open spec fn after_check(items: Seq<TodoItem>, list_id: i32, item_id: i32) -> Seq<TodoItem> {
    items.map_values(
        |it: TodoItem|
            if check_matches(it, list_id, item_id) {
                TodoItem { id: it.id, title: it.title, checked: true, list_id: it.list_id }
            } else {
                it
            },
    )
}

/// An in-memory evaluation of the four statements over the `todo_list` and
/// `todo_item` tables, with serial ids.
pub struct TodoStore {
    lists: Vec<TodoList>,
    items: Vec<TodoItem>,
    last_list_id: i32,
    last_item_id: i32,
}

fn copy_list(l: &TodoList) -> (r: TodoList)
    ensures
        r == *l,
{
    TodoList { id: l.id, title: l.title.clone() }
}

fn copy_item(it: &TodoItem) -> (r: TodoItem)
    ensures
        r == *it,
{
    TodoItem { id: it.id, title: it.title.clone(), checked: it.checked, list_id: it.list_id }
}

impl TodoStore {
    /// The `todo_list` table, in insertion order.
    pub closed spec fn lists_view(&self) -> Seq<TodoList> {
        self.lists@
    }

    /// The `todo_item` table, in insertion order.
    pub closed spec fn items_view(&self) -> Seq<TodoItem> {
        self.items@
    }

    /// The last serial id handed out to a list (0 before the first).
    pub closed spec fn list_serial(&self) -> int {
        self.last_list_id as int
    }

    /// The last serial id handed out to an item (0 before the first).
    pub closed spec fn item_serial(&self) -> int {
        self.last_item_id as int
    }

    /// Ids are serial: positive, increasing in insertion order, and never
    /// above the last one handed out; every item references a stored list.
    pub closed spec fn wf(&self) -> bool {
        &&& self.last_list_id >= 0
        &&& self.last_item_id >= 0
        &&& lists_ascending(self.lists@)
        &&& items_ascending(self.items@)
        &&& forall|i: int|
            0 <= i < self.lists@.len() ==> 0 < #[trigger] self.lists@[i].id <= self.last_list_id
        &&& forall|i: int|
            0 <= i < self.items@.len() ==> 0 < #[trigger] self.items@[i].id <= self.last_item_id
        &&& forall|i: int|
            0 <= i < self.items@.len() ==> has_list(self.lists@, #[trigger] self.items@[i].list_id)
    }

    /// The result of inserting a list titled `title` into `before`.
    pub open spec fn created(before: TodoStore, after: TodoStore, title: Seq<char>, l: TodoList) -> bool {
        &&& l.title@ == title
        &&& l.id == before.list_serial() + 1
        &&& forall|i: int|
            0 <= i < before.lists_view().len() ==> #[trigger] before.lists_view()[i].id < l.id
        &&& after.lists_view() == before.lists_view().push(l)
        &&& after.items_view() == before.items_view()
        &&& after.list_serial() == l.id
        &&& after.item_serial() == before.item_serial()
    }

    /// The result of the conditional update on `before`, with `n` rows affected.
    pub open spec fn checked(before: TodoStore, after: TodoStore, list_id: i32, item_id: i32, n: u64) -> bool {
        &&& n == if matched(before.items_view(), list_id, item_id) { 1u64 } else { 0u64 }
        &&& after.items_view() == after_check(before.items_view(), list_id, item_id)
        &&& after.lists_view() == before.lists_view()
        &&& after.list_serial() == before.list_serial()
        &&& after.item_serial() == before.item_serial()
    }

    pub fn new() -> (r: TodoStore)
        ensures
            r.wf(),
            r.lists_view().len() == 0,
            r.items_view().len() == 0,
            r.list_serial() == 0,
            r.item_serial() == 0,
    {
        TodoStore { lists: Vec::new(), items: Vec::new(), last_list_id: 0, last_item_id: 0 }
    }

    fn has_list(&self, id: i32) -> (r: bool)
        ensures
            r == has_list(self.lists@, id),
    {
        let mut k: usize = 0;
        while k < self.lists.len()
            invariant
                0 <= k <= self.lists@.len(),
                forall|j: int| 0 <= j < k ==> self.lists@[j].id != id,
            decreases self.lists@.len() - k,
        {
            if self.lists[k].id == id {
                return true;
            }
            k = k + 1;
        }
        false
    }

    /// `insert into todo_list (title) values ($1) returning id, title`.
    ///
    /// Fails only when the serial ids are exhausted.
    pub fn insert_todo_list(&mut self, title: String) -> (r: Result<TodoList, AppError>)
        requires
            old(self).wf(),
        ensures
            final(self).wf(),
            old(self).list_serial() < i32::MAX ==> r is Ok,
            match r {
                Ok(l) => TodoStore::created(*old(self), *final(self), title@, l),
                Err(e) => *final(self) == *old(self) && e.error_type == AppErrorType::DbError,
            },
    {
        if self.last_list_id == i32::MAX {
            return Err(data_error("todo_list ids are exhausted"));
        }
        let id = self.last_list_id + 1;
        let l = TodoList { id, title };
        let ghost before = *self;
        self.lists.push(copy_list(&l));
        self.last_list_id = id;
        proof {
            assert forall|i: int| 0 <= i < self.items@.len() implies has_list(
                self.lists@,
                #[trigger] self.items@[i].list_id,
            ) by {
                let k = choose|k: int|
                    0 <= k < before.lists@.len() && before.lists@[k].id == self.items@[i].list_id;
                assert(self.lists@[k] == before.lists@[k]);
            }
        }
        Ok(l)
    }

    /// Adds an item to list `list_id`, unchecked.
    ///
    /// Fails when no such list is stored (the reference would dangle) or when
    /// the serial ids are exhausted.
    pub fn insert_todo_item(&mut self, list_id: i32, title: String) -> (r: Result<TodoItem, AppError>)
        requires
            old(self).wf(),
        ensures
            final(self).wf(),
            final(self).lists_view() == old(self).lists_view(),
            final(self).list_serial() == old(self).list_serial(),
            has_list(old(self).lists_view(), list_id) && old(self).item_serial() < i32::MAX ==> r is Ok,
            match r {
                Ok(it) => {
                    &&& it.title@ == title@
                    &&& it.list_id == list_id
                    &&& !it.checked
                    &&& forall|i: int|
                        0 <= i < old(self).items_view().len() ==> #[trigger] old(
                            self,
                        ).items_view()[i].id < it.id
                    &&& it.id == old(self).item_serial() + 1
                    &&& final(self).items_view() == old(self).items_view().push(it)
                    &&& final(self).item_serial() == it.id
                },
                Err(e) => *final(self) == *old(self) && e.error_type == AppErrorType::DbError,
            },
    {
        if !self.has_list(list_id) {
            return Err(data_error("todo_item references a missing todo_list"));
        }
        if self.last_item_id == i32::MAX {
            return Err(data_error("todo_item ids are exhausted"));
        }
        let id = self.last_item_id + 1;
        let it = TodoItem { id, title, checked: false, list_id };
        self.items.push(copy_item(&it));
        self.last_item_id = id;
        Ok(it)
    }

    /// `select * from todo_list order by id desc limit 10`.
    pub fn select_todo_lists(&self) -> (r: Vec<TodoList>)
        requires
            self.wf(),
        ensures
            r@ == recent(self.lists_view()),
    {
        let n = self.lists.len();
        let k: usize = if n < RECENT_LIMIT { n } else { RECENT_LIMIT };
        let mut out: Vec<TodoList> = Vec::new();
        let mut i: usize = 0;
        while i < k
            invariant
                k <= n == self.lists@.len(),
                k == recent(self.lists@).len(),
                0 <= i <= k,
                out@ =~= recent(self.lists@).take(i as int),
            decreases k - i,
        {
            out.push(copy_list(&self.lists[n - 1 - i]));
            i = i + 1;
        }
        assert(recent(self.lists@).take(k as int) =~= recent(self.lists@));
        out
    }

    /// `select * from todo_item where list_id = $1 order by id`.
    pub fn select_todo_items(&self, list_id: i32) -> (r: Vec<TodoItem>)
        requires
            self.wf(),
        ensures
            r@ == items_in(self.items_view(), list_id),
    {
        let mut out: Vec<TodoItem> = Vec::new();
        let mut i: usize = 0;
        while i < self.items.len()
            invariant
                0 <= i <= self.items@.len(),
                out@ == items_in(self.items@.take(i as int), list_id),
            decreases self.items@.len() - i,
        {
            assert(self.items@.take(i + 1).drop_last() =~= self.items@.take(i as int));
            if self.items[i].list_id == list_id {
                out.push(copy_item(&self.items[i]));
            }
            i = i + 1;
        }
        assert(self.items@.take(i as int) =~= self.items@);
        out
    }

    /// `update todo_item set checked = true where list_id = $1 and id = $2 and checked = false`,
    /// returning the number of rows affected.
    pub fn update_checked(&mut self, list_id: i32, item_id: i32) -> (n: u64)
        requires
            old(self).wf(),
        ensures
            final(self).wf(),
            TodoStore::checked(*old(self), *final(self), list_id, item_id, n),
    {
        let mut i: usize = 0;
        while i < self.items.len()
            invariant
                0 <= i <= self.items@.len(),
                *self == *old(self),
                self.wf(),
                forall|j: int| 0 <= j < i ==> !check_matches(#[trigger] self.items@[j], list_id, item_id),
            decreases self.items@.len() - i,
        {
            if self.items[i].list_id == list_id && self.items[i].id == item_id && !self.items[i].checked {
                let ghost before = self.items@;
                let it = TodoItem {
                    id: self.items[i].id,
                    title: self.items[i].title.clone(),
                    checked: true,
                    list_id,
                };
                self.items.set(i, it);
                proof {
                    assert forall|j: int| 0 <= j < before.len() implies #[trigger] self.items@[j]
                        == after_check(before, list_id, item_id)[j] by {
                        if j != i {
                            if j < i {
                                assert(before[j].id < before[i as int].id);
                            } else {
                                assert(before[i as int].id < before[j].id);
                            }
                        }
                    }
                    assert(self.items@ =~= after_check(before, list_id, item_id));
                    assert(matched(before, list_id, item_id));
                }
                return 1;
            }
            i = i + 1;
        }
        assert(self.items@ =~= after_check(self.items@, list_id, item_id));
        0
    }
}

proof fn lemma_items_in(s: Seq<TodoItem>, list_id: i32)
    requires
        items_ascending(s),
    ensures
        items_ascending(items_in(s, list_id)),
        forall|k: int|
            0 <= k < items_in(s, list_id).len() ==> (#[trigger] items_in(s, list_id)[k]).list_id
                == list_id,
        items_in(s, list_id).len() > 0 ==> s.len() > 0 && items_in(s, list_id).last().id
            <= s.last().id,
    decreases s.len(),
{
    if s.len() > 0 {
        let t = s.drop_last();
        assert(items_ascending(t));
        lemma_items_in(t, list_id);
        let rest = items_in(t, list_id);
        if s.last().list_id == list_id && rest.len() > 0 {
            assert(rest.last().id < s.last().id);
            assert forall|a: int| 0 <= a < rest.len() implies #[trigger] rest[a].id < s.last().id by {
                if a < rest.len() - 1 {
                    assert(rest[a].id < rest.last().id);
                }
            }
        }
    }
}

proof fn lemma_after_check_settles(items: Seq<TodoItem>, list_id: i32, item_id: i32)
    ensures
        !matched(after_check(items, list_id, item_id), list_id, item_id),
        after_check(after_check(items, list_id, item_id), list_id, item_id) == after_check(
            items,
            list_id,
            item_id,
        ),
{
    let once = after_check(items, list_id, item_id);
    assert forall|k: int| 0 <= k < once.len() implies !check_matches(
        #[trigger] once[k],
        list_id,
        item_id,
    ) by {}
    assert(after_check(once, list_id, item_id) =~= once);
}

/// The list query returns at most ten lists, newest first, and no list it
/// leaves out is newer than one it returns.
pub proof fn law_lists_newest_first(s: TodoStore)
    requires
        s.wf(),
    ensures
        lists_descending(recent(s.lists_view())),
        recent(s.lists_view()).len() == if s.lists_view().len() < RECENT_LIMIT {
            s.lists_view().len()
        } else {
            RECENT_LIMIT as nat
        },
        forall|i: int, j: int|
            0 <= i < s.lists_view().len() - RECENT_LIMIT && 0 <= j < recent(s.lists_view()).len()
                ==> s.lists_view()[i].id < recent(s.lists_view())[j].id,
{
}

/// The item query returns only items of the requested list, in strictly
/// ascending id order, whatever order they were inserted in.
pub proof fn law_items_ascending(s: TodoStore, list_id: i32)
    requires
        s.wf(),
    ensures
        items_ascending(items_in(s.items_view(), list_id)),
        forall|k: int|
            0 <= k < items_in(s.items_view(), list_id).len() ==> (#[trigger] items_in(
                s.items_view(),
                list_id,
            )[k]).list_id == list_id,
{
    lemma_items_in(s.items_view(), list_id);
}

/// A created list keeps its title and is the first one the list query returns.
pub proof fn law_created_list_is_listed(before: TodoStore, after: TodoStore, title: Seq<char>, l: TodoList)
    requires
        before.wf(),
        TodoStore::created(before, after, title, l),
    ensures
        l.title@ == title,
        recent(after.lists_view()).len() > 0,
        recent(after.lists_view())[0] == l,
{
}

/// Checking an unchecked item of the right list affects one row, which the
/// handler reports as success, and leaves the item checked.
pub proof fn law_check_unchecked_item(
    before: TodoStore,
    after: TodoStore,
    list_id: i32,
    item_id: i32,
    n: u64,
    k: int,
)
    requires
        before.wf(),
        0 <= k < before.items_view().len(),
        before.items_view()[k].list_id == list_id,
        before.items_view()[k].id == item_id,
        !before.items_view()[k].checked,
        TodoStore::checked(before, after, list_id, item_id, n),
    ensures
        n == 1,
        after.items_view()[k].checked,
        forall|r: Result<bool, AppError>|
            crate::db::check_result(Ok(n), r) <==> r == Ok::<bool, AppError>(true),
{
    assert(check_matches(before.items@[k], list_id, item_id));
}

/// A second check of the same item affects no row and changes nothing: the
/// update is edge-triggered, not idempotent.
pub proof fn law_check_twice(
    s0: TodoStore,
    s1: TodoStore,
    s2: TodoStore,
    list_id: i32,
    item_id: i32,
    n1: u64,
    n2: u64,
)
    requires
        TodoStore::checked(s0, s1, list_id, item_id, n1),
        TodoStore::checked(s1, s2, list_id, item_id, n2),
    ensures
        n2 == 0,
        forall|r: Result<bool, AppError>|
            crate::db::check_result(Ok(n2), r) <==> r == Ok::<bool, AppError>(false),
        s2.items_view() == s1.items_view(),
        s2.lists_view() == s1.lists_view(),
{
    lemma_after_check_settles(s0.items@, list_id, item_id);
}

/// Checking an item under a list it does not belong to affects no row and
/// changes nothing.
pub proof fn law_check_wrong_list(
    before: TodoStore,
    after: TodoStore,
    list_id: i32,
    item_id: i32,
    n: u64,
    k: int,
)
    requires
        before.wf(),
        0 <= k < before.items_view().len(),
        before.items_view()[k].id == item_id,
        before.items_view()[k].list_id != list_id,
        TodoStore::checked(before, after, list_id, item_id, n),
    ensures
        n == 0,
        after.items_view() == before.items_view(),
{
    let items = before.items@;
    assert forall|j: int| 0 <= j < items.len() implies !check_matches(
        #[trigger] items[j],
        list_id,
        item_id,
    ) by {
        if j < k {
            assert(items[j].id < items[k].id);
        } else if j > k {
            assert(items[k].id < items[j].id);
        }
    }
    assert(after_check(items, list_id, item_id) =~= items);
}

/// Two checks of the same unchecked item, in whichever order the store
/// applies them, affect one row in total: exactly one succeeds, and the item
/// ends checked once.
pub proof fn law_racing_checks(
    s0: TodoStore,
    s1: TodoStore,
    s2: TodoStore,
    list_id: i32,
    item_id: i32,
    n1: u64,
    n2: u64,
    k: int,
)
    requires
        s0.wf(),
        0 <= k < s0.items_view().len(),
        s0.items_view()[k].list_id == list_id,
        s0.items_view()[k].id == item_id,
        !s0.items_view()[k].checked,
        TodoStore::checked(s0, s1, list_id, item_id, n1),
        TodoStore::checked(s1, s2, list_id, item_id, n2),
    ensures
        n1 + n2 == 1,
        s2.items_view()[k].checked,
        s2.items_view() == s1.items_view(),
{
    law_check_unchecked_item(s0, s1, list_id, item_id, n1, k);
    law_check_twice(s0, s1, s2, list_id, item_id, n1, n2);
}

} // verus!
