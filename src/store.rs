use vstd::prelude::*;

use crate::task::{TodoItem, TodoItemView};

verus! {

/// Some task of `s` is called `n`.
pub open spec fn has_name(s: Seq<TodoItemView>, n: Seq<char>) -> bool {
    exists|i: int| 0 <= i < s.len() && #[trigger] s[i].name == n
}

/// `i` is the position of the first task of `s` called `n`.
pub open spec fn first_match(s: Seq<TodoItemView>, n: Seq<char>, i: int) -> bool {
    &&& 0 <= i < s.len()
    &&& s[i].name == n
    &&& forall|j: int| 0 <= j < i ==> #[trigger] s[j].name != n
}

/// The position of the first task of `s` called `n`, if any task has that name.
pub open spec fn position_of(s: Seq<TodoItemView>, n: Seq<char>) -> Option<int> {
    if has_name(s, n) {
        Some(choose|i: int| first_match(s, n, i))
    } else {
        None
    }
}

/// The tasks after adding `t`: appended at the end, unless its name is taken.
pub open spec fn after_add(s: Seq<TodoItemView>, t: TodoItemView) -> Seq<TodoItemView> {
    if has_name(s, t.name) {
        s
    } else {
        s.push(t)
    }
}

/// The tasks after deleting the first one called `n`, if there is one.
pub open spec fn after_delete(s: Seq<TodoItemView>, n: Seq<char>) -> Seq<TodoItemView> {
    match position_of(s, n) {
        Some(k) => s.remove(k),
        None => s,
    }
}

/// The tasks after the first one called `n`, if there is one, is replaced by `t`.
pub open spec fn after_edit(s: Seq<TodoItemView>, n: Seq<char>, t: TodoItemView) -> Seq<
    TodoItemView,
> {
    match position_of(s, n) {
        Some(k) => s.update(k, t),
        None => s,
    }
}

/// A task with a given name has a first position among the tasks with that name.
pub proof fn lemma_first_match_exists(s: Seq<TodoItemView>, n: Seq<char>, k: int)
    requires
        0 <= k < s.len(),
        s[k].name == n,
    ensures
        exists|i: int| first_match(s, n, i),
    decreases k,
{
    if forall|j: int| 0 <= j < k ==> #[trigger] s[j].name != n {
        assert(first_match(s, n, k));
    } else {
        let j = choose|j: int| 0 <= j < k && #[trigger] s[j].name == n;
        lemma_first_match_exists(s, n, j);
    }
}

/// The first position of a name is unique, and it is what `position_of` gives.
pub proof fn lemma_position_of(s: Seq<TodoItemView>, n: Seq<char>, i: int)
    requires
        first_match(s, n, i),
    ensures
        has_name(s, n),
        position_of(s, n) == Some(i),
{
    assert(s[i].name == n);
    lemma_first_match_exists(s, n, i);
    let k = choose|k: int| first_match(s, n, k);
    if k < i {
        assert(s[k].name != n);
    } else if i < k {
        assert(s[i].name != n);
    }
}

/// Adding a task whose name is already taken leaves the tasks as they were.
pub proof fn lemma_add_rejects_duplicate(s: Seq<TodoItemView>, t: TodoItemView)
    requires
        has_name(s, t.name),
    ensures
        after_add(s, t) == s,
{
}

/// Deleting a name that no task has leaves the tasks as they were.
pub proof fn lemma_delete_missing(s: Seq<TodoItemView>, n: Seq<char>)
    requires
        !has_name(s, n),
    ensures
        after_delete(s, n) == s,
{
}

/// Deleting a name that a task has removes exactly one task with that name,
/// and the others keep their relative order.
pub proof fn lemma_delete_present(s: Seq<TodoItemView>, n: Seq<char>)
    requires
        has_name(s, n),
    ensures
        after_delete(s, n).len() == s.len() - 1,
        exists|k: int|
            0 <= k < s.len() && #[trigger] s[k].name == n && (forall|j: int|
                0 <= j < k ==> after_delete(s, n)[j] == s[j]) && (forall|j: int|
                k <= j < s.len() - 1 ==> after_delete(s, n)[j] == s[j + 1]),
{
    let i = choose|i: int| 0 <= i < s.len() && #[trigger] s[i].name == n;
    lemma_first_match_exists(s, n, i);
    let k = choose|k: int| first_match(s, n, k);
    lemma_position_of(s, n, k);
    assert(s[k].name == n);
}

/// Editing a name that a task has replaces that one task at its position and
/// changes no other task.
pub proof fn lemma_edit_in_place(s: Seq<TodoItemView>, n: Seq<char>, t: TodoItemView)
    requires
        has_name(s, n),
    ensures
        after_edit(s, n, t).len() == s.len(),
        exists|k: int|
            0 <= k < s.len() && #[trigger] s[k].name == n && after_edit(s, n, t)[k] == t && (
            forall|j: int| 0 <= j < s.len() && j != k ==> after_edit(s, n, t)[j] == s[j]),
{
    let i = choose|i: int| 0 <= i < s.len() && #[trigger] s[i].name == n;
    lemma_first_match_exists(s, n, i);
    let k = choose|k: int| first_match(s, n, k);
    lemma_position_of(s, n, k);
    assert(s[k].name == n);
}

/// Editing a name that no task has leaves the tasks as they were.
pub proof fn lemma_edit_missing(s: Seq<TodoItemView>, n: Seq<char>, t: TodoItemView)
    requires
        !has_name(s, n),
    ensures
        after_edit(s, n, t) == s,
{
}

/// On an empty store no name is found, so delete and edit change nothing.
pub proof fn lemma_empty_store(n: Seq<char>, t: TodoItemView)
    ensures
        !has_name(Seq::<TodoItemView>::empty(), n),
        after_delete(Seq::<TodoItemView>::empty(), n) == Seq::<TodoItemView>::empty(),
        after_edit(Seq::<TodoItemView>::empty(), n, t) == Seq::<TodoItemView>::empty(),
{
}

/// Why an operation on the store was refused. The store is left as it was.
#[derive(Debug, Clone, Copy, PartialEq, Eq, Structural)]
pub enum StoreError {
    /// A task with the same name is already in the store.
    AlreadyExists,
    /// No task has the name asked for.
    NotFound,
}

/// The ordered collection of tasks, in the order in which they were added.
pub struct TodoList {
    items: Vec<TodoItem>,
}

impl View for TodoList {
    type V = Seq<TodoItemView>;

    closed spec fn view(&self) -> Seq<TodoItemView> {
        self.items@.map_values(|t: TodoItem| t@)
    }
}

impl TodoList {
    /// An empty store.
    pub fn new() -> (r: TodoList)
        ensures
            r@ == Seq::<TodoItemView>::empty(),
    {
        let r = TodoList { items: Vec::new() };
        assert(r@ =~= Seq::<TodoItemView>::empty());
        r
    }

    /// A store that holds `items`, in their order, as loaded from disk.
    pub fn from_items(items: Vec<TodoItem>) -> (r: TodoList)
        ensures
            r@ == items@.map_values(|t: TodoItem| t@),
    {
        TodoList { items }
    }

    /// Gives up the store and hands its tasks back in order, as they are saved.
    pub fn into_items(self) -> (r: Vec<TodoItem>)
        ensures
            r@.map_values(|t: TodoItem| t@) == self@,
    {
        self.items
    }

    /// The number of tasks.
    pub fn len(&self) -> (r: usize)
        ensures
            r == self@.len(),
    {
        self.items.len()
    }

    /// All tasks in their current order, for display.
    pub fn list(&self) -> (r: &Vec<TodoItem>)
        ensures
            r@.map_values(|t: TodoItem| t@) == self@,
    {
        &self.items
    }

    /// The position of the first task called `name`, compared exactly.
    pub fn find_index(&self, name: &str) -> (r: Option<usize>)
        ensures
            match r {
                Some(i) => first_match(self@, name@, i as int) && position_of(self@, name@)
                    == Some(i as int),
                None => !has_name(self@, name@) && position_of(self@, name@) == None::<int>,
            },
    {
        let key: String = name.to_owned();
        let mut i: usize = 0;
        while i < self.items.len()
            invariant
                key@ == name@,
                i <= self.items@.len(),
                self@.len() == self.items@.len(),
                forall|j: int| 0 <= j < i ==> #[trigger] self@[j].name != name@,
            decreases self.items@.len() - i,
        {
            if self.items[i].name == key {
                assert(first_match(self@, name@, i as int));
                proof {
                    lemma_position_of(self@, name@, i as int);
                }
                return Some(i);
            }
            i = i + 1;
        }
        None
    }

    /// Appends `item`, unless a task with its name is already there.
    pub fn add(&mut self, item: TodoItem) -> (r: Result<(), StoreError>)
        ensures
            final(self)@ == after_add(old(self)@, item@),
            r == Ok::<(), StoreError>(()) <==> !has_name(old(self)@, item.name@),
            r == Err::<(), StoreError>(StoreError::AlreadyExists) <==> has_name(
                old(self)@,
                item.name@,
            ),
    {
        match self.find_index(item.name.as_str()) {
            Some(_) => Err(StoreError::AlreadyExists),
            None => {
                self.items.push(item);
                assert(self@ =~= old(self)@.push(item@));
                Ok(())
            },
        }
    }

    /// Replaces the first task called `name` by `item`, at the same position.
    pub fn edit(&mut self, name: &str, item: TodoItem) -> (r: Result<usize, StoreError>)
        ensures
            final(self)@ == after_edit(old(self)@, name@, item@),
            match r {
                Ok(i) => position_of(old(self)@, name@) == Some(i as int),
                Err(e) => e == StoreError::NotFound && !has_name(old(self)@, name@),
            },
    {
        match self.find_index(name) {
            Some(i) => {
                self.items.set(i, item);
                assert(self@ =~= old(self)@.update(i as int, item@));
                Ok(i)
            },
            None => Err(StoreError::NotFound),
        }
    }

    /// Removes the first task called `name`; the others keep their order.
    pub fn delete(&mut self, name: &str) -> (r: Result<TodoItem, StoreError>)
        ensures
            final(self)@ == after_delete(old(self)@, name@),
            match r {
                Ok(t) => has_name(old(self)@, name@) && t@ == old(self)@[position_of(
                    old(self)@,
                    name@,
                )->0],
                Err(e) => e == StoreError::NotFound && !has_name(old(self)@, name@),
            },
    {
        match self.find_index(name) {
            Some(i) => {
                let t = self.items.remove(i);
                assert(self@ =~= old(self)@.remove(i as int));
                Ok(t)
            },
            None => Err(StoreError::NotFound),
        }
    }
}

} // verus!
