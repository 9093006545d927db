use vstd::prelude::*;

verus! {

/// The mathematical value of a task: its four fields as plain values.
pub struct TodoItemView {
    pub name: Seq<char>,
    pub is_completed: bool,
    pub notes: Seq<char>,
    pub due_date: Seq<char>,
}

/// One to-do record. The name is the key by which the store finds it; the
/// notes and the due date are free text.
#[derive(Debug, Clone, PartialEq, Eq)]
pub struct TodoItem {
    pub name: String,
    pub is_completed: bool,
    pub notes: String,
    pub due_date: String,
}

impl View for TodoItem {
    type V = TodoItemView;

    open spec fn view(&self) -> TodoItemView {
        TodoItemView {
            name: self.name@,
            is_completed: self.is_completed,
            notes: self.notes@,
            due_date: self.due_date@,
        }
    }
}

impl TodoItem {
    /// A task with every field given.
    pub fn new(name: String, is_completed: bool, notes: String, due_date: String) -> (r: TodoItem)
        ensures
            r@ == (TodoItemView {
                name: name@,
                is_completed,
                notes: notes@,
                due_date: due_date@,
            }),
    {
        TodoItem { name, is_completed, notes, due_date }
    }

    /// A freshly created task: not completed yet.
    pub fn pending(name: String, due_date: String, notes: String) -> (r: TodoItem)
        ensures
            r@ == (TodoItemView {
                name: name@,
                is_completed: false,
                notes: notes@,
                due_date: due_date@,
            }),
    {
        TodoItem { name, is_completed: false, notes, due_date }
    }

    /// The word shown for the completion flag when a task is listed.
    pub fn completed_label(&self) -> (r: &'static str)
        ensures
            self.is_completed ==> r@ == seq!['y', 'e', 's'],
            !self.is_completed ==> r@ == seq!['n', 'o'],
    {
        proof {
            reveal_strlit("yes");
            reveal_strlit("no");
        }
        if self.is_completed {
            "yes"
        } else {
            "no"
        }
    }
}

} // verus!
