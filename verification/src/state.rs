use crate::error::TodoError;
use vstd::prelude::*;

verus! {

/// Bound on the number of stored tasks. The capacity test runs before the
/// new task is appended and rejects only once the length has already
/// exceeded this bound, so the list can in fact reach one entry more than
/// the bound; that boundary is deliberate, stated in the contract of `add`
/// and pinned by the tests.
pub const MAX_NUMBER_OF_ITEMS: usize = 1000;

/// One task record.
#[derive(Clone, Debug, PartialEq)]
pub struct Todo {
    /// Non-empty text, immutable after creation.
    pub title: String,
    /// Completion flag, initially false.
    pub is_done: bool,
    /// Logical height recorded at creation time; immutable.
    pub created_block: u64,
    /// Absent until the task is first toggled, then the height of the
    /// latest toggle.
    pub updated_block: Option<u64>,
}

/// The mathematical value of a task: the title as a sequence of characters
/// together with the flag and the two heights.
pub ghost struct TodoView {
    pub title: Seq<char>,
    pub is_done: bool,
    pub created_block: u64,
    pub updated_block: Option<u64>,
}

impl View for Todo {
    type V = TodoView;

    open spec fn view(&self) -> TodoView {
        TodoView {
            title: self.title@,
            is_done: self.is_done,
            created_block: self.created_block,
            updated_block: self.updated_block,
        }
    }
}

/// The task that `add` at `height` appends: not done, stamped with the
/// creation height, never yet updated.
pub open spec fn new_task(title: Seq<char>, height: u64) -> TodoView {
    TodoView { title: title, is_done: false, created_block: height, updated_block: None }
}

/// The task as `toggle` at `height` leaves it: the flag flipped, the update
/// stamp refreshed, everything else untouched.
pub open spec fn toggled_task(t: TodoView, height: u64) -> TodoView {
    TodoView {
        title: t.title,
        is_done: !t.is_done,
        created_block: t.created_block,
        updated_block: Some(height),
    }
}

/// The whole list as `toggle` at `height` leaves it when position `i`
/// (0-based here) is addressed: only that task changes.
pub open spec fn toggle_at(s: Seq<TodoView>, i: int, height: u64) -> Seq<TodoView> {
    s.update(i, toggled_task(s[i], height))
}

/// A task is well formed when its update stamp, if present, is not older
/// than its creation stamp.
pub open spec fn task_wf(t: TodoView) -> bool {
    t.updated_block matches Some(u) ==> u >= t.created_block
}

/// A list is well formed when every task in it is.
pub open spec fn list_wf(s: Seq<TodoView>) -> bool {
    forall|i: int| 0 <= i < s.len() ==> task_wf(#[trigger] s[i])
}

/// The single persisted document: the ordered list of tasks, insertion
/// order preserved, titles not required to be unique. A task's externally
/// visible id is its 1-based position in `list`, so ids shift down by one
/// when an earlier task is removed.
#[derive(Debug, PartialEq)]
pub struct TodoList {
    pub list: Vec<Todo>,
}

impl View for TodoList {
    type V = Seq<TodoView>;

    open spec fn view(&self) -> Seq<TodoView> {
        self.list@.map_values(|t: Todo| t@)
    }
}

impl TodoList {
    /// Creates the empty document. Run once, at system start, before any
    /// other operation is accepted.
    pub fn new() -> (r: TodoList)
        ensures
            r@ == Seq::<TodoView>::empty(),
    {
        let r = TodoList { list: Vec::new() };
        proof {
            assert(r@ =~= Seq::<TodoView>::empty());
        }
        r
    }

    /// Appends a new task with the given title, created at `height`.
    ///
    /// An empty title is rejected as `InvalidInput`; a list whose length
    /// already exceeds `MAX_NUMBER_OF_ITEMS` rejects the add as
    /// `CapacityExceeded`. Either rejection leaves the list unchanged.
    pub fn add(&mut self, title: String, height: u64) -> (r: Result<(), TodoError>)
        ensures
            title@.len() == 0 ==> (r matches Err(TodoError::InvalidInput { val })
                && val@ == "Empty content"@ && final(self)@ == old(self)@),
            title@.len() > 0 && old(self)@.len() > MAX_NUMBER_OF_ITEMS ==> (r matches Err(
                TodoError::CapacityExceeded { val },
            ) && val@ == "List is full"@ && final(self)@ == old(self)@),
            title@.len() > 0 && old(self)@.len() <= MAX_NUMBER_OF_ITEMS ==> (r is Ok
                && final(self)@ == old(self)@.push(new_task(title@, height))),
    {
        if title.as_str().is_empty() {
            return Err(TodoError::InvalidInput { val: "Empty content".to_owned() });
        }
        if self.list.len() > MAX_NUMBER_OF_ITEMS {
            return Err(TodoError::CapacityExceeded { val: "List is full".to_owned() });
        }
        let ghost title_view = title@;
        let todo = Todo { title, is_done: false, created_block: height, updated_block: None };
        self.list.push(todo);
        proof {
            assert(self@ =~= old(self)@.push(new_task(title_view, height)));
        }
        Ok(())
    }

    /// Flips the `done` flag of the task at 1-based position `id` and sets
    /// its update stamp to `height`. No other task is touched, and ids do
    /// not shift.
    ///
    /// An id below 1 is rejected as `InvalidInput`; an id beyond the end of
    /// the list as `NotFound`. Either rejection leaves the list unchanged.
    pub fn toggle(&mut self, id: u32, height: u64) -> (r: Result<(), TodoError>)
        ensures
            id < 1 ==> (r matches Err(TodoError::InvalidInput { val }) && val@ == "invalid id"@
                && final(self)@ == old(self)@),
            id >= 1 && id - 1 >= old(self)@.len() ==> (r matches Err(TodoError::NotFound)
                && final(self)@ == old(self)@),
            id >= 1 && id - 1 < old(self)@.len() ==> (r is Ok
                && final(self)@ == toggle_at(old(self)@, id - 1, height)),
    {
        if id < 1 {
            return Err(TodoError::InvalidInput { val: "invalid id".to_owned() });
        }
        let idx = (id - 1) as usize;
        if idx >= self.list.len() {
            return Err(TodoError::NotFound);
        }
        let todo = &mut self.list[idx];
        todo.is_done = !todo.is_done;
        todo.updated_block = Some(height);
        proof {
            assert(self@ =~= toggle_at(old(self)@, idx as int, height));
        }
        Ok(())
    }

    /// Deletes the task at 1-based position `id`; every task after it
    /// shifts down by one position.
    ///
    /// An id below 1 is rejected as `InvalidInput`; an id beyond the end of
    /// the list as `NotFound`. Either rejection leaves the list unchanged.
    pub fn remove(&mut self, id: u32) -> (r: Result<(), TodoError>)
        ensures
            id < 1 ==> (r matches Err(TodoError::InvalidInput { val }) && val@ == "invalid id"@
                && final(self)@ == old(self)@),
            id >= 1 && id - 1 >= old(self)@.len() ==> (r matches Err(TodoError::NotFound)
                && final(self)@ == old(self)@),
            id >= 1 && id - 1 < old(self)@.len() ==> (r is Ok
                && final(self)@ == old(self)@.remove(id - 1)),
    {
        if id < 1 {
            return Err(TodoError::InvalidInput { val: "invalid id".to_owned() });
        }
        let idx = (id - 1) as usize;
        if idx >= self.list.len() {
            return Err(TodoError::NotFound);
        }
        self.list.remove(idx);
        proof {
            assert(self@ =~= old(self)@.remove(idx as int));
        }
        Ok(())
    }

    /// Read-only query: the tasks in stored order, the empty sequence when
    /// there are none. The caller derives a task's id as its 1-based
    /// position in the returned sequence; nothing is mutated.
    pub fn list(&self) -> (r: &Vec<Todo>)
        ensures
            r@.map_values(|t: Todo| t@) == self@,
            r@.len() == self@.len(),
    {
        &self.list
    }
}

} // verus!
