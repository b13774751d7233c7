use vstd::prelude::*;
use vstd::string::*;
use crate::forms::todo::{UpdateTodo, UpdateTodoView};
use crate::model::todo::{Todo, TodoView};
use crate::storage::statement::{joined, Value, ValueView};

verus! {

/// One field of a todo together with the value it is to take. The clause
/// text and the bound values of an update are both derived from one ordered
/// run of these, so that a placeholder can never meet another field's value.
#[derive(Debug)]
pub enum Assignment {
    Content(String),
    Completed(bool),
}

/// An assignment as plain data.
pub enum AssignmentView {
    Content(Seq<char>),
    Completed(bool),
}

impl View for Assignment {
    type V = AssignmentView;

    open spec fn view(&self) -> AssignmentView {
        match self {
            Assignment::Content(text) => AssignmentView::Content(text@),
            Assignment::Completed(flag) => AssignmentView::Completed(*flag),
        }
    }
}

/// The plain data of a run of assignments, in the same order.
pub open spec fn assignment_views(assignments: Seq<Assignment>) -> Seq<AssignmentView> {
    assignments.map_values(|assignment: Assignment| assignment@)
}

impl AssignmentView {
    /// The column the assignment writes.
    pub open spec fn column(self) -> Seq<char> {
        match self {
            AssignmentView::Content(_) => "content"@,
            AssignmentView::Completed(_) => "completed"@,
        }
    }

    /// The column followed by its placeholder.
    pub open spec fn clause(self) -> Seq<char> {
        self.column() + " = ?"@
    }

    /// The value bound to the placeholder.
    pub open spec fn value(self) -> ValueView {
        match self {
            AssignmentView::Content(text) => ValueView::Text(text),
            AssignmentView::Completed(flag) => ValueView::Boolean(flag),
        }
    }

    /// The todo after the assignment: the named field takes the value, every
    /// other field stays.
    pub open spec fn apply(self, todo: TodoView) -> TodoView {
        match self {
            AssignmentView::Content(text) => TodoView { content: text, ..todo },
            AssignmentView::Completed(flag) => TodoView { completed: flag, ..todo },
        }
    }
}

/// The assignments a sparse update asks for: one for each field that is
/// present, content before completed.
pub open spec fn patch_assignments(patch: UpdateTodoView) -> Seq<AssignmentView> {
    let content = match patch.content {
        Some(text) => seq![AssignmentView::Content(text)],
        None => Seq::<AssignmentView>::empty(),
    };
    let completed = match patch.completed {
        Some(flag) => seq![AssignmentView::Completed(flag)],
        None => Seq::<AssignmentView>::empty(),
    };
    content + completed
}

/// The text between `SET` and `WHERE`: the clauses of the assignments in
/// order, separated by commas.
pub open spec fn set_clause_text(assignments: Seq<AssignmentView>) -> Seq<char> {
    joined(assignments.map_values(|assignment: AssignmentView| assignment.clause()), ", "@)
}

/// The values of the assignments, in the order of their clauses.
pub open spec fn bound_values(assignments: Seq<AssignmentView>) -> Seq<ValueView> {
    assignments.map_values(|assignment: AssignmentView| assignment.value())
}

/// The todo after all assignments were applied in order.
pub open spec fn apply_all(assignments: Seq<AssignmentView>, todo: TodoView) -> TodoView
    decreases assignments.len(),
{
    if assignments.len() == 0 {
        todo
    } else {
        assignments.last().apply(apply_all(assignments.drop_last(), todo))
    }
}

/// The todo after a sparse update: each field that is present is replaced,
/// each field that is absent is kept, and neither the id nor the work-list
/// changes.
pub open spec fn patched(patch: UpdateTodoView, todo: TodoView) -> TodoView {
    TodoView {
        id: todo.id,
        content: match patch.content {
            Some(text) => text,
            None => todo.content,
        },
        completed: match patch.completed {
            Some(flag) => flag,
            None => todo.completed,
        },
        work_list_id: todo.work_list_id,
    }
}

/// Applying the assignments of a sparse update one after the other gives
/// the todo that the update describes field by field.
pub proof fn lemma_assignments_apply_the_patch(patch: UpdateTodoView, todo: TodoView)
    ensures
        apply_all(patch_assignments(patch), todo) == patched(patch, todo),
{
    let all = patch_assignments(patch);
    reveal_with_fuel(apply_all, 3);
    if all.len() == 2 {
        assert(all.drop_last().drop_last().len() == 0);
        assert(all.drop_last().last() == all[0]);
    } else if all.len() == 1 {
        assert(all.drop_last().len() == 0);
    }
}

/// No run of assignments changes the id of a todo or moves it to another
/// work-list.
pub proof fn lemma_assignments_keep_identity(assignments: Seq<AssignmentView>, todo: TodoView)
    ensures
        apply_all(assignments, todo).id == todo.id,
        apply_all(assignments, todo).work_list_id == todo.work_list_id,
    decreases assignments.len(),
{
    if assignments.len() > 0 {
        lemma_assignments_keep_identity(assignments.drop_last(), todo);
    }
}

/// A field that a sparse update does not name stays as it is, and an
/// update that names no field changes nothing.
pub proof fn lemma_absent_fields_stay(patch: UpdateTodoView, todo: TodoView)
    ensures
        patch.content is None ==> patched(patch, todo).content == todo.content,
        patch.completed is None ==> patched(patch, todo).completed == todo.completed,
        patch.content matches Some(text) ==> patched(patch, todo).content == text,
        patch.completed matches Some(flag) ==> patched(patch, todo).completed == flag,
        patched(patch, todo).id == todo.id,
        patched(patch, todo).work_list_id == todo.work_list_id,
        patch.is_empty() ==> patched(patch, todo) == todo,
{
}

/// A sparse update yields no assignment exactly when no field is present.
pub proof fn lemma_no_assignment_iff_empty(patch: UpdateTodoView)
    ensures
        patch_assignments(patch).len() == 0 <==> patch.is_empty(),
        patch_assignments(patch).len() <= 2,
{
}

impl Assignment {
    /// The same assignment, owned anew.
    pub fn duplicate(&self) -> (copy: Self)
        ensures
            copy@ == self@,
    {
        match self {
            Assignment::Content(text) => Assignment::Content(text.clone()),
            Assignment::Completed(flag) => Assignment::Completed(*flag),
        }
    }

    /// Writes the column and its placeholder.
    pub fn clause(&self) -> (text: String)
        ensures
            text@ == self@.clause(),
    {
        match self {
            Assignment::Content(_) => String::from_str("content").concat(" = ?"),
            Assignment::Completed(_) => String::from_str("completed").concat(" = ?"),
        }
    }

    /// The value to bind to the placeholder.
    pub fn value(&self) -> (value: Value)
        ensures
            value@ == self@.value(),
    {
        match self {
            Assignment::Content(text) => Value::Text(text.clone()),
            Assignment::Completed(flag) => Value::Boolean(*flag),
        }
    }
}

impl UpdateTodo {
    /// Builds the ordered run of assignments from which both the clause
    /// text and the bound values are derived.
    pub fn assignments(&self) -> (assignments: Vec<Assignment>)
        ensures
            assignment_views(assignments@) == patch_assignments(self@),
    {
        let mut assignments: Vec<Assignment> = Vec::new();
        match &self.content {
            Some(text) => {
                assignments.push(Assignment::Content(text.clone()));
            },
            None => {},
        }
        match self.completed {
            Some(flag) => {
                assignments.push(Assignment::Completed(flag));
            },
            None => {},
        }
        assert(assignment_views(assignments@) =~= patch_assignments(self@));
        assignments
    }

    /// Whether no field is present.
    pub fn is_empty(&self) -> (empty: bool)
        ensures
            empty == self@.is_empty(),
    {
        self.content.is_none() && self.completed.is_none()
    }
}

/// Writes the clauses of the assignments in order, separated by commas.
pub fn set_clause(assignments: &Vec<Assignment>) -> (text: String)
    ensures
        text@ == set_clause_text(assignment_views(assignments@)),
{
    let mut text = String::new();
    let mut done: usize = 0;
    let ghost clauses = assignment_views(assignments@).map_values(
        |assignment: AssignmentView| assignment.clause(),
    );
    while done < assignments.len()
        invariant
            done <= assignments.len(),
            clauses == assignment_views(assignments@).map_values(
                |assignment: AssignmentView| assignment.clause(),
            ),
            text@ == joined(clauses.take(done as int), ", "@),
        decreases assignments.len() - done,
    {
        if done > 0 {
            text.append(", ");
        }
        let clause = assignments[done].clause();
        text.append(clause.as_str());
        proof {
            let before = clauses.take(done as int);
            let after = clauses.take(done + 1);
            assert(after.drop_last() =~= before);
            assert(after.last() == clause@);
            if done == 0 {
                assert(text@ =~= clause@);
                assert(after[0] == clause@);
            }
        }
        done = done + 1;
    }
    proof {
        assert(clauses.take(assignments.len() as int) =~= clauses);
    }
    text
}

/// Applies the assignments to the todo in order; what no assignment names
/// stays as it is.
pub fn apply_assignments(todo: &mut Todo, assignments: &Vec<Assignment>)
    ensures
        final(todo)@ == apply_all(assignment_views(assignments@), old(todo)@),
{
    let ghost all = assignment_views(assignments@);
    let mut done: usize = 0;
    while done < assignments.len()
        invariant
            done <= assignments.len(),
            all == assignment_views(assignments@),
            todo@ == apply_all(all.take(done as int), old(todo)@),
        decreases assignments.len() - done,
    {
        proof {
            assert(all.take(done + 1).drop_last() =~= all.take(done as int));
            assert(all.take(done + 1).last() == assignments@[done as int]@);
        }
        match &assignments[done] {
            Assignment::Content(text) => {
                todo.content = text.clone();
            },
            Assignment::Completed(flag) => {
                todo.completed = *flag;
            },
        }
        done = done + 1;
    }
    proof {
        assert(all.take(assignments.len() as int) =~= all);
    }
}

} // verus!
