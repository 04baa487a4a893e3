//! A flat ledger that walks a list of sub-tasks in order and keeps the
//! solution recorded for each.

use vstd::prelude::*;

verus! {

#[derive(Clone, Debug)]
pub struct TaskLedger {
    current_idx: usize,
    pub task_list: Vec<String>,
    pub solution_list: Vec<String>,
    pub parent_task: Option<String>,
    pub task_done: bool,
}

/// What a ledger holds, as mathematical values.
pub struct TaskLedgerView {
    pub position: nat,
    pub tasks: Seq<Seq<char>>,
    pub solutions: Seq<Seq<char>>,
    pub parent: Option<Seq<char>>,
    pub done: bool,
}

impl View for TaskLedger {
    type V = TaskLedgerView;

    closed spec fn view(&self) -> TaskLedgerView {
        TaskLedgerView {
            position: self.current_idx as nat,
            tasks: self.task_list.deep_view(),
            solutions: self.solution_list.deep_view(),
            parent: match self.parent_task {
                Some(p) => Some(p@),
                None => None,
            },
            done: self.task_done,
        }
    }
}

impl TaskLedger {
    /// A ledger at its first task, with nothing solved yet.
    pub fn new(task_list: Vec<String>, parent_task: Option<String>) -> (ledger: Self)
        ensures
            ledger@ == (TaskLedgerView {
                position: 0,
                tasks: task_list.deep_view(),
                solutions: Seq::empty(),
                parent: match parent_task {
                    Some(p) => Some(p@),
                    None => None,
                },
                done: false,
            }),
    {
        let ledger = TaskLedger {
            current_idx: 0,
            task_list,
            solution_list: Vec::new(),
            parent_task,
            task_done: false,
        };
        assert(ledger.solution_list.deep_view() =~= Seq::<Seq<char>>::empty());
        ledger
    }

    /// Records the solution of the current task and moves to the next one.
    ///
    /// Nothing is recorded once every task has its solution: the ledger is
    /// left as it was and `false` comes back. The ledger is marked done as
    /// soon as the position reaches the last task of the list.
    pub fn record_solution(&mut self, task_solution: String) -> (recorded: bool)
        ensures
            recorded == (old(self)@.position < old(self)@.tasks.len()),
            !recorded ==> final(self)@ == old(self)@,
            recorded ==> final(self)@ == (TaskLedgerView {
                position: old(self)@.position + 1,
                solutions: old(self)@.solutions.push(task_solution@),
                done: old(self)@.done || old(self)@.position + 2 == old(self)@.tasks.len(),
                ..old(self)@
            }),
    {
        if self.current_idx >= self.task_list.len() {
            return false;
        }
        self.solution_list.push(task_solution);
        self.current_idx += 1;
        if self.current_idx == self.task_list.len() - 1 {
            self.task_done = true;
        }
        assert(self.solution_list.deep_view() =~= old(self).solution_list.deep_view().push(
            task_solution@,
        ));
        true
    }

    /// The task at the current position, if the list reaches that far.
    pub fn current_task(&self) -> (task: Option<String>)
        ensures
            match task {
                Some(t) => self@.position < self@.tasks.len() && t@ == self@.tasks[self@.position
                    as int],
                None => self@.position >= self@.tasks.len(),
            },
    {
        let idx = self.current_idx;
        if idx < self.task_list.len() {
            Some(self.task_list[idx].clone())
        } else {
            None
        }
    }
}

} // verus!
