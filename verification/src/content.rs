//! Content sub-controller: the list-of-tasks panel for the currently
//! selected list. It owns that view state and never talks to the backend
//! itself: its `update` returns intents (`Command` values) that the
//! application controller translates into backend commands or further
//! messages.

use vstd::prelude::*;

use crate::models::{List, ListV, Task, TaskV};

verus! {

/// Events delivered to the content panel.
#[derive(Clone, Debug)]
pub enum Message {
    /// The selected list changed (or was cleared).
    List(Option<List>),
    /// The backend returned the tasks of the selected list.
    SetItems(Vec<Task>),
    /// A task row was chosen for detail display.
    Select(usize),
    /// Move the row focus down / up.
    ItemDown,
    ItemUp,
    /// Edit the new-task entry text.
    Input(String),
    /// Create a task from the entry text.
    AddTask,
    /// Set the completion flag of the task with the given id.
    Complete(String, bool),
    /// Remove the task with the given id.
    Delete(String),
    /// Retitle the task with the given id.
    Rename(String, String),
    /// Set the priority of the task with the given id.
    SetPriority(String, u8),
}

/// Intents the content panel hands up to the controller.
#[derive(Clone, Debug, PartialEq, Eq)]
pub enum Command {
    /// Fetch the tasks of the list with this id.
    GetTasks(String),
    /// Show the given task in the details panel.
    DisplayTask(Task),
    /// Persist the given task's new state.
    UpdateTask(Task),
    /// Delete the task with this id from the selected list.
    Delete(String),
    /// Persist this new task.
    CreateTask(Task),
}

/// Mathematical image of a content `Message`.
#[verifier::ext_equal]
pub ghost enum MessageV {
    List(Option<ListV>),
    SetItems(Seq<TaskV>),
    Select(usize),
    ItemDown,
    ItemUp,
    Input(Seq<char>),
    AddTask,
    Complete(Seq<char>, bool),
    Delete(Seq<char>),
    Rename(Seq<char>, Seq<char>),
    SetPriority(Seq<char>, u8),
}

impl View for Message {
    type V = MessageV;

    open spec fn view(&self) -> MessageV {
        match self {
            Message::List(l) => MessageV::List(
                match l {
                    Some(list) => Some(list@),
                    None => None,
                },
            ),
            Message::SetItems(ts) => MessageV::SetItems(ts.deep_view()),
            Message::Select(i) => MessageV::Select(*i),
            Message::ItemDown => MessageV::ItemDown,
            Message::ItemUp => MessageV::ItemUp,
            Message::Input(s) => MessageV::Input(s@),
            Message::AddTask => MessageV::AddTask,
            Message::Complete(id, done) => MessageV::Complete(id@, *done),
            Message::Delete(id) => MessageV::Delete(id@),
            Message::Rename(id, title) => MessageV::Rename(id@, title@),
            Message::SetPriority(id, p) => MessageV::SetPriority(id@, *p),
        }
    }
}

/// Mathematical image of a content `Command`.
#[verifier::ext_equal]
pub ghost enum CommandV {
    GetTasks(Seq<char>),
    DisplayTask(TaskV),
    UpdateTask(TaskV),
    Delete(Seq<char>),
    CreateTask(TaskV),
}

impl View for Command {
    type V = CommandV;

    open spec fn view(&self) -> CommandV {
        match self {
            Command::GetTasks(id) => CommandV::GetTasks(id@),
            Command::DisplayTask(t) => CommandV::DisplayTask(t@),
            Command::UpdateTask(t) => CommandV::UpdateTask(t@),
            Command::Delete(id) => CommandV::Delete(id@),
            Command::CreateTask(t) => CommandV::CreateTask(t@),
        }
    }
}

impl DeepView for Command {
    type V = CommandV;

    open spec fn deep_view(&self) -> CommandV {
        self.view()
    }
}

/// State of the content panel.
pub struct Content {
    /// The list whose tasks are shown, if any.
    pub list: Option<List>,
    /// The tasks of that list, in backend order.
    pub tasks: Vec<Task>,
    /// Focused row, an index into `tasks`.
    pub selected: Option<usize>,
    /// Text of the new-task entry.
    pub input: String,
}

/// Mathematical image of the content panel state.
#[verifier::ext_equal]
pub ghost struct ContentV {
    pub list: Option<ListV>,
    pub tasks: Seq<TaskV>,
    pub selected: Option<int>,
    pub input: Seq<char>,
}

impl View for Content {
    type V = ContentV;

    open spec fn view(&self) -> ContentV {
        ContentV {
            list: match self.list {
                Some(l) => Some(l@),
                None => None,
            },
            tasks: self.tasks.deep_view(),
            selected: match self.selected {
                Some(i) => Some(i as int),
                None => None,
            },
            input: self.input@,
        }
    }
}

/// Index of the first task with the given id, at or after position `i`.
pub open spec fn find_task_from(tasks: Seq<TaskV>, id: Seq<char>, i: int) -> Option<int>
    decreases tasks.len() - i,
{
    if i < 0 || i >= tasks.len() {
        None
    } else if tasks[i].id == id {
        Some(i)
    } else {
        find_task_from(tasks, id, i + 1)
    }
}

/// Index of the first task with the given id, if any.
pub open spec fn find_task(tasks: Seq<TaskV>, id: Seq<char>) -> Option<int> {
    find_task_from(tasks, id, 0)
}

/// Whether the panel state is well formed: the focused row exists.
pub open spec fn content_wf(c: ContentV) -> bool {
    match c.selected {
        Some(i) => 0 <= i < c.tasks.len(),
        None => true,
    }
}

/// The transition function of the content panel: next state and emitted
/// intents for one message.
pub open spec fn content_step(pre: ContentV, m: MessageV) -> (ContentV, Seq<CommandV>) {
    match m {
        MessageV::List(l) => (
            ContentV { list: l, tasks: Seq::empty(), selected: None, ..pre },
            match l {
                Some(list) => seq![CommandV::GetTasks(list.id)],
                None => Seq::empty(),
            },
        ),
        MessageV::SetItems(ts) => (
            ContentV { tasks: ts, selected: None, ..pre },
            Seq::empty(),
        ),
        MessageV::Select(i) => if i < pre.tasks.len() {
            (
                ContentV { selected: Some(i as int), ..pre },
                seq![CommandV::DisplayTask(pre.tasks[i as int])],
            )
        } else {
            (pre, Seq::empty())
        },
        MessageV::ItemDown => (
            ContentV {
                selected: match pre.selected {
                    Some(i) => if i + 1 < pre.tasks.len() {
                        Some(i + 1)
                    } else {
                        Some(i)
                    },
                    None => if pre.tasks.len() > 0 {
                        Some(0int)
                    } else {
                        None
                    },
                },
                ..pre
            },
            Seq::empty(),
        ),
        MessageV::ItemUp => (
            ContentV {
                selected: match pre.selected {
                    Some(i) => if i > 0 {
                        Some(i - 1)
                    } else {
                        Some(i)
                    },
                    None => if pre.tasks.len() > 0 {
                        Some(0int)
                    } else {
                        None
                    },
                },
                ..pre
            },
            Seq::empty(),
        ),
        MessageV::Input(s) => (ContentV { input: s, ..pre }, Seq::empty()),
        MessageV::AddTask => match pre.list {
            Some(list) => if pre.input.len() > 0 {
                let task = TaskV {
                    id: Seq::empty(),
                    list_id: list.id,
                    title: pre.input,
                    priority: 0u8,
                    completed: false,
                    favorite: false,
                };
                (
                    ContentV { tasks: pre.tasks.push(task), input: Seq::empty(), ..pre },
                    seq![CommandV::CreateTask(task)],
                )
            } else {
                (pre, Seq::empty())
            },
            None => (pre, Seq::empty()),
        },
        MessageV::Complete(id, done) => match find_task(pre.tasks, id) {
            Some(i) => {
                let task = TaskV { completed: done, ..pre.tasks[i] };
                (
                    ContentV { tasks: pre.tasks.update(i, task), ..pre },
                    seq![CommandV::UpdateTask(task)],
                )
            },
            None => (pre, Seq::empty()),
        },
        MessageV::Delete(id) => match find_task(pre.tasks, id) {
            Some(i) => (
                ContentV { tasks: pre.tasks.remove(i), selected: None, ..pre },
                seq![CommandV::Delete(id)],
            ),
            None => (pre, Seq::empty()),
        },
        MessageV::Rename(id, title) => match find_task(pre.tasks, id) {
            Some(i) => {
                let task = TaskV { title: title, ..pre.tasks[i] };
                (
                    ContentV { tasks: pre.tasks.update(i, task), ..pre },
                    seq![CommandV::UpdateTask(task)],
                )
            },
            None => (pre, Seq::empty()),
        },
        MessageV::SetPriority(id, p) => match find_task(pre.tasks, id) {
            Some(i) => {
                let task = TaskV { priority: p, ..pre.tasks[i] };
                (
                    ContentV { tasks: pre.tasks.update(i, task), ..pre },
                    seq![CommandV::UpdateTask(task)],
                )
            },
            None => (pre, Seq::empty()),
        },
    }
}

impl Content {
    /// A fresh, empty content panel.
    pub fn new() -> (r: Content)
        ensures
            r@ == (ContentV {
                list: None::<ListV>,
                tasks: Seq::<TaskV>::empty(),
                selected: None::<int>,
                input: Seq::<char>::empty(),
            }),
            content_wf(r@),
    {
        let c = Content { list: None, tasks: Vec::new(), selected: None, input: String::new() };
        proof {
            assert(c@ =~= ContentV {
                list: None::<ListV>,
                tasks: Seq::<TaskV>::empty(),
                selected: None::<int>,
                input: Seq::<char>::empty(),
            });
        }
        c
    }

    /// Index of the first task with the given id, if any.
    fn find_index(&self, id: &String) -> (r: Option<usize>)
        ensures
            match r {
                Some(j) => find_task(self@.tasks, id@) == Some(j as int) && j < self.tasks.len(),
                None => find_task(self@.tasks, id@) is None,
            },
    {
        let mut j: usize = 0;
        while j < self.tasks.len()
            invariant
                j <= self.tasks.len(),
                self@.tasks.len() == self.tasks.len(),
                find_task(self@.tasks, id@) == find_task_from(self@.tasks, id@, j as int),
            decreases self.tasks.len() - j,
        {
            assert(self@.tasks[j as int] == self.tasks[j as int]@);
            if self.tasks[j].id == *id {
                return Some(j);
            }
            j += 1;
        }
        None
    }

    /// Fold one message into the panel state; the returned intents are for
    /// the controller to translate.
    pub fn update(&mut self, message: Message) -> (r: Vec<Command>)
        requires
            content_wf(old(self)@),
        ensures
            (final(self)@, r.deep_view()) == content_step(old(self)@, message@),
            content_wf(final(self)@),
    {
        let mut out: Vec<Command> = Vec::new();
        match message {
            Message::List(l) => {
                match &l {
                    Some(list) => {
                        out.push(Command::GetTasks(list.id.clone()));
                    },
                    None => {},
                }
                self.list = l;
                self.tasks = Vec::new();
                self.selected = None;
            },
            Message::SetItems(ts) => {
                self.tasks = ts;
                self.selected = None;
            },
            Message::Select(i) => {
                if i < self.tasks.len() {
                    self.selected = Some(i);
                    out.push(Command::DisplayTask(self.tasks[i].clone()));
                }
            },
            Message::ItemDown => {
                match self.selected {
                    Some(i) => {
                        assert(i < self.tasks@.len());
                        if i + 1 < self.tasks.len() {
                            self.selected = Some(i + 1);
                        }
                    },
                    None => {
                        if self.tasks.len() > 0 {
                            self.selected = Some(0);
                        }
                    },
                }
            },
            Message::ItemUp => {
                match self.selected {
                    Some(i) => {
                        if i > 0 {
                            self.selected = Some(i - 1);
                        }
                    },
                    None => {
                        if self.tasks.len() > 0 {
                            self.selected = Some(0);
                        }
                    },
                }
            },
            Message::Input(s) => {
                self.input = s;
            },
            Message::AddTask => {
                match &self.list {
                    Some(list) => {
                        if !self.input.as_str().is_empty() {
                            let title = self.input.clone();
                            let task = Task::new(title, list.id.clone());
                            self.tasks.push(task.clone());
                            self.input = String::new();
                            out.push(Command::CreateTask(task));
                        }
                    },
                    None => {},
                }
            },
            Message::Complete(id, done) => {
                match self.find_index(&id) {
                    Some(j) => {
                        let mut task = self.tasks[j].clone();
                        task.completed = done;
                        self.tasks[j] = task.clone();
                        out.push(Command::UpdateTask(task));
                    },
                    None => {},
                }
            },
            Message::Delete(id) => {
                match self.find_index(&id) {
                    Some(j) => {
                        self.tasks.remove(j);
                        self.selected = None;
                        out.push(Command::Delete(id));
                    },
                    None => {},
                }
            },
            Message::Rename(id, title) => {
                match self.find_index(&id) {
                    Some(j) => {
                        let mut task = self.tasks[j].clone();
                        task.title = title;
                        self.tasks[j] = task.clone();
                        out.push(Command::UpdateTask(task));
                    },
                    None => {},
                }
            },
            Message::SetPriority(id, p) => {
                match self.find_index(&id) {
                    Some(j) => {
                        let mut task = self.tasks[j].clone();
                        task.priority = p;
                        self.tasks[j] = task.clone();
                        out.push(Command::UpdateTask(task));
                    },
                    None => {},
                }
            },
        }
        proof {
            assert((self@, out.deep_view()) =~~= content_step(old(self)@, message@));
        }
        out
    }
}

} // verus!
