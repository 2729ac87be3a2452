//! Details sub-controller: the single-task edit buffer shown in the
//! task-details context panel. Like the content panel it never calls the
//! backend: its `update` returns intents for the controller.

use vstd::prelude::*;

use crate::models::{Task, TaskV};

verus! {

/// Events delivered to the details panel.
#[derive(Clone, Debug)]
pub enum Message {
    /// Retitle the shown task.
    Rename(String),
    /// Set the completion flag of the shown task.
    Complete(bool),
    /// Set the favorite flag of the shown task.
    Favorite(bool),
    /// Ask for the shown task to be deleted.
    Delete,
    /// Pick a priority in the selector.
    PriorityActivate(u8),
    /// Persist the shown task as it stands.
    Save,
}

/// Intents the details panel hands up to the controller.
#[derive(Clone, Debug, PartialEq, Eq)]
pub enum Command {
    /// Persist the given task.
    Update(Task),
    /// Retitle the task with this id.
    Rename(String, String),
    /// Delete the task with this id.
    Delete(String),
    /// Set the completion flag of the task with this id.
    Complete(String, bool),
    /// Set the favorite flag of the task with this id.
    Favorite(String, bool),
    /// Set the priority of the task with this id.
    PriorityActivate(String, u8),
}

/// Mathematical image of a details `Message`.
#[verifier::ext_equal]
pub ghost enum MessageV {
    Rename(Seq<char>),
    Complete(bool),
    Favorite(bool),
    Delete,
    PriorityActivate(u8),
    Save,
}

impl View for Message {
    type V = MessageV;

    open spec fn view(&self) -> MessageV {
        match self {
            Message::Rename(title) => MessageV::Rename(title@),
            Message::Complete(done) => MessageV::Complete(*done),
            Message::Favorite(fav) => MessageV::Favorite(*fav),
            Message::Delete => MessageV::Delete,
            Message::PriorityActivate(p) => MessageV::PriorityActivate(*p),
            Message::Save => MessageV::Save,
        }
    }
}

/// Mathematical image of a details `Command`.
#[verifier::ext_equal]
pub ghost enum CommandV {
    Update(TaskV),
    Rename(Seq<char>, Seq<char>),
    Delete(Seq<char>),
    Complete(Seq<char>, bool),
    Favorite(Seq<char>, bool),
    PriorityActivate(Seq<char>, u8),
}

impl View for Command {
    type V = CommandV;

    open spec fn view(&self) -> CommandV {
        match self {
            Command::Update(t) => CommandV::Update(t@),
            Command::Rename(id, title) => CommandV::Rename(id@, title@),
            Command::Delete(id) => CommandV::Delete(id@),
            Command::Complete(id, done) => CommandV::Complete(id@, *done),
            Command::Favorite(id, fav) => CommandV::Favorite(id@, *fav),
            Command::PriorityActivate(id, p) => CommandV::PriorityActivate(id@, *p),
        }
    }
}

impl DeepView for Command {
    type V = CommandV;

    open spec fn deep_view(&self) -> CommandV {
        self.view()
    }
}

/// State of the details panel.
pub struct Details {
    /// The task being edited, if any.
    pub task: Option<Task>,
    /// The priority shown in the selector.
    pub priority_selected: u8,
}

/// Mathematical image of the details panel state.
#[verifier::ext_equal]
pub ghost struct DetailsV {
    pub task: Option<TaskV>,
    pub priority_selected: u8,
}

impl View for Details {
    type V = DetailsV;

    open spec fn view(&self) -> DetailsV {
        DetailsV {
            task: match self.task {
                Some(t) => Some(t@),
                None => None,
            },
            priority_selected: self.priority_selected,
        }
    }
}

/// The transition function of the details panel: next state and emitted
/// intents for one message. With no task shown every message is a no-op.
pub open spec fn details_step(pre: DetailsV, m: MessageV) -> (DetailsV, Seq<CommandV>) {
    match pre.task {
        None => (pre, Seq::empty()),
        Some(t) => match m {
            MessageV::Rename(title) => (
                DetailsV { task: Some(TaskV { title, ..t }), ..pre },
                seq![CommandV::Rename(t.id, title)],
            ),
            MessageV::Complete(done) => (
                DetailsV { task: Some(TaskV { completed: done, ..t }), ..pre },
                seq![CommandV::Complete(t.id, done)],
            ),
            MessageV::Favorite(fav) => (
                DetailsV { task: Some(TaskV { favorite: fav, ..t }), ..pre },
                seq![CommandV::Favorite(t.id, fav)],
            ),
            MessageV::Delete => (pre, seq![CommandV::Delete(t.id)]),
            MessageV::PriorityActivate(p) => (
                DetailsV {
                    task: Some(TaskV { priority: p, ..t }),
                    priority_selected: p,
                },
                seq![CommandV::PriorityActivate(t.id, p)],
            ),
            MessageV::Save => (pre, seq![CommandV::Update(t)]),
        },
    }
}

impl Details {
    /// A fresh details panel with no task shown.
    pub fn new() -> (r: Details)
        ensures
            r@ == (DetailsV { task: None::<TaskV>, priority_selected: 0u8 }),
    {
        Details { task: None, priority_selected: 0 }
    }

    /// Fold one message into the panel state; the returned intents are for
    /// the controller to translate.
    pub fn update(&mut self, message: Message) -> (r: Vec<Command>)
        ensures
            (final(self)@, r.deep_view()) == details_step(old(self)@, message@),
    {
        let mut out: Vec<Command> = Vec::new();
        match &self.task {
            None => {},
            Some(t) => {
                let task = t.clone();
                match message {
                    Message::Rename(title) => {
                        let mut updated = task.clone();
                        updated.title = title.clone();
                        self.task = Some(updated);
                        out.push(Command::Rename(task.id, title));
                    },
                    Message::Complete(done) => {
                        let mut updated = task.clone();
                        updated.completed = done;
                        self.task = Some(updated);
                        out.push(Command::Complete(task.id, done));
                    },
                    Message::Favorite(fav) => {
                        let mut updated = task.clone();
                        updated.favorite = fav;
                        self.task = Some(updated);
                        out.push(Command::Favorite(task.id, fav));
                    },
                    Message::Delete => {
                        out.push(Command::Delete(task.id));
                    },
                    Message::PriorityActivate(p) => {
                        let mut updated = task.clone();
                        updated.priority = p;
                        self.task = Some(updated);
                        self.priority_selected = p;
                        out.push(Command::PriorityActivate(task.id, p));
                    },
                    Message::Save => {
                        out.push(Command::Update(task));
                    },
                }
            },
        }
        proof {
            assert((self@, out.deep_view()) =~~= details_step(old(self)@, message@));
        }
        out
    }
}

} // verus!
