//! Domain entities held by the controller: lists, tasks, and the
//! application configuration.

use vstd::prelude::*;

verus! {

/// Backend service a list belongs to. Only the local service exists here.
#[derive(Clone, Copy, Debug, PartialEq, Eq, Structural)]
pub enum Service {
    Computer,
}

/// Theme preference persisted in the application configuration.
#[derive(Clone, Copy, Debug, PartialEq, Eq, Structural)]
pub enum AppTheme {
    System,
    Dark,
    Light,
}

/// Process-wide configuration: the theme choice and a schema version.
#[derive(Clone, Copy, Debug, PartialEq, Eq, Structural)]
pub struct Config {
    pub app_theme: AppTheme,
    pub version: u64,
}

/// A list entity as the backend stores it. The id is stable across
/// renames; the name is mutable.
#[derive(Debug, PartialEq, Eq)]
pub struct List {
    pub id: String,
    pub name: String,
    pub icon: Option<String>,
    pub service: Service,
}

/// Mathematical image of a `List`: strings become character sequences.
#[verifier::ext_equal]
pub ghost struct ListV {
    pub id: Seq<char>,
    pub name: Seq<char>,
    pub icon: Option<Seq<char>>,
    pub service: Service,
}

impl View for List {
    type V = ListV;

    open spec fn view(&self) -> ListV {
        ListV {
            id: self.id@,
            name: self.name@,
            icon: match self.icon {
                Some(s) => Some(s@),
                None => None,
            },
            service: self.service,
        }
    }
}

impl DeepView for List {
    type V = ListV;

    open spec fn deep_view(&self) -> ListV {
        self.view()
    }
}

impl Clone for List {
    fn clone(&self) -> (r: Self)
        ensures
            r == *self,
    {
        List {
            id: self.id.clone(),
            name: self.name.clone(),
            icon: match &self.icon {
                Some(s) => Some(s.clone()),
                None => None,
            },
            service: self.service,
        }
    }
}

/// A task entity. It is owned by whichever list id it references.
#[derive(Debug, PartialEq, Eq)]
pub struct Task {
    pub id: String,
    pub list_id: String,
    pub title: String,
    pub priority: u8,
    pub completed: bool,
    pub favorite: bool,
}

/// Mathematical image of a `Task`.
#[verifier::ext_equal]
pub ghost struct TaskV {
    pub id: Seq<char>,
    pub list_id: Seq<char>,
    pub title: Seq<char>,
    pub priority: u8,
    pub completed: bool,
    pub favorite: bool,
}

impl View for Task {
    type V = TaskV;

    open spec fn view(&self) -> TaskV {
        TaskV {
            id: self.id@,
            list_id: self.list_id@,
            title: self.title@,
            priority: self.priority,
            completed: self.completed,
            favorite: self.favorite,
        }
    }
}

impl DeepView for Task {
    type V = TaskV;

    open spec fn deep_view(&self) -> TaskV {
        self.view()
    }
}

impl Clone for Task {
    fn clone(&self) -> (r: Self)
        ensures
            r == *self,
    {
        Task {
            id: self.id.clone(),
            list_id: self.list_id.clone(),
            title: self.title.clone(),
            priority: self.priority,
            completed: self.completed,
            favorite: self.favorite,
        }
    }
}

impl List {
    /// A freshly created list: the backend has not assigned an id yet,
    /// so the id starts empty and is filled in by the create result.
    pub fn new(name: String, service: Service) -> (r: List)
        ensures
            r@ == (ListV {
                id: Seq::<char>::empty(),
                name: name@,
                icon: None::<Seq<char>>,
                service,
            }),
    {
        List { id: String::new(), name, icon: None, service }
    }
}

impl Task {
    /// A freshly created task for the given list, before the backend has
    /// assigned an id.
    pub fn new(title: String, list_id: String) -> (r: Task)
        ensures
            r@ == (TaskV {
                id: Seq::<char>::empty(),
                list_id: list_id@,
                title: title@,
                priority: 0u8,
                completed: false,
                favorite: false,
            }),
    {
        Task {
            id: String::new(),
            list_id,
            title,
            priority: 0,
            completed: false,
            favorite: false,
        }
    }
}

} // verus!
