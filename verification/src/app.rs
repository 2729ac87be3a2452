//! The application controller: an event-driven reducer. Every discrete
//! input event is a `Message`; `App::update` folds one message into the
//! controller state and returns the ordered batch of `Command` values
//! describing the asynchronous work to schedule. Handling one message may
//! synthesize and immediately fold in another (a key chord dispatching
//! its bound action, a confirmed delete dialog dispatching the delete);
//! the commands of such a nested fold are flattened into the parent's
//! batch in order.
//!
//! The whole reducer is specified by the transition function `step`:
//! `update` is proved to change the state and emit the commands that
//! `step` gives for its message.

use vstd::prelude::*;
use vstd::string::StringExecFns;

use crate::content;
use crate::content::{Content, ContentV, content_step, content_wf};
use crate::details;
use crate::details::{Details, DetailsV, details_step};
use crate::key_bind::{Key, KeyBind, Modifiers, find_action, key_binds, key_binds_spec, resolve_action};
use crate::models::{AppTheme, Config, List, ListV, Service, Task, TaskV};
use crate::nav::{NavEntry, NavEntryV, NavModel, NavModelV, find_entry, nav_entry_of, nav_remove, nav_wf};

verus! {

/// Which context panel is selected. Whether one is shown at all is a
/// separate flag: toggling the selected page again hides the panel.
#[derive(Clone, Copy, Debug, PartialEq, Eq, Structural)]
pub enum ContextPage {
    About,
    TaskDetails,
    Settings,
}

/// The drawer title of a context page.
pub open spec fn context_page_title(page: ContextPage) -> Seq<char> {
    match page {
        ContextPage::About => Seq::empty(),
        ContextPage::Settings => "Settings"@,
        ContextPage::TaskDetails => "Details"@,
    }
}

impl ContextPage {
    /// The title shown over the context drawer.
    pub fn title(&self) -> (r: String)
        ensures
            r@ == context_page_title(*self),
    {
        match self {
            ContextPage::About => String::new(),
            ContextPage::Settings => String::from_str("Settings"),
            ContextPage::TaskDetails => String::from_str("Details"),
        }
    }
}

/// One modal prompt. Prompts sit on a queue of which only the front
/// element is rendered and editable.
#[derive(Clone, Debug, PartialEq, Eq)]
pub enum DialogPage {
    NewItem { name: String },
    RenameItem { from: String, to: String },
    DeleteItem { name: String },
}

/// Mathematical image of a `DialogPage`.
#[verifier::ext_equal]
pub ghost enum DialogPageV {
    NewItem { name: Seq<char> },
    RenameItem { from: Seq<char>, to: Seq<char> },
    DeleteItem { name: Seq<char> },
}

impl View for DialogPage {
    type V = DialogPageV;

    open spec fn view(&self) -> DialogPageV {
        match self {
            DialogPage::NewItem { name } => DialogPageV::NewItem { name: name@ },
            DialogPage::RenameItem { from, to } => DialogPageV::RenameItem {
                from: from@,
                to: to@,
            },
            DialogPage::DeleteItem { name } => DialogPageV::DeleteItem { name: name@ },
        }
    }
}

impl DeepView for DialogPage {
    type V = DialogPageV;

    open spec fn deep_view(&self) -> DialogPageV {
        self.view()
    }
}

/// What the controller hands to `App::init`: the loaded configuration and
/// whether a persistence handle for it exists.
#[derive(Clone, Copy, Debug)]
pub struct Flags {
    pub has_config_handler: bool,
    pub config: Config,
}

/// A logical action a key chord can be bound to.
#[derive(Clone, Copy, Debug, PartialEq, Eq, Structural)]
pub enum Action {
    About,
    ItemDown,
    ItemUp,
    Settings,
    WindowClose,
    WindowNew,
    NewList,
    DeleteList,
    RenameList,
}

/// One discrete event entering the reducer.
#[derive(Clone, Debug)]
pub enum Message {
    ContentMessage(content::Message),
    DetailsMessage(details::Message),
    ToggleContextPage(ContextPage),
    LaunchUrl(String),
    PopulateLists(Vec<List>),
    WindowClose,
    WindowNew,
    DialogCancel,
    DialogComplete,
    DialogUpdate(DialogPage),
    Key(Modifiers, Key),
    Modifiers(Modifiers),
    AppTheme(AppTheme),
    SystemThemeModeChange,
    OpenNewListDialog,
    OpenRenameListDialog,
    OpenDeleteListDialog,
    AddList(List),
    DeleteList,
    UpdateList(List),
}

/// Mathematical image of a `Message`.
#[verifier::ext_equal]
pub ghost enum MessageV {
    ContentMessage(content::MessageV),
    DetailsMessage(details::MessageV),
    ToggleContextPage(ContextPage),
    LaunchUrl(Seq<char>),
    PopulateLists(Seq<ListV>),
    WindowClose,
    WindowNew,
    DialogCancel,
    DialogComplete,
    DialogUpdate(DialogPageV),
    Key(Modifiers, Key),
    Modifiers(Modifiers),
    AppTheme(AppTheme),
    SystemThemeModeChange,
    OpenNewListDialog,
    OpenRenameListDialog,
    OpenDeleteListDialog,
    AddList(ListV),
    DeleteList,
    UpdateList(ListV),
}

impl View for Message {
    type V = MessageV;

    open spec fn view(&self) -> MessageV {
        match self {
            Message::ContentMessage(m) => MessageV::ContentMessage(m@),
            Message::DetailsMessage(m) => MessageV::DetailsMessage(m@),
            Message::ToggleContextPage(p) => MessageV::ToggleContextPage(*p),
            Message::LaunchUrl(url) => MessageV::LaunchUrl(url@),
            Message::PopulateLists(lists) => MessageV::PopulateLists(lists.deep_view()),
            Message::WindowClose => MessageV::WindowClose,
            Message::WindowNew => MessageV::WindowNew,
            Message::DialogCancel => MessageV::DialogCancel,
            Message::DialogComplete => MessageV::DialogComplete,
            Message::DialogUpdate(p) => MessageV::DialogUpdate(p@),
            Message::Key(m, k) => MessageV::Key(*m, *k),
            Message::Modifiers(m) => MessageV::Modifiers(*m),
            Message::AppTheme(t) => MessageV::AppTheme(*t),
            Message::SystemThemeModeChange => MessageV::SystemThemeModeChange,
            Message::OpenNewListDialog => MessageV::OpenNewListDialog,
            Message::OpenRenameListDialog => MessageV::OpenRenameListDialog,
            Message::OpenDeleteListDialog => MessageV::OpenDeleteListDialog,
            Message::AddList(l) => MessageV::AddList(l@),
            Message::DeleteList => MessageV::DeleteList,
            Message::UpdateList(l) => MessageV::UpdateList(l@),
        }
    }
}

impl Action {
    /// The message an action dispatches.
    pub open spec fn spec_message(self) -> MessageV {
        match self {
            Action::About => MessageV::ToggleContextPage(ContextPage::About),
            Action::ItemDown => MessageV::ContentMessage(content::MessageV::ItemDown),
            Action::ItemUp => MessageV::ContentMessage(content::MessageV::ItemUp),
            Action::Settings => MessageV::ToggleContextPage(ContextPage::Settings),
            Action::WindowClose => MessageV::WindowClose,
            Action::WindowNew => MessageV::WindowNew,
            Action::NewList => MessageV::OpenNewListDialog,
            Action::RenameList => MessageV::OpenRenameListDialog,
            Action::DeleteList => MessageV::OpenDeleteListDialog,
        }
    }

    /// The message this action dispatches when its chord fires.
    pub fn message(self) -> (r: Message)
        ensures
            r@ == self.spec_message(),
    {
        match self {
            Action::About => Message::ToggleContextPage(ContextPage::About),
            Action::ItemDown => Message::ContentMessage(content::Message::ItemDown),
            Action::ItemUp => Message::ContentMessage(content::Message::ItemUp),
            Action::Settings => Message::ToggleContextPage(ContextPage::Settings),
            Action::WindowClose => Message::WindowClose,
            Action::WindowNew => Message::WindowNew,
            Action::NewList => Message::OpenNewListDialog,
            Action::RenameList => Message::OpenRenameListDialog,
            Action::DeleteList => Message::OpenDeleteListDialog,
        }
    }
}

/// A side-effecting operation the reducer schedules. The loop around the
/// reducer runs it and feeds its outcome back in as a new message.
#[derive(Clone, Debug, PartialEq, Eq)]
pub enum Command {
    /// Read all lists; the result re-enters as `PopulateLists`.
    FetchLists,
    /// Read the tasks of the list with this id; the result re-enters as a
    /// content `SetItems` message.
    FetchTasks(String),
    /// Create this list; the result re-enters as `AddList`.
    CreateList(List),
    /// Persist this list's new state; success re-enters as `UpdateList`.
    UpdateList(List),
    /// Delete the list with this id.
    DeleteList(String),
    /// Create the given task.
    CreateTask(Task),
    /// Persist the given task's new state.
    UpdateTask(Task),
    /// Delete the task with the second id from the list with the first.
    DeleteTask(String, String),
    /// Apply this theme to the running interface.
    SetTheme(AppTheme),
    /// Persist this theme choice through the configuration handle.
    SaveTheme(AppTheme),
    /// Close the primary window.
    CloseWindow,
    /// Start a new top-level instance.
    SpawnWindow,
    /// Open this address in the system handler.
    OpenUrl(String),
    /// Move the input focus to the dialog's text field.
    FocusDialogInput,
}

/// Mathematical image of a `Command`.
#[verifier::ext_equal]
pub ghost enum CommandV {
    FetchLists,
    FetchTasks(Seq<char>),
    CreateList(ListV),
    UpdateList(ListV),
    DeleteList(Seq<char>),
    CreateTask(TaskV),
    UpdateTask(TaskV),
    DeleteTask(Seq<char>, Seq<char>),
    SetTheme(AppTheme),
    SaveTheme(AppTheme),
    CloseWindow,
    SpawnWindow,
    OpenUrl(Seq<char>),
    FocusDialogInput,
}

impl View for Command {
    type V = CommandV;

    open spec fn view(&self) -> CommandV {
        match self {
            Command::FetchLists => CommandV::FetchLists,
            Command::FetchTasks(id) => CommandV::FetchTasks(id@),
            Command::CreateList(l) => CommandV::CreateList(l@),
            Command::UpdateList(l) => CommandV::UpdateList(l@),
            Command::DeleteList(id) => CommandV::DeleteList(id@),
            Command::CreateTask(t) => CommandV::CreateTask(t@),
            Command::UpdateTask(t) => CommandV::UpdateTask(t@),
            Command::DeleteTask(lid, tid) => CommandV::DeleteTask(lid@, tid@),
            Command::SetTheme(t) => CommandV::SetTheme(*t),
            Command::SaveTheme(t) => CommandV::SaveTheme(*t),
            Command::CloseWindow => CommandV::CloseWindow,
            Command::SpawnWindow => CommandV::SpawnWindow,
            Command::OpenUrl(url) => CommandV::OpenUrl(url@),
            Command::FocusDialogInput => CommandV::FocusDialogInput,
        }
    }
}

impl DeepView for Command {
    type V = CommandV;

    open spec fn deep_view(&self) -> CommandV {
        self.view()
    }
}

/// The controller state.
pub struct App {
    /// The sidebar of list entries.
    pub nav: NavModel,
    /// The list-of-tasks panel.
    pub content: Content,
    /// The task-detail panel.
    pub details: Details,
    /// Whether a persistence handle for the configuration exists. Without
    /// one, configuration changes stay in memory only.
    pub has_config_handler: bool,
    /// The loaded configuration.
    pub config: Config,
    /// Which context panel is selected.
    pub context_page: ContextPage,
    /// The title shown over the context drawer.
    pub context_title: String,
    /// Whether the context panel is shown.
    pub show_context: bool,
    /// The static key-binding table.
    pub key_binds: Vec<(KeyBind, Action)>,
    /// The list the active sidebar entry stands for.
    pub selected_list: Option<List>,
    /// The modifiers held right now.
    pub modifiers: Modifiers,
    /// Pending modal prompts; the front element is the one shown.
    pub dialog_pages: Vec<DialogPage>,
}

/// Mathematical image of the controller state.
#[verifier::ext_equal]
pub ghost struct AppV {
    pub nav: NavModelV,
    pub content: ContentV,
    pub details: DetailsV,
    pub has_config_handler: bool,
    pub config: Config,
    pub context_page: ContextPage,
    pub context_title: Seq<char>,
    pub show_context: bool,
    pub key_binds: Seq<(KeyBind, Action)>,
    pub selected_list: Option<ListV>,
    pub modifiers: Modifiers,
    pub dialog_pages: Seq<DialogPageV>,
}

impl View for App {
    type V = AppV;

    open spec fn view(&self) -> AppV {
        AppV {
            nav: self.nav@,
            content: self.content@,
            details: self.details@,
            has_config_handler: self.has_config_handler,
            config: self.config,
            context_page: self.context_page,
            context_title: self.context_title@,
            show_context: self.show_context,
            key_binds: self.key_binds@,
            selected_list: match self.selected_list {
                Some(l) => Some(l@),
                None => None,
            },
            modifiers: self.modifiers,
            dialog_pages: self.dialog_pages.deep_view(),
        }
    }
}

/// Whether the controller state is well formed: the sidebar's active
/// index and the content panel's focused row point at elements.
pub open spec fn app_wf(s: AppV) -> bool {
    &&& nav_wf(s.nav)
    &&& content_wf(s.content)
}

/// How deep the synchronous re-dispatch nesting can still go from a
/// message: the termination measure of `step` and `update`.
pub open spec fn msg_rank(m: MessageV) -> nat {
    match m {
        MessageV::ContentMessage(_) => 1,
        MessageV::DetailsMessage(_) => 2,
        MessageV::Key(_, _) => 2,
        MessageV::DeleteList => 2,
        MessageV::PopulateLists(_) => 3,
        MessageV::AddList(_) => 3,
        MessageV::DialogComplete => 3,
        _ => 0,
    }
}

/// Sidebar entries for a batch of lists, in source order.
pub open spec fn nav_entries_of(lists: Seq<ListV>) -> Seq<NavEntryV> {
    lists.map_values(|l: ListV| nav_entry_of(l))
}

/// Fold the content panel's intents into the controller state, in order:
/// each becomes a scheduled command or a nested dispatch.
pub open spec fn content_apply(pre: AppV, intents: Seq<content::CommandV>) -> (AppV, Seq<
    CommandV,
>)
    decreases 1nat, 0nat, intents.len(),
{
    if intents.len() == 0 {
        (pre, Seq::empty())
    } else {
        let (s1, c1): (AppV, Seq<CommandV>) = match intents[0] {
            content::CommandV::GetTasks(id) => (pre, seq![CommandV::FetchTasks(id)]),
            content::CommandV::DisplayTask(t) => {
                let shown = AppV {
                    details: DetailsV { task: Some(t), priority_selected: t.priority },
                    ..pre
                };
                step(shown, MessageV::ToggleContextPage(ContextPage::TaskDetails))
            },
            content::CommandV::UpdateTask(t) => (
                AppV { details: DetailsV { task: Some(t), ..pre.details }, ..pre },
                seq![CommandV::UpdateTask(t)],
            ),
            content::CommandV::Delete(id) => match pre.selected_list {
                Some(l) => (pre, seq![CommandV::DeleteTask(l.id, id)]),
                None => (pre, Seq::empty()),
            },
            content::CommandV::CreateTask(t) => (pre, seq![CommandV::CreateTask(t)]),
        };
        let (s2, c2) = content_apply(s1, intents.skip(1));
        (s2, c1 + c2)
    }
}

/// Fold the details panel's intents into the controller state, in order.
/// Rename and priority intents re-dispatch into the content panel's own
/// paths; delete, complete and favorite intents are accepted and produce
/// no effect.
pub open spec fn details_apply(pre: AppV, intents: Seq<details::CommandV>) -> (AppV, Seq<
    CommandV,
>)
    decreases 2nat, 0nat, intents.len(),
{
    if intents.len() == 0 {
        (pre, Seq::empty())
    } else {
        let (s1, c1): (AppV, Seq<CommandV>) = match intents[0] {
            details::CommandV::Update(t) => (pre, seq![CommandV::UpdateTask(t)]),
            details::CommandV::Rename(id, title) => step(
                pre,
                MessageV::ContentMessage(content::MessageV::Rename(id, title)),
            ),
            details::CommandV::Delete(_) => (pre, Seq::empty()),
            details::CommandV::Complete(_, _) => (pre, Seq::empty()),
            details::CommandV::Favorite(_, _) => (pre, Seq::empty()),
            details::CommandV::PriorityActivate(id, p) => step(
                pre,
                MessageV::ContentMessage(content::MessageV::SetPriority(id, p)),
            ),
        };
        let (s2, c2) = details_apply(s1, intents.skip(1));
        (s2, c1 + c2)
    }
}

/// Selecting the sidebar entry at `i`: make it active, take its list as
/// the selected one, and tell the content panel, whose fetch intent
/// becomes a command. Out of range, nothing happens.
pub open spec fn select_step(pre: AppV, i: int) -> (AppV, Seq<CommandV>)
    decreases 2nat, 0nat, 0nat,
{
    if 0 <= i < pre.nav.entries.len() {
        let list = pre.nav.entries[i].list;
        let s1 = AppV {
            nav: NavModelV { entries: pre.nav.entries, active: Some(i) },
            selected_list: Some(list),
            ..pre
        };
        step(s1, MessageV::ContentMessage(content::MessageV::List(Some(list))))
    } else {
        (pre, Seq::empty())
    }
}

/// The transition function of the controller: the state after one
/// message and the commands it schedules, nested dispatches included.
pub open spec fn step(pre: AppV, m: MessageV) -> (AppV, Seq<CommandV>)
    decreases msg_rank(m), 1nat, 0nat,
{
    match m {
        MessageV::ContentMessage(cm) => {
            let (c1, intents) = content_step(pre.content, cm);
            content_apply(AppV { content: c1, ..pre }, intents)
        },
        MessageV::DetailsMessage(dm) => {
            let (d1, intents) = details_step(pre.details, dm);
            details_apply(AppV { details: d1, ..pre }, intents)
        },
        MessageV::ToggleContextPage(page) => (
            if pre.context_page == page {
                AppV {
                    show_context: !pre.show_context,
                    context_title: context_page_title(page),
                    ..pre
                }
            } else {
                AppV {
                    context_page: page,
                    show_context: true,
                    context_title: context_page_title(page),
                    ..pre
                }
            },
            Seq::empty(),
        ),
        MessageV::LaunchUrl(url) => (pre, seq![CommandV::OpenUrl(url)]),
        MessageV::PopulateLists(lists) => {
            let s1 = AppV {
                nav: NavModelV {
                    entries: pre.nav.entries + nav_entries_of(lists),
                    active: pre.nav.active,
                },
                ..pre
            };
            if s1.nav.entries.len() > 0 {
                select_step(s1, 0)
            } else {
                (s1, Seq::empty())
            }
        },
        MessageV::WindowClose => (pre, seq![CommandV::CloseWindow]),
        MessageV::WindowNew => (pre, seq![CommandV::SpawnWindow]),
        MessageV::DialogCancel => if pre.dialog_pages.len() > 0 {
            (AppV { dialog_pages: pre.dialog_pages.remove(0), ..pre }, Seq::empty())
        } else {
            (pre, Seq::empty())
        },
        MessageV::DialogComplete => if pre.dialog_pages.len() > 0 {
            let page = pre.dialog_pages[0];
            let s1 = AppV { dialog_pages: pre.dialog_pages.remove(0), ..pre };
            match page {
                DialogPageV::NewItem { name } => (
                    s1,
                    seq![
                        CommandV::CreateList(ListV {
                            id: Seq::empty(),
                            name,
                            icon: None,
                            service: Service::Computer,
                        }),
                    ],
                ),
                DialogPageV::RenameItem { from, to } => match s1.selected_list {
                    Some(l) => (s1, seq![CommandV::UpdateList(ListV { name: to, ..l })]),
                    None => (s1, Seq::empty()),
                },
                DialogPageV::DeleteItem { name } => match s1.selected_list {
                    Some(_) => step(s1, MessageV::DeleteList),
                    None => (s1, Seq::empty()),
                },
            }
        } else {
            (pre, Seq::empty())
        },
        MessageV::DialogUpdate(page) => if pre.dialog_pages.len() > 0 {
            (AppV { dialog_pages: pre.dialog_pages.update(0, page), ..pre }, Seq::empty())
        } else {
            (pre, Seq::empty())
        },
        MessageV::Key(modifiers, key) => match find_action(pre.key_binds, modifiers, key) {
            Some(action) => step(pre, action.spec_message()),
            None => (pre, Seq::empty()),
        },
        MessageV::Modifiers(modifiers) => (AppV { modifiers, ..pre }, Seq::empty()),
        MessageV::AppTheme(theme) => (
            AppV { config: Config { app_theme: theme, ..pre.config }, ..pre },
            if pre.has_config_handler {
                seq![CommandV::SaveTheme(theme), CommandV::SetTheme(theme)]
            } else {
                seq![CommandV::SetTheme(theme)]
            },
        ),
        MessageV::SystemThemeModeChange => (pre, seq![CommandV::SetTheme(pre.config.app_theme)]),
        MessageV::OpenNewListDialog => (
            AppV {
                dialog_pages: pre.dialog_pages.push(
                    DialogPageV::NewItem { name: Seq::empty() },
                ),
                ..pre
            },
            seq![CommandV::FocusDialogInput],
        ),
        MessageV::OpenRenameListDialog => match pre.selected_list {
            Some(l) => (
                AppV {
                    dialog_pages: pre.dialog_pages.push(
                        DialogPageV::RenameItem { from: l.name, to: l.name },
                    ),
                    ..pre
                },
                seq![CommandV::FocusDialogInput],
            ),
            None => (pre, Seq::empty()),
        },
        MessageV::OpenDeleteListDialog => match pre.selected_list {
            Some(l) => (
                AppV {
                    dialog_pages: pre.dialog_pages.push(DialogPageV::DeleteItem { name: l.name }),
                    ..pre
                },
                Seq::empty(),
            ),
            None => (pre, Seq::empty()),
        },
        MessageV::AddList(list) => {
            let s1 = AppV {
                nav: NavModelV {
                    entries: pre.nav.entries.push(nav_entry_of(list)),
                    active: pre.nav.active,
                },
                selected_list: Some(list),
                ..pre
            };
            select_step(s1, s1.nav.entries.len() - 1)
        },
        MessageV::DeleteList => match pre.selected_list {
            Some(l) => {
                let nav1 = match find_entry(pre.nav.entries, l.id) {
                    Some(j) => nav_remove(pre.nav, j),
                    None => pre.nav,
                };
                let (s2, c2) = step(
                    AppV { nav: nav1, ..pre },
                    MessageV::ContentMessage(content::MessageV::List(None)),
                );
                (
                    AppV { selected_list: None, ..s2 },
                    c2.push(CommandV::DeleteList(l.id)),
                )
            },
            None => (pre, Seq::empty()),
        },
        MessageV::UpdateList(list) => match pre.nav.active {
            Some(i) => (
                AppV {
                    nav: NavModelV {
                        entries: pre.nav.entries.update(
                            i,
                            NavEntryV { list, ..pre.nav.entries[i] },
                        ),
                        active: pre.nav.active,
                    },
                    ..pre
                },
                Seq::empty(),
            ),
            None => (pre, Seq::empty()),
        },
    }
}

/// The state `App::init` builds from the flags.
pub open spec fn init_state(flags: Flags) -> AppV {
    AppV {
        nav: NavModelV { entries: Seq::empty(), active: None },
        content: ContentV {
            list: None,
            tasks: Seq::empty(),
            selected: None,
            input: Seq::empty(),
        },
        details: DetailsV { task: None, priority_selected: 0u8 },
        has_config_handler: flags.has_config_handler,
        config: flags.config,
        context_page: ContextPage::Settings,
        context_title: Seq::empty(),
        show_context: false,
        key_binds: key_binds_spec(),
        selected_list: None,
        modifiers: Modifiers { ctrl: false, alt: false, shift: false, logo: false },
        dialog_pages: Seq::empty(),
    }
}

/// The escape transition: a shown dialog is dismissed first; otherwise
/// the context panel is hidden.
pub open spec fn escape_step(pre: AppV) -> AppV {
    if pre.dialog_pages.len() > 0 {
        AppV { dialog_pages: pre.dialog_pages.remove(0), ..pre }
    } else {
        AppV { show_context: false, ..pre }
    }
}

impl App {
    /// Build the starting state and schedule the initial list fetch.
    pub fn init(flags: Flags) -> (r: (App, Vec<Command>))
        ensures
            r.0@ == init_state(flags),
            app_wf(r.0@),
            r.1.deep_view() == seq![CommandV::FetchLists],
    {
        let app = App {
            nav: NavModel::new(),
            content: Content::new(),
            details: Details::new(),
            has_config_handler: flags.has_config_handler,
            config: flags.config,
            context_page: ContextPage::Settings,
            context_title: String::new(),
            show_context: false,
            key_binds: key_binds(),
            selected_list: None,
            modifiers: Modifiers::empty(),
            dialog_pages: Vec::new(),
        };
        let mut commands: Vec<Command> = Vec::new();
        commands.push(Command::FetchLists);
        proof {
            assert(app@ =~~= init_state(flags));
            assert(commands.deep_view() =~= seq![CommandV::FetchLists]);
        }
        (app, commands)
    }

    /// Append a sidebar entry for a list: labelled with the list's name
    /// and showing its icon.
    fn create_nav_item(&mut self, list: List)
        ensures
            final(self)@ == (AppV {
                nav: NavModelV {
                    entries: old(self)@.nav.entries.push(nav_entry_of(list@)),
                    active: old(self)@.nav.active,
                },
                ..old(self)@
            }),
    {
        let ghost lv = list@;
        let label = list.name.clone();
        let icon = match &list.icon {
            Some(s) => Some(s.clone()),
            None => None,
        };
        self.nav.insert(NavEntry { label, icon, list });
        proof {
            assert(self@ =~~= AppV {
                nav: NavModelV {
                    entries: old(self)@.nav.entries.push(nav_entry_of(lv)),
                    active: old(self)@.nav.active,
                },
                ..old(self)@
            });
        }
    }

    /// Select the sidebar entry at `index`: activate it, keep
    /// `selected_list` in lockstep, and tell the content panel, whose
    /// fetch intent is scheduled.
    pub fn on_nav_select(&mut self, index: usize) -> (cmds: Vec<Command>)
        requires
            app_wf(old(self)@),
        ensures
            app_wf(final(self)@),
            (final(self)@, cmds.deep_view()) == select_step(old(self)@, index as int),
        decreases 2nat, 0nat, 0nat,
    {
        if index < self.nav.len() {
            self.nav.activate(index);
            let list = self.nav.data(index);
            self.selected_list = Some(list.clone());
            let cmds = self.update(Message::ContentMessage(content::Message::List(Some(list))));
            proof {
                assert((self@, cmds.deep_view()) =~~= select_step(old(self)@, index as int));
            }
            cmds
        } else {
            let cmds: Vec<Command> = Vec::new();
            proof {
                assert((self@, cmds.deep_view()) =~~= select_step(old(self)@, index as int));
            }
            cmds
        }
    }

    /// The escape key: dismiss the shown dialog if there is one,
    /// otherwise hide the context panel. Never schedules work.
    pub fn on_escape(&mut self)
        requires
            app_wf(old(self)@),
        ensures
            app_wf(final(self)@),
            final(self)@ == escape_step(old(self)@),
    {
        if self.dialog_pages.len() > 0 {
            self.dialog_pages.remove(0);
        } else {
            self.show_context = false;
        }
        proof {
            assert(self@ =~~= escape_step(old(self)@));
        }
    }

    /// Fold the content panel's intents, from position `i` on, into the
    /// state, appending the scheduled commands to `out`.
    fn apply_content_commands(
        &mut self,
        intents: &Vec<content::Command>,
        i: usize,
        out: &mut Vec<Command>,
    )
        requires
            i <= intents@.len(),
            app_wf(old(self)@),
        ensures
            app_wf(final(self)@),
            ({
                let r = content_apply(old(self)@, intents.deep_view().skip(i as int));
                final(self)@ == r.0 && final(out).deep_view() == old(out).deep_view() + r.1
            }),
        decreases 1nat, 0nat, intents@.len() - i,
    {
        proof {
            assert(intents.deep_view().len() == intents@.len());
        }
        if i == intents.len() {
            proof {
                assert(intents.deep_view().skip(i as int) =~=
                    Seq::<content::CommandV>::empty());
                assert(out.deep_view() =~= out.deep_view() + Seq::<CommandV>::empty());
            }
            return ;
        }
        let ghost rest = intents.deep_view().skip(i as int);
        proof {
            assert(rest[0] == intents.deep_view()[i as int]);
            assert(intents.deep_view()[i as int] == intents[i as int]@);
            assert(rest.skip(1) =~= intents.deep_view().skip((i + 1) as int));
        }
        match &intents[i] {
            content::Command::GetTasks(id) => {
                out.push(Command::FetchTasks(id.clone()));
            },
            content::Command::DisplayTask(task) => {
                self.details.priority_selected = task.priority;
                self.details.task = Some(task.clone());
                proof {
                    assert(self@ =~~= AppV {
                        details: DetailsV {
                            task: Some(intents[i as int]@->DisplayTask_0),
                            priority_selected: intents[i as int]@->DisplayTask_0.priority,
                        },
                        ..old(self)@
                    });
                }
                let mut sub = self.update(Message::ToggleContextPage(ContextPage::TaskDetails));
                out.append(&mut sub);
            },
            content::Command::UpdateTask(task) => {
                self.details.task = Some(task.clone());
                out.push(Command::UpdateTask(task.clone()));
            },
            content::Command::Delete(id) => {
                let lid: Option<String> = match &self.selected_list {
                    Some(l) => Some(l.id.clone()),
                    None => None,
                };
                match lid {
                    Some(list_id) => {
                        out.push(Command::DeleteTask(list_id, id.clone()));
                    },
                    None => {},
                }
            },
            content::Command::CreateTask(task) => {
                out.push(Command::CreateTask(task.clone()));
            },
        }
        self.apply_content_commands(intents, i + 1, out);
        proof {
            let r = content_apply(old(self)@, rest);
            assert(out.deep_view() =~= old(out).deep_view() + r.1);
        }
    }

    /// Fold the details panel's intents, from position `i` on, into the
    /// state, appending the scheduled commands to `out`.
    fn apply_details_commands(
        &mut self,
        intents: &Vec<details::Command>,
        i: usize,
        out: &mut Vec<Command>,
    )
        requires
            i <= intents@.len(),
            app_wf(old(self)@),
        ensures
            app_wf(final(self)@),
            ({
                let r = details_apply(old(self)@, intents.deep_view().skip(i as int));
                final(self)@ == r.0 && final(out).deep_view() == old(out).deep_view() + r.1
            }),
        decreases 2nat, 0nat, intents@.len() - i,
    {
        proof {
            assert(intents.deep_view().len() == intents@.len());
        }
        if i == intents.len() {
            proof {
                assert(intents.deep_view().skip(i as int) =~=
                    Seq::<details::CommandV>::empty());
                assert(out.deep_view() =~= out.deep_view() + Seq::<CommandV>::empty());
            }
            return ;
        }
        let ghost rest = intents.deep_view().skip(i as int);
        proof {
            assert(rest[0] == intents.deep_view()[i as int]);
            assert(intents.deep_view()[i as int] == intents[i as int]@);
            assert(rest.skip(1) =~= intents.deep_view().skip((i + 1) as int));
        }
        match &intents[i] {
            details::Command::Update(task) => {
                out.push(Command::UpdateTask(task.clone()));
            },
            details::Command::Rename(id, title) => {
                let mut sub = self.update(Message::ContentMessage(content::Message::Rename(
                    id.clone(),
                    title.clone(),
                )));
                out.append(&mut sub);
            },
            details::Command::Delete(_) => {},
            details::Command::Complete(_, _) => {},
            details::Command::Favorite(_, _) => {},
            details::Command::PriorityActivate(id, p) => {
                let mut sub = self.update(Message::ContentMessage(content::Message::SetPriority(
                    id.clone(),
                    *p,
                )));
                out.append(&mut sub);
            },
        }
        self.apply_details_commands(intents, i + 1, out);
        proof {
            let r = details_apply(old(self)@, rest);
            assert(out.deep_view() =~= old(out).deep_view() + r.1);
        }
    }

    /// The list-population arm: append one sidebar entry per returned
    /// list, in source order, then select the first entry overall.
    fn handle_populate_lists(&mut self, lists: Vec<List>) -> (cmds: Vec<Command>)
        requires
            app_wf(old(self)@),
        ensures
            app_wf(final(self)@),
            (final(self)@, cmds.deep_view()) == step(
                old(self)@,
                MessageV::PopulateLists(lists.deep_view()),
            ),
        decreases 3nat, 0nat, 0nat,
    {
        let mut out: Vec<Command> = Vec::new();
        let ghost lists_v = lists.deep_view();
        let mut k: usize = 0;
        while k < lists.len()
            invariant
                k <= lists.len(),
                lists.deep_view() == lists_v,
                lists.deep_view().len() == lists@.len(),
                app_wf(self@),
                self@ == (AppV {
                    nav: NavModelV {
                        entries: old(self)@.nav.entries + nav_entries_of(lists_v.take(k as int)),
                        active: old(self)@.nav.active,
                    },
                    ..old(self)@
                }),
            decreases lists@.len() - k,
        {
            self.create_nav_item(lists[k].clone());
            proof {
                assert(lists_v.take((k + 1) as int) =~= lists_v.take(k as int).push(
                    lists_v[k as int],
                ));
                assert(nav_entries_of(lists_v.take((k + 1) as int)) =~= nav_entries_of(
                    lists_v.take(k as int),
                ).push(nav_entry_of(lists_v[k as int])));
                assert(self@ =~~= AppV {
                    nav: NavModelV {
                        entries: old(self)@.nav.entries + nav_entries_of(
                            lists_v.take((k + 1) as int),
                        ),
                        active: old(self)@.nav.active,
                    },
                    ..old(self)@
                });
            }
            k += 1;
        }
        proof {
            assert(lists_v.take(lists@.len() as int) =~= lists_v);
            assert(self@ =~~= AppV {
                nav: NavModelV {
                    entries: old(self)@.nav.entries + nav_entries_of(lists_v),
                    active: old(self)@.nav.active,
                },
                ..old(self)@
            });
        }
        if self.nav.len() > 0 {
            let mut sub = self.on_nav_select(0);
            out.append(&mut sub);
        }
        proof {
            assert((self@, out.deep_view()) =~~= step(
                old(self)@,
                MessageV::PopulateLists(lists_v),
            ));
        }
        out
    }

    /// The list-creation arm: take the new list as selected, give it a
    /// sidebar entry, and select that entry.
    fn handle_add_list(&mut self, list: List) -> (cmds: Vec<Command>)
        requires
            app_wf(old(self)@),
        ensures
            app_wf(final(self)@),
            (final(self)@, cmds.deep_view()) == step(old(self)@, MessageV::AddList(list@)),
        decreases 3nat, 0nat, 0nat,
    {
        let ghost lv = list@;
        self.selected_list = Some(list.clone());
        self.create_nav_item(list);
        let n = self.nav.len();
        let cmds = self.on_nav_select(n - 1);
        proof {
            assert((self@, cmds.deep_view()) =~~= step(old(self)@, MessageV::AddList(lv)));
        }
        cmds
    }

    /// The list-deletion arm: drop the sidebar entry whose list has the
    /// selected list's id (matched by id, not by position), clear the
    /// content panel and the selection, and schedule the backend delete.
    /// The delete is scheduled even when no entry matches.
    fn handle_delete_list(&mut self) -> (cmds: Vec<Command>)
        requires
            app_wf(old(self)@),
        ensures
            app_wf(final(self)@),
            (final(self)@, cmds.deep_view()) == step(old(self)@, MessageV::DeleteList),
        decreases 2nat, 0nat, 0nat,
    {
        let mut out: Vec<Command> = Vec::new();
        let id_opt: Option<String> = match &self.selected_list {
            Some(l) => Some(l.id.clone()),
            None => None,
        };
        match id_opt {
            Some(list_id) => {
                match self.nav.find_by_list_id(&list_id) {
                    Some(j) => {
                        self.nav.remove(j);
                    },
                    None => {},
                }
                let mut sub = self.update(Message::ContentMessage(content::Message::List(None)));
                out.append(&mut sub);
                out.push(Command::DeleteList(list_id));
                self.selected_list = None;
            },
            None => {},
        }
        proof {
            assert((self@, out.deep_view()) =~~= step(old(self)@, MessageV::DeleteList));
        }
        out
    }

    /// The dialog-completion arm: pop the front dialog and schedule the
    /// backend operation its variant calls for; a confirmed delete
    /// re-dispatches the list-deletion message.
    fn handle_dialog_complete(&mut self) -> (cmds: Vec<Command>)
        requires
            app_wf(old(self)@),
        ensures
            app_wf(final(self)@),
            (final(self)@, cmds.deep_view()) == step(old(self)@, MessageV::DialogComplete),
        decreases 3nat, 0nat, 0nat,
    {
        let mut out: Vec<Command> = Vec::new();
        if self.dialog_pages.len() > 0 {
            let page = self.dialog_pages.remove(0);
            proof {
                assert(page@ == old(self)@.dialog_pages[0]);
                assert(self@ =~~= AppV {
                    dialog_pages: old(self)@.dialog_pages.remove(0),
                    ..old(self)@
                });
            }
            match page {
                DialogPage::NewItem { name } => {
                    let list = List::new(name, Service::Computer);
                    out.push(Command::CreateList(list));
                },
                DialogPage::RenameItem { from: _, to } => {
                    match &self.selected_list {
                        Some(l) => {
                            let mut renamed = l.clone();
                            renamed.name = to;
                            out.push(Command::UpdateList(renamed));
                        },
                        None => {},
                    }
                },
                DialogPage::DeleteItem { name: _ } => {
                    let has = match &self.selected_list {
                        Some(_) => true,
                        None => false,
                    };
                    if has {
                        let mut sub = self.update(Message::DeleteList);
                        out.append(&mut sub);
                    }
                },
            }
        }
        proof {
            assert((self@, out.deep_view()) =~~= step(old(self)@, MessageV::DialogComplete));
        }
        out
    }

    /// The key-press arm: resolve the chord through the binding table and
    /// dispatch the bound action's message; unmatched chords are ignored.
    fn handle_key(&mut self, modifiers: Modifiers, key: Key) -> (cmds: Vec<Command>)
        requires
            app_wf(old(self)@),
        ensures
            app_wf(final(self)@),
            (final(self)@, cmds.deep_view()) == step(old(self)@, MessageV::Key(modifiers, key)),
        decreases 2nat, 0nat, 0nat,
    {
        let mut out: Vec<Command> = Vec::new();
        match resolve_action(&self.key_binds, modifiers, key) {
            Some(action) => {
                proof {
                    assert(msg_rank(action.spec_message()) <= 1);
                }
                let mut sub = self.update(action.message());
                out.append(&mut sub);
            },
            None => {},
        }
        proof {
            assert((self@, out.deep_view()) =~~= step(old(self)@, MessageV::Key(modifiers, key)));
        }
        out
    }

    /// Fold one message into the controller state. The returned commands
    /// are in scheduling order; commands of nested dispatches are
    /// flattened in at their position. The one contract on callers: a
    /// `DialogUpdate` may only be sent while a dialog is open.
    #[verifier::rlimit(100)]
    pub fn update(&mut self, message: Message) -> (cmds: Vec<Command>)
        requires
            app_wf(old(self)@),
            message@ is DialogUpdate ==> old(self)@.dialog_pages.len() > 0,
        ensures
            app_wf(final(self)@),
            (final(self)@, cmds.deep_view()) == step(old(self)@, message@),
        decreases msg_rank(message@), 1nat, 0nat,
    {
        let ghost m = message@;
        let mut out: Vec<Command> = Vec::new();
        match message {
            Message::ContentMessage(cm) => {
                let intents = self.content.update(cm);
                proof {
                    assert(self@ =~~= AppV {
                        content: content_step(old(self)@.content, m->ContentMessage_0).0,
                        ..old(self)@
                    });
                    assert(intents.deep_view().skip(0) =~= intents.deep_view());
                }
                self.apply_content_commands(&intents, 0, &mut out);
                proof {
                    assert((self@, out.deep_view()) =~~= step(old(self)@, m));
                }
            },
            Message::DetailsMessage(dm) => {
                let intents = self.details.update(dm);
                proof {
                    assert(self@ =~~= AppV {
                        details: details_step(old(self)@.details, m->DetailsMessage_0).0,
                        ..old(self)@
                    });
                    assert(intents.deep_view().skip(0) =~= intents.deep_view());
                }
                self.apply_details_commands(&intents, 0, &mut out);
                proof {
                    assert((self@, out.deep_view()) =~~= step(old(self)@, m));
                }
            },
            Message::ToggleContextPage(page) => {
                if self.context_page == page {
                    self.show_context = !self.show_context;
                } else {
                    self.context_page = page;
                    self.show_context = true;
                }
                self.context_title = page.title();
                proof {
                    assert((self@, out.deep_view()) =~~= step(old(self)@, m));
                }
            },
            Message::LaunchUrl(url) => {
                out.push(Command::OpenUrl(url));
                proof {
                    assert((self@, out.deep_view()) =~~= step(old(self)@, m));
                }
            },
            Message::PopulateLists(lists) => {
                out = self.handle_populate_lists(lists);
            },
            Message::WindowClose => {
                out.push(Command::CloseWindow);
                proof {
                    assert((self@, out.deep_view()) =~~= step(old(self)@, m));
                }
            },
            Message::WindowNew => {
                out.push(Command::SpawnWindow);
                proof {
                    assert((self@, out.deep_view()) =~~= step(old(self)@, m));
                }
            },
            Message::DialogCancel => {
                if self.dialog_pages.len() > 0 {
                    self.dialog_pages.remove(0);
                }
                proof {
                    assert((self@, out.deep_view()) =~~= step(old(self)@, m));
                }
            },
            Message::DialogComplete => {
                out = self.handle_dialog_complete();
            },
            Message::DialogUpdate(page) => {
                self.dialog_pages[0] = page;
                proof {
                    assert((self@, out.deep_view()) =~~= step(old(self)@, m));
                }
            },
            Message::Key(modifiers, key) => {
                out = self.handle_key(modifiers, key);
            },
            Message::Modifiers(modifiers) => {
                self.modifiers = modifiers;
                proof {
                    assert((self@, out.deep_view()) =~~= step(old(self)@, m));
                }
            },
            Message::AppTheme(theme) => {
                self.config.app_theme = theme;
                if self.has_config_handler {
                    out.push(Command::SaveTheme(theme));
                }
                out.push(Command::SetTheme(theme));
                proof {
                    assert((self@, out.deep_view()) =~~= step(old(self)@, m));
                }
            },
            Message::SystemThemeModeChange => {
                out.push(Command::SetTheme(self.config.app_theme));
                proof {
                    assert((self@, out.deep_view()) =~~= step(old(self)@, m));
                }
            },
            Message::OpenNewListDialog => {
                self.dialog_pages.push(DialogPage::NewItem { name: String::new() });
                out.push(Command::FocusDialogInput);
                proof {
                    assert((self@, out.deep_view()) =~~= step(old(self)@, m));
                }
            },
            Message::OpenRenameListDialog => {
                match &self.selected_list {
                    Some(l) => {
                        let from = l.name.clone();
                        let to = l.name.clone();
                        self.dialog_pages.push(DialogPage::RenameItem { from, to });
                        out.push(Command::FocusDialogInput);
                    },
                    None => {},
                }
                proof {
                    assert((self@, out.deep_view()) =~~= step(old(self)@, m));
                }
            },
            Message::OpenDeleteListDialog => {
                match &self.selected_list {
                    Some(l) => {
                        let name = l.name.clone();
                        self.dialog_pages.push(DialogPage::DeleteItem { name });
                    },
                    None => {},
                }
                proof {
                    assert((self@, out.deep_view()) =~~= step(old(self)@, m));
                }
            },
            Message::AddList(list) => {
                out = self.handle_add_list(list);
            },
            Message::DeleteList => {
                out = self.handle_delete_list();
            },
            Message::UpdateList(list) => {
                match self.nav.active() {
                    Some(i) => {
                        self.nav.data_set(i, list);
                    },
                    None => {},
                }
                proof {
                    assert((self@, out.deep_view()) =~~= step(old(self)@, m));
                }
            },
        }
        out
    }
}

} // verus!
