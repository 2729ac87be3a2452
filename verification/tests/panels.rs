use cosmic_todo::app::{App, Command, ContextPage, Flags, Message};
use cosmic_todo::content;
use cosmic_todo::details;
use cosmic_todo::key_bind::{key_binds, resolve_action, Key, Modifiers};
use cosmic_todo::models::{AppTheme, Config, List, Service, Task};

fn fresh_app() -> App {
    App::init(Flags {
        has_config_handler: true,
        config: Config { app_theme: AppTheme::System, version: 1 },
    })
    .0
}

fn list(id: &str, name: &str) -> List {
    List {
        id: id.to_string(),
        name: name.to_string(),
        icon: None,
        service: Service::Computer,
    }
}

fn task(id: &str, list_id: &str, title: &str) -> Task {
    Task {
        id: id.to_string(),
        list_id: list_id.to_string(),
        title: title.to_string(),
        priority: 1,
        completed: false,
        favorite: false,
    }
}

fn app_with_tasks() -> App {
    let mut app = fresh_app();
    app.update(Message::PopulateLists(vec![list("l1", "Home")]));
    app.update(Message::ContentMessage(content::Message::SetItems(vec![
        task("t1", "l1", "Water plants"),
        task("t2", "l1", "Pay rent"),
    ])));
    app
}

#[test]
fn set_items_fills_the_panel() {
    let app = app_with_tasks();
    assert_eq!(app.content.tasks.len(), 2);
    assert_eq!(app.content.tasks[0].title, "Water plants");
    assert_eq!(app.content.selected, None);
}

#[test]
fn selecting_a_row_opens_task_details() {
    let mut app = app_with_tasks();
    let cmds = app.update(Message::ContentMessage(content::Message::Select(1)));
    assert!(cmds.is_empty());
    assert_eq!(app.content.selected, Some(1));
    assert_eq!(app.details.task, Some(task("t2", "l1", "Pay rent")));
    assert_eq!(app.details.priority_selected, 1);
    assert_eq!(app.context_page, ContextPage::TaskDetails);
    assert!(app.show_context);
    assert_eq!(app.context_title, "Details");
}

#[test]
fn select_out_of_range_shows_nothing() {
    let mut app = app_with_tasks();
    let cmds = app.update(Message::ContentMessage(content::Message::Select(7)));
    assert!(cmds.is_empty());
    assert_eq!(app.details.task, None);
    assert_eq!(app.context_page, ContextPage::Settings);
}

#[test]
fn add_task_creates_from_entry_text() {
    let mut app = app_with_tasks();
    app.update(Message::ContentMessage(content::Message::Input("Buy milk".to_string())));
    assert_eq!(app.content.input, "Buy milk");
    let cmds = app.update(Message::ContentMessage(content::Message::AddTask));
    let expected = Task {
        id: String::new(),
        list_id: "l1".to_string(),
        title: "Buy milk".to_string(),
        priority: 0,
        completed: false,
        favorite: false,
    };
    assert_eq!(cmds, vec![Command::CreateTask(expected.clone())]);
    assert_eq!(app.content.tasks.len(), 3);
    assert_eq!(app.content.tasks[2], expected);
    assert_eq!(app.content.input, "");
}

#[test]
fn add_task_with_empty_text_is_noop() {
    let mut app = app_with_tasks();
    let cmds = app.update(Message::ContentMessage(content::Message::AddTask));
    assert!(cmds.is_empty());
    assert_eq!(app.content.tasks.len(), 2);
}

#[test]
fn completing_a_task_persists_it() {
    let mut app = app_with_tasks();
    let cmds = app.update(Message::ContentMessage(content::Message::Complete(
        "t1".to_string(),
        true,
    )));
    let mut done = task("t1", "l1", "Water plants");
    done.completed = true;
    assert_eq!(cmds, vec![Command::UpdateTask(done.clone())]);
    assert_eq!(app.content.tasks[0], done.clone());
    assert_eq!(app.details.task, Some(done));
}

#[test]
fn deleting_a_task_uses_the_selected_list() {
    let mut app = app_with_tasks();
    let cmds = app.update(Message::ContentMessage(content::Message::Delete(
        "t2".to_string(),
    )));
    assert_eq!(cmds, vec![Command::DeleteTask("l1".to_string(), "t2".to_string())]);
    assert_eq!(app.content.tasks.len(), 1);
    assert_eq!(app.content.tasks[0].id, "t1");
}

#[test]
fn deleting_a_task_without_selection_schedules_nothing() {
    let mut app = app_with_tasks();
    app.selected_list = None;
    let cmds = app.update(Message::ContentMessage(content::Message::Delete(
        "t2".to_string(),
    )));
    assert!(cmds.is_empty());
    assert_eq!(app.content.tasks.len(), 1);
}

#[test]
fn deleting_an_unknown_task_is_noop() {
    let mut app = app_with_tasks();
    let cmds = app.update(Message::ContentMessage(content::Message::Delete(
        "nope".to_string(),
    )));
    assert!(cmds.is_empty());
    assert_eq!(app.content.tasks.len(), 2);
}

#[test]
fn renaming_a_task_persists_the_new_title() {
    let mut app = app_with_tasks();
    let cmds = app.update(Message::ContentMessage(content::Message::Rename(
        "t1".to_string(),
        "Water the plants".to_string(),
    )));
    let mut renamed = task("t1", "l1", "Water the plants");
    renamed.priority = 1;
    assert_eq!(cmds, vec![Command::UpdateTask(renamed.clone())]);
    assert_eq!(app.content.tasks[0], renamed);
}

#[test]
fn item_down_and_up_move_the_focus() {
    let mut app = app_with_tasks();
    app.update(Message::ContentMessage(content::Message::ItemDown));
    assert_eq!(app.content.selected, Some(0));
    app.update(Message::ContentMessage(content::Message::ItemDown));
    assert_eq!(app.content.selected, Some(1));
    app.update(Message::ContentMessage(content::Message::ItemDown));
    assert_eq!(app.content.selected, Some(1));
    app.update(Message::ContentMessage(content::Message::ItemUp));
    assert_eq!(app.content.selected, Some(0));
    app.update(Message::ContentMessage(content::Message::ItemUp));
    assert_eq!(app.content.selected, Some(0));
}

#[test]
fn details_rename_redispatches_through_content() {
    let mut app = app_with_tasks();
    app.update(Message::ContentMessage(content::Message::Select(0)));
    let cmds = app.update(Message::DetailsMessage(details::Message::Rename(
        "Feed the cat".to_string(),
    )));
    let mut renamed = task("t1", "l1", "Feed the cat");
    renamed.priority = 1;
    assert_eq!(cmds, vec![Command::UpdateTask(renamed.clone())]);
    assert_eq!(app.content.tasks[0], renamed.clone());
    assert_eq!(app.details.task, Some(renamed));
}

#[test]
fn details_priority_redispatches_through_content() {
    let mut app = app_with_tasks();
    app.update(Message::ContentMessage(content::Message::Select(0)));
    let cmds = app.update(Message::DetailsMessage(details::Message::PriorityActivate(2)));
    let mut raised = task("t1", "l1", "Water plants");
    raised.priority = 2;
    assert_eq!(cmds, vec![Command::UpdateTask(raised.clone())]);
    assert_eq!(app.content.tasks[0], raised);
    assert_eq!(app.details.priority_selected, 2);
}

#[test]
fn details_delete_complete_favorite_have_no_effect() {
    let mut app = app_with_tasks();
    app.update(Message::ContentMessage(content::Message::Select(0)));
    let before_tasks = app.content.tasks.clone();
    assert!(app.update(Message::DetailsMessage(details::Message::Delete)).is_empty());
    assert!(app.update(Message::DetailsMessage(details::Message::Complete(true))).is_empty());
    assert!(app.update(Message::DetailsMessage(details::Message::Favorite(true))).is_empty());
    assert_eq!(app.content.tasks, before_tasks);
}

#[test]
fn details_save_persists_the_shown_task() {
    let mut app = app_with_tasks();
    app.update(Message::ContentMessage(content::Message::Select(0)));
    let cmds = app.update(Message::DetailsMessage(details::Message::Save));
    assert_eq!(cmds, vec![Command::UpdateTask(task("t1", "l1", "Water plants"))]);
}

#[test]
fn details_messages_without_a_task_are_ignored() {
    let mut app = fresh_app();
    let cmds = app.update(Message::DetailsMessage(details::Message::Rename(
        "x".to_string(),
    )));
    assert!(cmds.is_empty());
    assert_eq!(app.details.task, None);
}

#[test]
fn switching_lists_clears_the_panel_and_fetches() {
    let mut app = app_with_tasks();
    let cmds = app.update(Message::ContentMessage(content::Message::List(Some(list(
        "l2", "Work",
    )))));
    assert_eq!(cmds, vec![Command::FetchTasks("l2".to_string())]);
    assert!(app.content.tasks.is_empty());
    assert_eq!(app.content.list, Some(list("l2", "Work")));
}

#[test]
fn binding_table_resolves_first_match() {
    let binds = key_binds();
    let ctrl = Modifiers { ctrl: true, alt: false, shift: false, logo: false };
    let none = Modifiers { ctrl: false, alt: false, shift: false, logo: false };
    let a = resolve_action(&binds, ctrl, Key::Character('n'));
    let b = resolve_action(&binds, ctrl, Key::Character('n'));
    assert_eq!(a, b);
    assert!(a.is_some());
    assert!(resolve_action(&binds, none, Key::F2).is_some());
    assert!(resolve_action(&binds, none, Key::Character('n')).is_none());
    assert!(resolve_action(&binds, ctrl, Key::Delete).is_some());
}
