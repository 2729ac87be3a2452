use cosmic_todo::app::{Action, App, Command, ContextPage, DialogPage, Flags, Message};
use cosmic_todo::content;
use cosmic_todo::key_bind::{Key, Modifiers};
use cosmic_todo::models::{AppTheme, Config, List, Service};

fn flags() -> Flags {
    Flags {
        has_config_handler: true,
        config: Config { app_theme: AppTheme::System, version: 1 },
    }
}

fn fresh_app() -> App {
    App::init(flags()).0
}

fn list(id: &str, name: &str) -> List {
    List {
        id: id.to_string(),
        name: name.to_string(),
        icon: Some("view-list-symbolic".to_string()),
        service: Service::Computer,
    }
}

fn no_mods() -> Modifiers {
    Modifiers { ctrl: false, alt: false, shift: false, logo: false }
}

fn ctrl_mods() -> Modifiers {
    Modifiers { ctrl: true, alt: false, shift: false, logo: false }
}

#[test]
fn init_schedules_one_list_fetch() {
    let (app, cmds) = App::init(flags());
    assert_eq!(cmds, vec![Command::FetchLists]);
    assert_eq!(app.context_page, ContextPage::Settings);
    assert!(!app.show_context);
    assert!(app.dialog_pages.is_empty());
    assert!(app.selected_list.is_none());
    assert_eq!(app.nav.entries.len(), 0);
}

#[test]
fn populate_lists_activates_first_entry() {
    let mut app = fresh_app();
    let cmds = app.update(Message::PopulateLists(vec![list("1", "Home"), list("2", "Work")]));
    assert_eq!(app.nav.entries.len(), 2);
    assert_eq!(app.nav.active, Some(0));
    assert_eq!(app.selected_list.as_ref().map(|l| l.id.as_str()), Some("1"));
    assert_eq!(cmds, vec![Command::FetchTasks("1".to_string())]);
}

#[test]
fn populate_empty_result_is_quiet() {
    let mut app = fresh_app();
    let cmds = app.update(Message::PopulateLists(vec![]));
    assert!(cmds.is_empty());
    assert_eq!(app.nav.entries.len(), 0);
    assert_eq!(app.nav.active, None);
    assert!(app.selected_list.is_none());
}

#[test]
fn populate_then_select_round_trip() {
    let mut app = fresh_app();
    app.update(Message::PopulateLists(vec![
        list("a", "Alpha"),
        list("b", "Beta"),
        list("c", "Gamma"),
    ]));
    let cmds = app.on_nav_select(1);
    assert_eq!(app.selected_list, Some(list("b", "Beta")));
    assert_eq!(cmds, vec![Command::FetchTasks("b".to_string())]);
}

#[test]
fn select_out_of_range_is_noop() {
    let mut app = fresh_app();
    app.update(Message::PopulateLists(vec![list("a", "Alpha")]));
    let cmds = app.on_nav_select(5);
    assert!(cmds.is_empty());
    assert_eq!(app.nav.active, Some(0));
}

#[test]
fn dialog_cancel_on_empty_stack_is_noop() {
    let mut app = fresh_app();
    let cmds = app.update(Message::DialogCancel);
    assert!(cmds.is_empty());
    assert!(app.dialog_pages.is_empty());
    assert_eq!(app.context_page, ContextPage::Settings);
    assert!(!app.show_context);
    assert!(app.selected_list.is_none());
    assert_eq!(app.nav.entries.len(), 0);
}

#[test]
fn dialog_complete_on_empty_stack_is_noop() {
    let mut app = fresh_app();
    let cmds = app.update(Message::DialogComplete);
    assert!(cmds.is_empty());
    assert!(app.dialog_pages.is_empty());
}

#[test]
fn new_list_dialog_flow() {
    let mut app = fresh_app();

    let cmds = app.update(Message::OpenNewListDialog);
    assert_eq!(cmds, vec![Command::FocusDialogInput]);
    assert_eq!(app.dialog_pages.len(), 1);
    assert_eq!(app.dialog_pages[0], DialogPage::NewItem { name: String::new() });

    let cmds = app.update(Message::DialogUpdate(DialogPage::NewItem {
        name: "Groceries".to_string(),
    }));
    assert!(cmds.is_empty());
    assert_eq!(app.dialog_pages.len(), 1);
    assert_eq!(app.dialog_pages[0], DialogPage::NewItem { name: "Groceries".to_string() });

    let cmds = app.update(Message::DialogComplete);
    assert!(app.dialog_pages.is_empty());
    assert_eq!(
        cmds,
        vec![Command::CreateList(List {
            id: String::new(),
            name: "Groceries".to_string(),
            icon: None,
            service: Service::Computer,
        })],
    );

    // The backend confirms the create with an assigned id.
    let created = list("9", "Groceries");
    let cmds = app.update(Message::AddList(created.clone()));
    assert_eq!(app.nav.entries.len(), 1);
    assert_eq!(app.nav.active, Some(0));
    assert_eq!(app.nav.entries[0].label, "Groceries");
    assert_eq!(app.nav.entries[0].list, created.clone());
    assert_eq!(app.selected_list, Some(created));
    assert_eq!(cmds, vec![Command::FetchTasks("9".to_string())]);
    assert!(app.dialog_pages.is_empty());
}

#[test]
fn delete_list_without_matching_entry() {
    let mut app = fresh_app();
    app.selected_list = Some(list("ghost", "Gone"));
    let cmds = app.update(Message::DeleteList);
    assert_eq!(app.nav.entries.len(), 0);
    assert!(app.selected_list.is_none());
    assert_eq!(cmds, vec![Command::DeleteList("ghost".to_string())]);
}

#[test]
fn delete_list_removes_matching_entry_by_id() {
    let mut app = fresh_app();
    app.update(Message::PopulateLists(vec![list("a", "Alpha"), list("b", "Beta")]));
    app.on_nav_select(1);
    let cmds = app.update(Message::DeleteList);
    assert_eq!(app.nav.entries.len(), 1);
    assert_eq!(app.nav.entries[0].list.id, "a");
    assert_eq!(app.nav.active, None);
    assert!(app.selected_list.is_none());
    assert_eq!(cmds, vec![Command::DeleteList("b".to_string())]);
    assert!(app.content.list.is_none());
    assert!(app.content.tasks.is_empty());
}

#[test]
fn delete_list_with_nothing_selected_is_noop() {
    let mut app = fresh_app();
    let cmds = app.update(Message::DeleteList);
    assert!(cmds.is_empty());
}

#[test]
fn rename_dialog_flow() {
    let mut app = fresh_app();
    app.update(Message::PopulateLists(vec![list("a", "Alpha")]));

    let cmds = app.update(Message::OpenRenameListDialog);
    assert_eq!(cmds, vec![Command::FocusDialogInput]);
    assert_eq!(
        app.dialog_pages[0],
        DialogPage::RenameItem { from: "Alpha".to_string(), to: "Alpha".to_string() },
    );

    app.update(Message::DialogUpdate(DialogPage::RenameItem {
        from: "Alpha".to_string(),
        to: "Chores".to_string(),
    }));
    let cmds = app.update(Message::DialogComplete);
    assert!(app.dialog_pages.is_empty());
    let renamed = List {
        id: "a".to_string(),
        name: "Chores".to_string(),
        icon: Some("view-list-symbolic".to_string()),
        service: Service::Computer,
    };
    assert_eq!(cmds, vec![Command::UpdateList(renamed.clone())]);

    // The backend confirms; the active entry's list is replaced, the
    // label shown is left as it was.
    let cmds = app.update(Message::UpdateList(renamed.clone()));
    assert!(cmds.is_empty());
    assert_eq!(app.nav.entries[0].list, renamed);
    assert_eq!(app.nav.entries[0].label, "Alpha");
}

#[test]
fn rename_dialog_needs_a_selection() {
    let mut app = fresh_app();
    let cmds = app.update(Message::OpenRenameListDialog);
    assert!(cmds.is_empty());
    assert!(app.dialog_pages.is_empty());
}

#[test]
fn delete_dialog_flow() {
    let mut app = fresh_app();
    app.update(Message::PopulateLists(vec![list("a", "Alpha")]));
    let cmds = app.update(Message::OpenDeleteListDialog);
    assert!(cmds.is_empty());
    assert_eq!(app.dialog_pages[0], DialogPage::DeleteItem { name: "Alpha".to_string() });

    let cmds = app.update(Message::DialogComplete);
    assert!(app.dialog_pages.is_empty());
    assert_eq!(cmds, vec![Command::DeleteList("a".to_string())]);
    assert_eq!(app.nav.entries.len(), 0);
    assert!(app.selected_list.is_none());
}

#[test]
fn dialog_depth_moves_by_at_most_one() {
    let mut app = fresh_app();
    assert_eq!(app.dialog_pages.len(), 0);
    app.update(Message::OpenNewListDialog);
    assert_eq!(app.dialog_pages.len(), 1);
    app.update(Message::OpenNewListDialog);
    assert_eq!(app.dialog_pages.len(), 2);
    app.update(Message::DialogUpdate(DialogPage::NewItem { name: "x".to_string() }));
    assert_eq!(app.dialog_pages.len(), 2);
    app.update(Message::DialogCancel);
    assert_eq!(app.dialog_pages.len(), 1);
    app.update(Message::DialogComplete);
    assert_eq!(app.dialog_pages.len(), 0);
}

#[test]
fn dialog_update_edits_only_the_front() {
    let mut app = fresh_app();
    app.update(Message::OpenNewListDialog);
    app.update(Message::OpenNewListDialog);
    app.update(Message::DialogUpdate(DialogPage::NewItem { name: "front".to_string() }));
    assert_eq!(app.dialog_pages[0], DialogPage::NewItem { name: "front".to_string() });
    assert_eq!(app.dialog_pages[1], DialogPage::NewItem { name: String::new() });
}

#[test]
fn toggle_context_page_twice_restores_visibility() {
    let mut app = fresh_app();
    let shown_before = app.show_context;
    app.update(Message::ToggleContextPage(ContextPage::Settings));
    assert!(app.show_context);
    app.update(Message::ToggleContextPage(ContextPage::Settings));
    assert_eq!(app.show_context, shown_before);
}

#[test]
fn toggle_context_page_switches_and_shows() {
    let mut app = fresh_app();
    let cmds = app.update(Message::ToggleContextPage(ContextPage::About));
    assert!(cmds.is_empty());
    assert_eq!(app.context_page, ContextPage::About);
    assert!(app.show_context);
    assert_eq!(app.context_title, "");
    app.update(Message::ToggleContextPage(ContextPage::Settings));
    assert_eq!(app.context_page, ContextPage::Settings);
    assert!(app.show_context);
    assert_eq!(app.context_title, "Settings");
}

#[test]
fn key_dispatch_is_deterministic() {
    let mut first = fresh_app();
    let mut second = fresh_app();
    let c1 = first.update(Message::Key(ctrl_mods(), Key::Character('n')));
    let c2 = second.update(Message::Key(ctrl_mods(), Key::Character('n')));
    assert_eq!(c1, c2);
    assert_eq!(first.dialog_pages, second.dialog_pages);
    assert_eq!(first.dialog_pages.len(), 1);
    assert_eq!(c1, vec![Command::FocusDialogInput]);
}

#[test]
fn key_dispatch_resolves_bound_chords() {
    let mut app = fresh_app();
    let cmds = app.update(Message::Key(ctrl_mods(), Key::Character('w')));
    assert_eq!(cmds, vec![Command::CloseWindow]);
    let cmds = app.update(Message::Key(
        Modifiers { ctrl: true, alt: false, shift: true, logo: false },
        Key::Character('n'),
    ));
    assert_eq!(cmds, vec![Command::SpawnWindow]);
    let cmds = app.update(Message::Key(ctrl_mods(), Key::Character('i')));
    assert!(cmds.is_empty());
    assert_eq!(app.context_page, ContextPage::About);
}

#[test]
fn unbound_key_is_ignored() {
    let mut app = fresh_app();
    let cmds = app.update(Message::Key(no_mods(), Key::Character('q')));
    assert!(cmds.is_empty());
    assert!(app.dialog_pages.is_empty());
}

#[test]
fn action_messages_match_their_actions() {
    assert!(matches!(
        Action::About.message(),
        Message::ToggleContextPage(ContextPage::About)
    ));
    assert!(matches!(
        Action::Settings.message(),
        Message::ToggleContextPage(ContextPage::Settings)
    ));
    assert!(matches!(Action::WindowClose.message(), Message::WindowClose));
    assert!(matches!(Action::WindowNew.message(), Message::WindowNew));
    assert!(matches!(Action::NewList.message(), Message::OpenNewListDialog));
    assert!(matches!(Action::RenameList.message(), Message::OpenRenameListDialog));
    assert!(matches!(Action::DeleteList.message(), Message::OpenDeleteListDialog));
    assert!(matches!(
        Action::ItemDown.message(),
        Message::ContentMessage(content::Message::ItemDown)
    ));
    assert!(matches!(
        Action::ItemUp.message(),
        Message::ContentMessage(content::Message::ItemUp)
    ));
}

#[test]
fn app_theme_with_handler_persists_and_applies() {
    let mut app = fresh_app();
    let cmds = app.update(Message::AppTheme(AppTheme::Dark));
    assert_eq!(app.config.app_theme, AppTheme::Dark);
    assert_eq!(cmds, vec![Command::SaveTheme(AppTheme::Dark), Command::SetTheme(AppTheme::Dark)]);
}

#[test]
fn app_theme_without_handler_stays_in_memory() {
    let (mut app, _) = App::init(Flags {
        has_config_handler: false,
        config: Config { app_theme: AppTheme::System, version: 1 },
    });
    let cmds = app.update(Message::AppTheme(AppTheme::Light));
    assert_eq!(app.config.app_theme, AppTheme::Light);
    assert_eq!(cmds, vec![Command::SetTheme(AppTheme::Light)]);
}

#[test]
fn system_theme_change_reapplies_configured_theme() {
    let mut app = fresh_app();
    app.update(Message::AppTheme(AppTheme::Dark));
    let cmds = app.update(Message::SystemThemeModeChange);
    assert_eq!(cmds, vec![Command::SetTheme(AppTheme::Dark)]);
}

#[test]
fn window_and_url_messages_schedule_their_effects() {
    let mut app = fresh_app();
    assert_eq!(app.update(Message::WindowClose), vec![Command::CloseWindow]);
    assert_eq!(app.update(Message::WindowNew), vec![Command::SpawnWindow]);
    assert_eq!(
        app.update(Message::LaunchUrl("https://example.org".to_string())),
        vec![Command::OpenUrl("https://example.org".to_string())],
    );
}

#[test]
fn modifiers_message_is_recorded() {
    let mut app = fresh_app();
    let cmds = app.update(Message::Modifiers(ctrl_mods()));
    assert!(cmds.is_empty());
    assert_eq!(app.modifiers, ctrl_mods());
}

#[test]
fn escape_pops_dialog_before_hiding_context() {
    let mut app = fresh_app();
    app.update(Message::ToggleContextPage(ContextPage::Settings));
    app.update(Message::OpenNewListDialog);
    app.on_escape();
    assert!(app.dialog_pages.is_empty());
    assert!(app.show_context);
    app.on_escape();
    assert!(!app.show_context);
}

#[test]
fn context_page_titles() {
    assert_eq!(ContextPage::About.title(), "");
    assert_eq!(ContextPage::Settings.title(), "Settings");
    assert_eq!(ContextPage::TaskDetails.title(), "Details");
}

#[test]
fn add_and_delete_keep_selection_in_lockstep() {
    let mut app = fresh_app();
    app.update(Message::AddList(list("1", "One")));
    assert_eq!(app.nav.active, Some(0));
    assert_eq!(app.selected_list, Some(list("1", "One")));
    app.update(Message::AddList(list("2", "Two")));
    assert_eq!(app.nav.active, Some(1));
    assert_eq!(app.selected_list, Some(list("2", "Two")));
    app.update(Message::DeleteList);
    assert_eq!(app.nav.active, None);
    assert!(app.selected_list.is_none());
    assert_eq!(app.nav.entries.len(), 1);
}
