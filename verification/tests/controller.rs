use code_pal::app::{default_projects, ActiveEditor, App, AppState, CodePalAction};
use code_pal::event::{ActionPayload, Event, Key, KeyInput};
use code_pal::todo::{EditableStateItem, Project, TodoItem};

fn key(k: Key, control: bool) -> KeyInput {
    KeyInput { key: k, control }
}

fn named_project(name: &str, id: &str) -> Project {
    Project {
        identifier: id.to_string(),
        name: name.to_string(),
        url: String::new(),
        dir_location: String::new(),
    }
}

fn state_with_projects(projects: Vec<Project>) -> AppState {
    AppState {
        todo_items: vec![TodoItem::new(String::from("first"))],
        projects,
    }
}

#[test]
fn default_state_has_one_empty_todo_and_project() {
    let s = AppState::new();
    assert_eq!(s.todo_items.len(), 1);
    assert_eq!(s.todo_items[0].title, "");
    assert_eq!(s.todo_items[0].notes.len(), 1);
    assert_eq!(s.projects.len(), 1);
    assert_eq!(s.projects[0].name, "");
}

#[test]
fn default_projects_is_one_empty_placeholder() {
    let v = default_projects();
    assert_eq!(v.len(), 1);
    assert_eq!(v[0].name, "");
    assert_eq!(v[0].url, "");
    assert_eq!(v[0].dir_location, "");
}

#[test]
fn new_app_starts_idle() {
    let app = App::new(String::from("Code Pal"), AppState::new());
    assert_eq!(app.current_action, CodePalAction::NoAction);
    assert!(!app.should_quit);
    assert!(!app.should_save);
    assert_eq!(app.todo_items.current_selection, None);
    assert_eq!(app.notes_binding, None);
    assert_eq!(app.bus.events.len(), 0);
    assert_eq!(app.current_active_item(), None);
}

#[test]
fn ctrl_a_activates_todo_editor_and_selection_rebinds_notes() {
    let mut app = App::new(String::from("Code Pal"), AppState::new());
    app.on_key(key(Key::Char('a'), true));
    assert_eq!(app.current_action, CodePalAction::AddToDoItem);
    assert_eq!(app.current_active_item(), Some(ActiveEditor::TodoItems));
    assert!(app.todo_items.active);
    assert_eq!(app.todo_items.current_selection, Some(0));
    // the queued Selection("Todo Items", 0) rebinds the notes panel
    app.process_actions();
    assert_eq!(app.bus.events.len(), 0);
    assert_eq!(app.notes_binding, Some(0));
    assert_eq!(app.notes.current_selection, Some(0));
}

#[test]
fn ctrl_q_raises_quit_flag() {
    let mut app = App::new(String::from("Code Pal"), AppState::new());
    app.on_key(key(Key::Char('q'), true));
    assert!(app.should_quit);
}

#[test]
fn ctrl_s_raises_save_flag() {
    let mut app = App::new(String::from("Code Pal"), AppState::new());
    app.on_key(key(Key::Char('s'), true));
    assert!(app.should_save);
}

#[test]
fn escape_stops_the_running_action() {
    let mut app = App::new(String::from("Code Pal"), AppState::new());
    app.on_key(key(Key::Char('a'), true));
    app.on_key(key(Key::Esc, false));
    assert_eq!(app.current_action, CodePalAction::NoAction);
    assert!(!app.todo_items.active);
    // the selection is preserved across deactivation
    assert_eq!(app.todo_items.current_selection, Some(0));
}

#[test]
fn typing_reaches_the_active_todo_editor() {
    let mut app = App::new(String::from("Code Pal"), AppState::new());
    app.on_key(key(Key::Char('a'), true));
    app.on_key(key(Key::Char('h'), false));
    app.on_key(key(Key::Char('i'), false));
    assert_eq!(app.app_state.todo_items[0].title, "hi");
}

#[test]
fn text_reaction_filters_suggestions_by_substring() {
    // every kept entry contains the text; the excluded one does not.
    let mut app = App::new(
        String::from("Code Pal"),
        state_with_projects(vec![
            named_project("Alpha", "1"),
            named_project("Beta", "2"),
            named_project("Gamma", "3"),
        ]),
    );
    app.on_action(ActionPayload::Text(String::from("am")));
    let names: Vec<String> = app
        .todo_item_project
        .current_suggestions
        .iter()
        .map(|p| p.name.clone())
        .collect();
    assert_eq!(names, vec![String::from("Gamma")]);
    assert!(names.iter().all(|n| n.contains("am")));
    assert_eq!(app.todo_item_project.current_selection, Some(0));
    // no match: empty list, nothing highlighted
    app.on_action(ActionPayload::Text(String::from("zzz")));
    assert_eq!(app.todo_item_project.current_suggestions.len(), 0);
    assert_eq!(app.todo_item_project.current_selection, None);
}

#[test]
fn filtering_is_case_sensitive_and_keeps_order() {
    let mut app = App::new(
        String::from("Code Pal"),
        state_with_projects(vec![
            named_project("Alpha", "1"),
            named_project("Beta", "2"),
        ]),
    );
    app.on_action(ActionPayload::Text(String::from("A")));
    let names: Vec<String> = app
        .todo_item_project
        .current_suggestions
        .iter()
        .map(|p| p.name.clone())
        .collect();
    // "A" occurs in "Alpha" but not in "Beta" (matching is case-sensitive)
    assert_eq!(names, vec![String::from("Alpha")]);
    // empty text keeps everything, in order
    app.on_action(ActionPayload::Text(String::new()));
    let all: Vec<String> = app
        .todo_item_project
        .current_suggestions
        .iter()
        .map(|p| p.name.clone())
        .collect();
    assert_eq!(all, vec![String::from("Alpha"), String::from("Beta")]);
}

#[test]
fn committed_choice_is_written_into_selected_todo() {
    let mut app = App::new(
        String::from("Code Pal"),
        state_with_projects(vec![named_project("Alpha", "id-42")]),
    );
    app.on_key(key(Key::Char('a'), true));
    app.process_actions();
    app.on_action(ActionPayload::TextSelection(
        String::from("Project"),
        String::from("id-42"),
    ));
    assert_eq!(app.app_state.todo_items[0].project_identifier, "id-42");
}

#[test]
fn foreign_text_selection_is_ignored() {
    let mut app = App::new(
        String::from("Code Pal"),
        state_with_projects(vec![named_project("Alpha", "id-42")]),
    );
    app.on_key(key(Key::Char('a'), true));
    app.process_actions();
    app.on_action(ActionPayload::TextSelection(
        String::from("Elsewhere"),
        String::from("id-42"),
    ));
    assert_eq!(app.app_state.todo_items[0].project_identifier, "");
}

#[test]
fn selecting_linked_todo_prefills_project_buffer() {
    let mut state = state_with_projects(vec![
        named_project("Alpha", "id-1"),
        named_project("Beta", "id-2"),
    ]);
    state.todo_items[0].project_identifier = String::from("id-2");
    let mut app = App::new(String::from("Code Pal"), state);
    app.on_key(key(Key::Char('a'), true));
    app.process_actions();
    assert_eq!(app.todo_item_project.text, "Beta");
    let names: Vec<String> = app
        .todo_item_project
        .current_suggestions
        .iter()
        .map(|p| p.name.clone())
        .collect();
    assert_eq!(names, vec![String::from("Beta")]);
}

#[test]
fn dangling_project_link_preselects_nothing_special() {
    let mut state = state_with_projects(vec![named_project("Alpha", "id-1")]);
    state.todo_items[0].project_identifier = String::from("missing");
    let mut app = App::new(String::from("Code Pal"), state);
    app.on_key(key(Key::Char('a'), true));
    app.process_actions();
    // a look-up miss is not an error: empty buffer, full suggestion list
    assert_eq!(app.todo_item_project.text, "");
    assert_eq!(app.todo_item_project.current_suggestions.len(), 1);
    assert_eq!(app.todo_item_project.current_selection, Some(0));
}

#[test]
fn arrows_move_tabs_only_while_idle() {
    let mut app = App::new(String::from("Code Pal"), AppState::new());
    assert_eq!(app.tabs.index, 0);
    app.on_key(key(Key::Right, false));
    assert_eq!(app.tabs.index, 1);
    app.on_key(key(Key::Right, false));
    assert_eq!(app.tabs.index, 0);
    app.on_key(key(Key::Left, false));
    assert_eq!(app.tabs.index, 1);
}

#[test]
fn ctrl_p_picks_project_action_by_tab() {
    let mut app = App::new(String::from("Code Pal"), AppState::new());
    app.on_key(key(Key::Char('p'), true));
    assert_eq!(app.current_action, CodePalAction::SelectProject);
    assert_eq!(app.current_active_item(), Some(ActiveEditor::TodoItemProject));
    app.on_key(key(Key::Esc, false));
    app.on_key(key(Key::Right, false));
    app.on_key(key(Key::Char('p'), true));
    assert_eq!(app.current_action, CodePalAction::AddProject);
    assert_eq!(app.current_active_item(), Some(ActiveEditor::Projects));
}

#[test]
fn ctrl_n_activates_notes_after_binding() {
    let mut app = App::new(String::from("Code Pal"), AppState::new());
    app.on_key(key(Key::Char('a'), true));
    app.process_actions();
    app.on_key(key(Key::Char('n'), true));
    assert_eq!(app.current_action, CodePalAction::AddNote);
    assert!(app.notes.active);
    assert!(!app.todo_items.active);
    app.on_key(key(Key::Char('m'), false));
    assert_eq!(app.app_state.todo_items[0].notes[0].content, "m");
}

#[test]
fn paste_goes_to_the_active_editor() {
    let mut app = App::new(String::from("Code Pal"), AppState::new());
    app.on_key(key(Key::Char('a'), true));
    app.on_paste("pasted");
    assert_eq!(app.app_state.todo_items[0].title, "pasted");
}

#[test]
fn quit_chord_reaches_buffer_while_editing() {
    // a plain 'q' while the todo editor is active is text, not quit
    let mut app = App::new(String::from("Code Pal"), AppState::new());
    app.on_key(key(Key::Char('a'), true));
    app.on_key(key(Key::Char('q'), false));
    assert!(!app.should_quit);
    assert_eq!(app.app_state.todo_items[0].title, "q");
}

#[test]
fn fresh_todo_item_has_the_default_shape() {
    let t = TodoItem::new(String::from("title"));
    assert_eq!(t.title, "title");
    assert_eq!(t.project_identifier, "");
    assert!(t.description.is_empty());
    assert_eq!(t.notes.len(), 1);
    assert_eq!(t.notes[0].content, "");
    assert!(!t.identifier.is_empty());
}
