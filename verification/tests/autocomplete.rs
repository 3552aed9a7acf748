use code_pal::event::{ActionPayload, Event, EventBus};
use code_pal::todo::Project;
use code_pal::ui_component::AutoCompleteEditor;

fn suggestion(name: &str, id: &str) -> Project {
    Project {
        identifier: id.to_string(),
        name: name.to_string(),
        url: String::new(),
        dir_location: String::new(),
    }
}

#[test]
fn character_appends_and_broadcasts_text() {
    let mut ed: AutoCompleteEditor<Project> =
        AutoCompleteEditor::new(String::from("Project"), String::new(), vec![]);
    let mut bus = EventBus::new();
    ed.on_key('a', &mut bus);
    assert_eq!(ed.text, "a");
    assert_eq!(
        bus.events[0],
        Event::Action(ActionPayload::Text(String::from("a")))
    );
}

#[test]
fn down_at_only_entry_keeps_highlight() {
    // suggestions with one entry: moving down stays at that entry and shows
    // its name in the buffer (read-through-select).
    let mut ed = AutoCompleteEditor::new(
        String::from("Project"),
        String::from("A"),
        vec![suggestion("Alpha", "id-1")],
    );
    ed.select_suggestion(Some(0));
    ed.on_down();
    assert_eq!(ed.current_selection, Some(0));
    assert_eq!(ed.text, "Alpha");
}

#[test]
fn down_moves_and_reads_through() {
    let mut ed = AutoCompleteEditor::new(
        String::from("Project"),
        String::new(),
        vec![suggestion("Alpha", "1"), suggestion("Beta", "2")],
    );
    ed.select_suggestion(Some(0));
    ed.on_down();
    assert_eq!(ed.current_selection, Some(1));
    assert_eq!(ed.text, "Beta");
    ed.on_down();
    assert_eq!(ed.current_selection, Some(1));
}

#[test]
fn up_clamps_and_reads_through() {
    let mut ed = AutoCompleteEditor::new(
        String::from("Project"),
        String::new(),
        vec![suggestion("Alpha", "1"), suggestion("Beta", "2")],
    );
    ed.select_suggestion(Some(1));
    ed.on_up();
    assert_eq!(ed.current_selection, Some(0));
    assert_eq!(ed.text, "Alpha");
    ed.on_up();
    assert_eq!(ed.current_selection, Some(0));
}

#[test]
fn up_with_no_suggestions_stays_unselected() {
    let mut ed: AutoCompleteEditor<Project> =
        AutoCompleteEditor::new(String::from("Project"), String::new(), vec![]);
    ed.on_up();
    assert_eq!(ed.current_selection, None);
    ed.on_down();
    assert_eq!(ed.current_selection, None);
}

#[test]
fn enter_commits_highlighted_suggestion() {
    let mut ed = AutoCompleteEditor::new(
        String::from("Project"),
        String::new(),
        vec![suggestion("Alpha", "id-7")],
    );
    let mut bus = EventBus::new();
    ed.select_suggestion(Some(0));
    ed.on_enter(&mut bus);
    assert_eq!(ed.text, "Alpha");
    assert_eq!(
        bus.events[0],
        Event::Action(ActionPayload::TextSelection(
            String::from("Project"),
            String::from("id-7")
        ))
    );
}

#[test]
fn enter_without_highlight_is_silent() {
    let mut ed: AutoCompleteEditor<Project> =
        AutoCompleteEditor::new(String::from("Project"), String::from("x"), vec![]);
    let mut bus = EventBus::new();
    ed.on_enter(&mut bus);
    assert_eq!(bus.events.len(), 0);
    assert_eq!(ed.text, "x");
}

#[test]
fn backspace_pops_and_broadcasts() {
    let mut ed: AutoCompleteEditor<Project> =
        AutoCompleteEditor::new(String::from("Project"), String::from("ab"), vec![]);
    let mut bus = EventBus::new();
    ed.on_backspace(&mut bus);
    assert_eq!(ed.text, "a");
    assert_eq!(
        bus.events[0],
        Event::Action(ActionPayload::Text(String::from("a")))
    );
}

#[test]
fn backspace_on_empty_buffer_clears_stored_choice() {
    let mut ed: AutoCompleteEditor<Project> =
        AutoCompleteEditor::new(String::from("Project"), String::new(), vec![]);
    ed.current_chosen = Some(String::from("id-3"));
    let mut bus = EventBus::new();
    ed.on_backspace(&mut bus);
    assert_eq!(ed.current_chosen, Some(String::new()));
    assert_eq!(ed.text, "");
    assert_eq!(
        bus.events[0],
        Event::Action(ActionPayload::Text(String::new()))
    );
    // a second backspace with everything empty is silent
    ed.on_backspace(&mut bus);
    assert_eq!(bus.events.len(), 1);
}

#[test]
fn activate_twice_equals_once() {
    let mut ed: AutoCompleteEditor<Project> =
        AutoCompleteEditor::new(String::from("Project"), String::from("t"), vec![]);
    ed.on_activate();
    let text_once = ed.text.clone();
    let sel_once = ed.current_selection;
    ed.on_activate();
    assert!(ed.active);
    assert_eq!(ed.text, text_once);
    assert_eq!(ed.current_selection, sel_once);
}
