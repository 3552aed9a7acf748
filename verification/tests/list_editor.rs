use code_pal::event::{ActionPayload, Event, EventBus};
use code_pal::todo::{EditableStateItem, Note};
use code_pal::ui_component::ListTextEditor;

fn notes(texts: &[&str]) -> Vec<Note> {
    texts.iter().map(|t| Note::new(t.to_string())).collect()
}

fn contents(col: &Vec<Note>) -> Vec<String> {
    col.iter().map(|n| n.content.clone()).collect()
}

#[test]
fn activate_selects_first_row_and_broadcasts_once() {
    // collection ["A"], selection None; activate() selects row 0 and emits
    // exactly one Selection("X", Some(0)).
    let col = notes(&["A"]);
    let mut bus = EventBus::new();
    let mut ed: ListTextEditor<Note> = ListTextEditor::new(String::from("X"));
    assert_eq!(ed.current_selection, None);
    ed.on_activate(&col, &mut bus);
    assert_eq!(ed.current_selection, Some(0));
    assert!(ed.active);
    assert_eq!(bus.events.len(), 1);
    assert_eq!(
        bus.events[0],
        Event::Action(ActionPayload::Selection(String::from("X"), Some(0)))
    );
}

#[test]
fn activate_twice_leaves_state_of_one_activation() {
    let col = notes(&["A", "B"]);
    let mut bus = EventBus::new();
    let mut ed: ListTextEditor<Note> = ListTextEditor::new(String::from("X"));
    ed.on_activate(&col, &mut bus);
    let sel_once = ed.current_selection;
    let active_once = ed.active;
    let title_once = ed.title.clone();
    let events_once = bus.events.len();
    ed.on_activate(&col, &mut bus);
    assert_eq!(ed.current_selection, sel_once);
    assert_eq!(ed.active, active_once);
    assert_eq!(ed.title, title_once);
    // the second activation emits nothing
    assert_eq!(bus.events.len(), events_once);
}

#[test]
fn down_past_last_row_appends_empty_item() {
    // collection ["A"], selection Some(0); on_down grows to ["A", ""] and
    // selects the new row.
    let mut col = notes(&["A"]);
    let mut bus = EventBus::new();
    let mut ed: ListTextEditor<Note> = ListTextEditor::new(String::from("X"));
    ed.select_item(&col, 0, &mut bus);
    ed.on_down(&mut col, &mut bus);
    assert_eq!(contents(&col), vec![String::from("A"), String::new()]);
    assert_eq!(ed.current_selection, Some(1));
}

#[test]
fn backspace_clears_then_removes_row() {
    // ["A", "B"] selected at 1: one backspace empties "B", a second removes
    // the row and moves the cursor up.
    let mut col = notes(&["A", "B"]);
    let mut bus = EventBus::new();
    let mut ed: ListTextEditor<Note> = ListTextEditor::new(String::from("X"));
    ed.select_item(&col, 1, &mut bus);
    ed.on_backspace(&mut col);
    assert_eq!(contents(&col), vec![String::from("A"), String::new()]);
    assert_eq!(ed.current_selection, Some(1));
    ed.on_backspace(&mut col);
    assert_eq!(contents(&col), vec![String::from("A")]);
    assert_eq!(ed.current_selection, Some(0));
}

#[test]
fn first_row_is_never_removed() {
    let mut col = notes(&[""]);
    let mut bus = EventBus::new();
    let mut ed: ListTextEditor<Note> = ListTextEditor::new(String::from("X"));
    ed.select_item(&col, 0, &mut bus);
    ed.on_backspace(&mut col);
    assert_eq!(col.len(), 1);
    assert_eq!(ed.current_selection, Some(0));
}

#[test]
fn enter_then_two_backspaces_restore_length_and_selection() {
    // the round trip: enter inserts an empty row and selects it; the first
    // backspace removes it again; the second pops one character of the
    // original row, leaving length and selection as they started.
    let mut col = notes(&["ab", "cd"]);
    let mut bus = EventBus::new();
    let mut ed: ListTextEditor<Note> = ListTextEditor::new(String::from("X"));
    ed.select_item(&col, 1, &mut bus);
    ed.on_enter(&mut col, &mut bus);
    assert_eq!(col.len(), 3);
    assert_eq!(ed.current_selection, Some(2));
    ed.on_backspace(&mut col);
    ed.on_backspace(&mut col);
    assert_eq!(col.len(), 2);
    assert_eq!(ed.current_selection, Some(1));
    assert_eq!(contents(&col), vec![String::from("ab"), String::from("c")]);
}

#[test]
fn select_item_broadcasts_exactly_one_selection() {
    let col = notes(&["A", "B", "C"]);
    let mut bus = EventBus::new();
    let mut ed: ListTextEditor<Note> = ListTextEditor::new(String::from("Todo Items"));
    ed.select_item(&col, 2, &mut bus);
    assert_eq!(bus.events.len(), 1);
    assert_eq!(
        bus.events[0],
        Event::Action(ActionPayload::Selection(String::from("Todo Items"), Some(2)))
    );
    ed.select_item(&col, 1, &mut bus);
    assert_eq!(bus.events.len(), 2);
    assert_eq!(
        bus.events[1],
        Event::Action(ActionPayload::Selection(String::from("Todo Items"), Some(1)))
    );
}

#[test]
fn character_appends_to_selected_row() {
    let mut col = notes(&["A", "B"]);
    let mut bus = EventBus::new();
    let mut ed: ListTextEditor<Note> = ListTextEditor::new(String::from("X"));
    ed.select_item(&col, 1, &mut bus);
    ed.on_key(&mut col, 'z');
    assert_eq!(contents(&col), vec![String::from("A"), String::from("Bz")]);
}

#[test]
fn character_defaults_to_first_row_without_selection() {
    let mut col = notes(&["A"]);
    let mut ed: ListTextEditor<Note> = ListTextEditor::new(String::from("X"));
    ed.on_key(&mut col, '!');
    assert_eq!(contents(&col), vec![String::from("A!")]);
    assert_eq!(ed.current_selection, None);
}

#[test]
fn paste_appends_whole_text() {
    let mut col = notes(&["A"]);
    let mut bus = EventBus::new();
    let mut ed: ListTextEditor<Note> = ListTextEditor::new(String::from("X"));
    ed.select_item(&col, 0, &mut bus);
    ed.on_paste(&mut col, "xyz");
    assert_eq!(contents(&col), vec![String::from("Axyz")]);
}

#[test]
fn unselect_clears_and_broadcasts_none() {
    let col = notes(&["A"]);
    let mut bus = EventBus::new();
    let mut ed: ListTextEditor<Note> = ListTextEditor::new(String::from("X"));
    ed.select_item(&col, 0, &mut bus);
    ed.unselect(&mut bus);
    assert_eq!(ed.current_selection, None);
    assert_eq!(
        bus.events[1],
        Event::Action(ActionPayload::Selection(String::from("X"), None))
    );
}

#[test]
fn up_clamps_at_first_row() {
    let col = notes(&["A", "B"]);
    let mut bus = EventBus::new();
    let mut ed: ListTextEditor<Note> = ListTextEditor::new(String::from("X"));
    ed.select_item(&col, 1, &mut bus);
    ed.on_up(&col, &mut bus);
    assert_eq!(ed.current_selection, Some(0));
    ed.on_up(&col, &mut bus);
    assert_eq!(ed.current_selection, Some(0));
}

#[test]
fn deactivate_preserves_selection() {
    let col = notes(&["A"]);
    let mut bus = EventBus::new();
    let mut ed: ListTextEditor<Note> = ListTextEditor::new(String::from("X"));
    ed.on_activate(&col, &mut bus);
    ed.on_deactivate();
    assert!(!ed.active);
    assert_eq!(ed.current_selection, Some(0));
}

#[test]
fn fresh_notes_get_distinct_identifiers() {
    let a = Note::new(String::new());
    let b = Note::new(String::new());
    assert!(!a.identifier.is_empty());
    assert_ne!(a.identifier, b.identifier);
}

#[test]
fn selection_stays_valid_over_a_mixed_sequence() {
    // the cursor invariant, exercised: after an arbitrary burst of
    // operations the selection is always in bounds, and the collection never
    // becomes empty.
    let mut col = notes(&["A"]);
    let mut bus = EventBus::new();
    let mut ed: ListTextEditor<Note> = ListTextEditor::new(String::from("X"));
    ed.on_activate(&col, &mut bus);
    ed.on_down(&mut col, &mut bus);
    ed.on_down(&mut col, &mut bus);
    ed.on_key(&mut col, 'x');
    ed.on_enter(&mut col, &mut bus);
    ed.on_backspace(&mut col);
    ed.on_backspace(&mut col);
    ed.on_up(&col, &mut bus);
    ed.on_backspace(&mut col);
    ed.on_backspace(&mut col);
    ed.on_backspace(&mut col);
    assert!(!col.is_empty());
    if let Some(i) = ed.current_selection {
        assert!(i < col.len());
    }
}
