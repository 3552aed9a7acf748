use code_pal::event::KeyInput;
use code_pal::todo::{EditableRowItem, Project};
use code_pal::ui_component::TableEditor;

fn project(name: &str, url: &str, dir: &str) -> Project {
    Project::new(vec![name.to_string(), url.to_string(), dir.to_string()])
}

fn editor() -> TableEditor<Project> {
    TableEditor::new(
        String::from("Projects"),
        vec![
            String::from("Name"),
            String::from("url"),
            String::from("Directory"),
        ],
        vec![20, 50, 50],
    )
}

#[test]
fn right_clamps_at_last_column() {
    // row ["Name", "url", "dir"], column 0: two rights reach column 2, a
    // third stays there — no wraparound, no growth.
    let col = vec![project("Name", "url", "dir")];
    let mut ed = editor();
    ed.select_item(&col, 0);
    ed.select_header(&col, 0);
    ed.on_right(&col);
    ed.on_right(&col);
    assert_eq!(ed.current_header_selection, Some(2));
    ed.on_right(&col);
    assert_eq!(ed.current_header_selection, Some(2));
}

#[test]
fn left_clamps_at_first_column() {
    let col = vec![project("a", "b", "c")];
    let mut ed = editor();
    ed.select_item(&col, 0);
    ed.select_header(&col, 1);
    ed.on_left(&col);
    assert_eq!(ed.current_header_selection, Some(0));
    ed.on_left(&col);
    assert_eq!(ed.current_header_selection, Some(0));
}

#[test]
fn activate_always_resets_both_cursors() {
    let col = vec![project("a", "b", "c"), project("d", "e", "f")];
    let mut ed = editor();
    ed.select_item(&col, 1);
    ed.select_header(&col, 2);
    ed.on_activate(&col);
    assert_eq!(ed.current_selection, Some(0));
    assert_eq!(ed.current_header_selection, Some(0));
    assert!(ed.active);
    // a second activation changes nothing further
    ed.on_activate(&col);
    assert_eq!(ed.current_selection, Some(0));
    assert_eq!(ed.current_header_selection, Some(0));
}

#[test]
fn character_edits_the_working_cell() {
    let mut col = vec![project("a", "b", "c")];
    let mut ed = editor();
    ed.select_item(&col, 0);
    ed.select_header(&col, 1);
    ed.on_key(&mut col, 'z');
    assert_eq!(col[0].name, "a");
    assert_eq!(col[0].url, "bz");
    assert_eq!(col[0].dir_location, "c");
}

#[test]
fn backspace_in_first_column_removes_emptied_row() {
    let mut col = vec![project("a", "b", "c"), project("", "x", "y")];
    let mut ed = editor();
    ed.select_item(&col, 1);
    ed.select_header(&col, 0);
    ed.on_backspace(&mut col);
    assert_eq!(col.len(), 1);
    assert_eq!(ed.current_selection, Some(0));
}

#[test]
fn backspace_outside_first_column_never_removes() {
    let mut col = vec![project("a", "b", "c"), project("", "", "y")];
    let mut ed = editor();
    ed.select_item(&col, 1);
    ed.select_header(&col, 1);
    ed.on_backspace(&mut col);
    assert_eq!(col.len(), 2);
    assert_eq!(ed.current_selection, Some(1));
}

#[test]
fn down_past_last_row_appends_empty_row() {
    let mut col = vec![project("a", "b", "c")];
    let mut ed = editor();
    ed.select_item(&col, 0);
    ed.on_down(&mut col);
    assert_eq!(col.len(), 2);
    assert_eq!(ed.current_selection, Some(1));
    assert_eq!(col[1].name, "");
    assert_eq!(col[1].url, "");
    assert_eq!(col[1].dir_location, "");
}

#[test]
fn table_paste_appends_to_cell() {
    let mut col = vec![project("a", "b", "c")];
    let mut ed = editor();
    ed.select_item(&col, 0);
    ed.select_header(&col, 2);
    ed.on_paste(&mut col, "/home");
    assert_eq!(col[0].dir_location, "c/home");
}

#[test]
fn inactive_table_ignores_events() {
    let mut col = vec![project("a", "b", "c")];
    let mut ed = editor();
    ed.select_item(&col, 0);
    let key = KeyInput {
        key: code_pal::event::Key::Char('z'),
        control: false,
    };
    ed.on_event(&mut col, key);
    assert_eq!(col[0].name, "a");
}

#[test]
fn project_new_fills_columns_from_the_back() {
    // Project::new pops from the end: a single entry lands in the directory
    // column.
    let p = Project::new(vec![String::from("only")]);
    assert_eq!(p.name, "");
    assert_eq!(p.url, "");
    assert_eq!(p.dir_location, "only");
    let v = p.get_content_vector();
    assert_eq!(v, vec!["", "", "only"]);
}

#[test]
fn table_cursors_stay_valid_over_a_mixed_sequence() {
    let mut col = vec![project("a", "b", "c")];
    let mut ed = editor();
    ed.on_activate(&col);
    ed.on_down(&mut col);
    ed.on_right(&col);
    ed.on_right(&col);
    ed.on_key(&mut col, 'x');
    ed.on_backspace(&mut col);
    ed.on_left(&col);
    ed.on_left(&col);
    ed.on_backspace(&mut col);
    ed.on_backspace(&mut col);
    ed.on_up(&col);
    assert!(!col.is_empty());
    if let Some(r) = ed.current_selection {
        assert!(r < col.len());
    }
    if let Some(h) = ed.current_header_selection {
        assert!(h < 3);
    }
}

#[test]
fn project_new_takes_the_last_three_entries() {
    let p = Project::new(vec![
        String::from("extra"),
        String::from("n"),
        String::from("u"),
        String::from("d"),
    ]);
    assert_eq!(p.name, "n");
    assert_eq!(p.url, "u");
    assert_eq!(p.dir_location, "d");
    let q = Project::new(vec![String::from("u"), String::from("d")]);
    assert_eq!(q.name, "");
    assert_eq!(q.url, "u");
    assert_eq!(q.dir_location, "d");
}
