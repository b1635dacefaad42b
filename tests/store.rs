use rstodo::text::{confirms, index_from_input, is_refusal};
use rstodo::{Command, StoreError, Todo, TodoElements};
use serde_json::Value;

fn strings(v: &[&str]) -> Vec<String> {
    v.iter().map(|s| s.to_string()).collect()
}

fn store(todo: &[&str], done: &[&str], note: &[&str]) -> Todo {
    Todo::from_lists(strings(todo), strings(done), strings(note))
}

fn list_value(v: &Vec<String>) -> Value {
    Value::Array(v.iter().map(|s| Value::String(s.clone())).collect())
}

fn to_json(t: &Todo) -> Value {
    let mut m = serde_json::Map::new();
    m.insert("todo".to_string(), list_value(t.pending()));
    m.insert("done".to_string(), list_value(t.completed()));
    m.insert("note".to_string(), list_value(t.notes()));
    Value::Object(m)
}

fn list_of(v: &Value, key: &str) -> Vec<String> {
    v[key]
        .as_array()
        .unwrap()
        .iter()
        .map(|s| s.as_str().unwrap().to_string())
        .collect()
}

fn from_json(text: &str) -> Todo {
    let v: Value = serde_json::from_str(text).unwrap();
    Todo::from_lists(list_of(&v, "todo"), list_of(&v, "done"), list_of(&v, "note"))
}

#[test]
fn add_task_twice_keeps_one() {
    let mut t = store(&["Wash dog"], &[], &[]);
    assert!(t.handle_todo("Wash car".to_string()));
    assert!(!t.handle_todo("Wash car".to_string()));
    assert_eq!(t.pending(), &strings(&["Wash dog", "Wash car"]));
}

#[test]
fn add_task_trims_before_dedup() {
    let mut t = store(&["Wash car"], &[], &[]);
    assert!(!t.handle_todo("  Wash car \n".to_string()));
    assert!(t.handle_todo("  Feed cat\t".to_string()));
    assert_eq!(t.pending(), &strings(&["Wash car", "Feed cat"]));
}

#[test]
fn add_note_twice_keeps_one() {
    let mut t = Todo::new();
    assert!(t.handle_note(" buy milk ".to_string()));
    assert!(!t.handle_note("buy milk".to_string()));
    assert_eq!(t.notes(), &strings(&["buy milk"]));
    assert!(t.pending().is_empty());
}

#[test]
fn blank_entries_are_ignored() {
    let mut t = store(&["a"], &[], &["b"]);
    assert!(!t.handle_todo(String::new()));
    assert!(!t.handle_todo("   \t\n".to_string()));
    assert!(!t.handle_note(String::new()));
    assert!(!t.handle_note(" \r\n ".to_string()));
    assert_eq!(t.pending(), &strings(&["a"]));
    assert_eq!(t.notes(), &strings(&["b"]));
}

#[test]
fn complete_moves_entry() {
    let mut t = store(&["a", "b", "c"], &["x"], &[]);
    assert_eq!(t.handle_done(1), Ok("b".to_string()));
    assert_eq!(t.pending(), &strings(&["a", "c"]));
    assert_eq!(t.completed(), &strings(&["x", "b"]));
    assert_eq!(t.pending().len() + t.completed().len(), 4);
}

#[test]
fn complete_out_of_range_changes_nothing() {
    let mut t = store(&["a", "b"], &["x"], &[]);
    assert_eq!(t.handle_done(2), Err(StoreError::IndexOutOfRange { index: 2, len: 2 }));
    assert_eq!(t.pending(), &strings(&["a", "b"]));
    assert_eq!(t.completed(), &strings(&["x"]));
    let mut e = Todo::new();
    assert_eq!(e.handle_done(0), Err(StoreError::IndexOutOfRange { index: 0, len: 0 }));
}

#[test]
fn clear_refused_with_n() {
    let mut t = store(&["a"], &["b"], &["c"]);
    assert!(!t.handle_clear_todo("n"));
    assert!(!t.handle_clear_done("N\n"));
    assert!(!t.handle_clear_note("  n  "));
    assert_eq!(t.pending(), &strings(&["a"]));
    assert_eq!(t.completed(), &strings(&["b"]));
    assert_eq!(t.notes(), &strings(&["c"]));
}

#[test]
fn clear_on_other_answers() {
    let mut t = store(&["a"], &["b"], &["c"]);
    assert!(t.handle_clear_todo(""));
    assert!(t.handle_clear_done("y"));
    assert!(t.handle_clear_note("no"));
    assert!(t.pending().is_empty());
    assert!(t.completed().is_empty());
    assert!(t.notes().is_empty());
}

#[test]
fn clear_all_answers_each_list() {
    let mut t = store(&["a"], &["b"], &["c"]);
    assert_eq!(t.handle_clear_all("\n", "n", "Y"), (true, false, true));
    assert!(t.pending().is_empty());
    assert_eq!(t.completed(), &strings(&["b"]));
    assert!(t.notes().is_empty());
}

#[test]
fn add_task_scenario() {
    let mut t = from_json(r#"{"todo":["Wash dog"],"done":[],"note":[]}"#);
    t.handle_todo("Wash car".to_string());
    let expected: Value =
        serde_json::from_str(r#"{"todo":["Wash dog","Wash car"],"done":[],"note":[]}"#).unwrap();
    assert_eq!(to_json(&t), expected);
}

#[test]
fn complete_scenario() {
    let mut t = from_json(r#"{"todo":["Wash dog","Wash car"],"done":[],"note":[]}"#);
    assert_eq!(t.handle_done(0), Ok("Wash dog".to_string()));
    let expected: Value =
        serde_json::from_str(r#"{"todo":["Wash car"],"done":["Wash dog"],"note":[]}"#).unwrap();
    assert_eq!(to_json(&t), expected);
}

#[test]
fn show_empty_todo_prints_nothing() {
    let t = store(&[], &["x"], &["y"]);
    assert!(t.handle_show_todo().is_empty());
    assert!(t.handle_show(TodoElements::Todo).is_empty());
}

#[test]
fn show_numbers_from_zero() {
    let t = store(&["Wash dog", "Wash car"], &[], &[]);
    assert_eq!(
        t.handle_show_todo(),
        strings(&["-- TODO --", "   0. Wash dog", "   1. Wash car"])
    );
}

#[test]
fn show_all_skips_empty_lists() {
    let mut items: Vec<String> = Vec::new();
    for i in 0..12 {
        items.push(format!("n{}", i));
    }
    let t = Todo::from_lists(Vec::new(), strings(&["d"]), items);
    let lines = t.handle_show_all();
    assert_eq!(lines.len(), 2 + 1 + 12);
    assert_eq!(lines[0], "-- DONE --");
    assert_eq!(lines[1], "   0. d");
    assert_eq!(lines[2], "-- NOTE --");
    assert_eq!(lines[13], "   10. n10");
    assert_eq!(t.handle_show(TodoElements::All), lines);
    assert_eq!(t.handle_show(TodoElements::Note)[0], "-- NOTE --");
    assert_eq!(t.handle_show(TodoElements::Done), strings(&["-- DONE --", "   0. d"]));
}

#[test]
fn round_trip_keeps_lists() {
    let t = store(&["b", "a"], &["z", "z"], &["n"]);
    let text = serde_json::to_string_pretty(&to_json(&t)).unwrap();
    let back = from_json(&text);
    assert_eq!(back.pending(), t.pending());
    assert_eq!(back.completed(), t.completed());
    assert_eq!(back.notes(), t.notes());
}

#[test]
fn index_from_typed_answer() {
    assert_eq!(index_from_input("2\n"), 2);
    assert_eq!(index_from_input("  +17 "), 17);
    assert_eq!(index_from_input(""), 0);
    assert_eq!(index_from_input("abc"), 0);
    assert_eq!(index_from_input("-1"), 0);
    assert_eq!(index_from_input("99999999999999999999999999"), 0);
}

#[test]
fn refusal_answers() {
    assert!(is_refusal("n"));
    assert!(is_refusal("N"));
    assert!(!is_refusal("no"));
    assert!(!is_refusal(""));
    assert!(!confirms(" N "));
    assert!(confirms(""));
    assert!(confirms("yes"));
}

#[test]
fn selector_defaults_to_all() {
    assert_eq!(TodoElements::selected(None), TodoElements::All);
    assert_eq!(TodoElements::selected(Some(TodoElements::Done)), TodoElements::Done);
    assert_eq!(TodoElements::default(), TodoElements::All);
}

#[test]
fn only_show_skips_saving() {
    assert!(!Command::Show { subcommand: None }.persists());
    assert!(Command::Todo { item: "x".to_string() }.persists());
    assert!(Command::Done { item: None }.persists());
    assert!(Command::Clear { subcommand: Some(TodoElements::All) }.persists());
}

#[test]
fn unicode_white_space_is_trimmed() {
    let mut t = Todo::new();
    assert!(t.handle_todo("\u{3000}Wash\u{A0}\u{2003}\u{85}".to_string()));
    assert!(!t.handle_todo("\u{2028}Wash\n".to_string()));
    assert!(t.handle_todo("\u{200B}Wash".to_string()));
    assert!(!t.handle_todo("\u{1680}\u{202F}\u{205F}".to_string()));
    assert_eq!(t.pending(), &strings(&["Wash", "\u{200B}Wash"]));
}

#[test]
fn refusal_with_line_break() {
    let mut t = store(&["a"], &["b"], &["c"]);
    assert!(!t.handle_clear_todo("n\n"));
    assert_eq!(t.handle_clear_all("n\n", "N\r\n", "\tn\n"), (false, false, false));
    assert_eq!(t.pending(), &strings(&["a"]));
    assert_eq!(t.completed(), &strings(&["b"]));
    assert_eq!(t.notes(), &strings(&["c"]));
}
