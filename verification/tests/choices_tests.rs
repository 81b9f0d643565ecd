use control_sync::choices::{is_entry, keep_known, split_entries};

#[test]
fn lines_become_entries() {
    assert_eq!(split_entries("light\ndark\nauto\n"), vec!["light", "dark", "auto"]);
}

#[test]
fn empty_lines_are_left_out() {
    assert_eq!(split_entries("\n\nA\n\nB\n\n\nC"), vec!["A", "B", "C"]);
}

#[test]
fn text_without_line_break_is_one_entry() {
    assert_eq!(split_entries("only"), vec!["only"]);
}

#[test]
fn empty_text_has_no_entries() {
    assert_eq!(split_entries(""), Vec::<String>::new());
    assert_eq!(split_entries("\n"), Vec::<String>::new());
    assert_eq!(split_entries("\n\n\n"), Vec::<String>::new());
}

#[test]
fn other_white_space_is_kept() {
    assert_eq!(split_entries(" a \r\n\tb"), vec![" a \r", "\tb"]);
}

#[test]
fn entries_are_cut_by_characters_not_bytes() {
    assert_eq!(split_entries("caf\u{e9}\n\u{65e5}\u{672c}\n"), vec!["caf\u{e9}", "\u{65e5}\u{672c}"]);
}

#[test]
fn entry_is_found_by_its_whole_text() {
    let entries = split_entries("light\ndark\n");
    assert!(is_entry(&entries, &String::from("dark")));
    assert!(is_entry(&entries, &String::from("light")));
    assert!(!is_entry(&entries, &String::from("dar")));
    assert!(!is_entry(&entries, &String::from("dark ")));
    assert!(!is_entry(&entries, &String::new()));
    assert!(!is_entry(&Vec::new(), &String::from("dark")));
}

#[test]
fn unknown_selection_is_no_selection() {
    let entries = split_entries("light\ndark\n");
    assert_eq!(keep_known(&entries, Some(String::from("dark"))), Some(String::from("dark")));
    assert_eq!(keep_known(&entries, Some(String::from("neon"))), None);
    assert_eq!(keep_known(&entries, None), None);
}
