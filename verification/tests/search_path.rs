use script_runner::search_path::{setup_script, OrderPolicy};

fn paths(entries: &[&str]) -> Vec<String> {
    entries.iter().map(|entry| entry.to_string()).collect()
}

#[test]
fn no_entries_give_only_the_import() {
    assert_eq!(setup_script(&paths(&[]), OrderPolicy::Stack), "import sys\n");
    assert_eq!(setup_script(&paths(&[]), OrderPolicy::Preserve), "import sys\n");
}

#[test]
fn one_entry_is_inserted_at_the_front() {
    let expected = "import sys\nsys.path.insert(0, '/srv/py_script')\n";
    assert_eq!(setup_script(&paths(&["/srv/py_script"]), OrderPolicy::Stack), expected);
    assert_eq!(setup_script(&paths(&["/srv/py_script"]), OrderPolicy::Preserve), expected);
}

#[test]
fn stack_inserts_in_the_order_listed() {
    assert_eq!(
        setup_script(&paths(&["A", "B"]), OrderPolicy::Stack),
        "import sys\nsys.path.insert(0, 'A')\nsys.path.insert(0, 'B')\n"
    );
}

#[test]
fn preserve_inserts_last_to_first() {
    assert_eq!(
        setup_script(&paths(&["A", "B"]), OrderPolicy::Preserve),
        "import sys\nsys.path.insert(0, 'B')\nsys.path.insert(0, 'A')\n"
    );
}

#[test]
fn three_entries_under_both_policies() {
    assert_eq!(
        setup_script(&paths(&["a", "b", "c"]), OrderPolicy::Stack),
        "import sys\nsys.path.insert(0, 'a')\nsys.path.insert(0, 'b')\nsys.path.insert(0, 'c')\n"
    );
    assert_eq!(
        setup_script(&paths(&["a", "b", "c"]), OrderPolicy::Preserve),
        "import sys\nsys.path.insert(0, 'c')\nsys.path.insert(0, 'b')\nsys.path.insert(0, 'a')\n"
    );
}

#[test]
fn entries_are_written_as_literals() {
    assert_eq!(
        setup_script(&paths(&["it's\\here\n"]), OrderPolicy::Stack),
        "import sys\nsys.path.insert(0, 'it\\U00000027s\\U0000005chere\\U0000000a')\n"
    );
}

#[test]
fn an_entry_cannot_end_its_statement_early() {
    let script = setup_script(&paths(&["x')\nimport os\n#"]), OrderPolicy::Stack);
    assert_eq!(script.lines().count(), 2);
    assert!(script.is_ascii());
    assert!(script.ends_with("')\n"));
}

#[test]
fn the_same_entry_twice_is_inserted_twice() {
    assert_eq!(
        setup_script(&paths(&["A", "A"]), OrderPolicy::Preserve),
        "import sys\nsys.path.insert(0, 'A')\nsys.path.insert(0, 'A')\n"
    );
}
