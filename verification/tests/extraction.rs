use dependency_remover::compare::{contains_name, missing_names};
use dependency_remover::manifest::{extract_dependencies, ENTRY_PATTERN, SECTION_PATTERN};
use dependency_remover::pattern::{find_first, find_matches, present_groups};
use dependency_remover::source::{
    has_source_extension, is_source_file, read_js_files_in_dir, scan_imports, trim,
    DirectoryEntry, IMPORT_PATTERN,
};
use dependency_remover::ScanError;

fn names(list: &[&str]) -> Vec<String> {
    list.iter().map(|name| name.to_string()).collect()
}

fn file(name: &str, content: &str) -> DirectoryEntry {
    DirectoryEntry { name: name.to_string(), is_directory: false, content: content.to_string() }
}

fn directory(name: &str, content: &str) -> DirectoryEntry {
    DirectoryEntry { name: name.to_string(), is_directory: true, content: content.to_string() }
}

#[test]
fn should_read_js_files_content() {
    let files = vec![file("main.js", "\n            import * from vimbtw")];
    let js_contents = read_js_files_in_dir(&files);
    assert_eq!(js_contents, vec!["import * from vimbtw"]);
}

#[test]
fn extracts_names_in_manifest_order() {
    let manifest = r#"{"dependencies": {"left-pad": "1.0.0", "react": "18.0.0"}}"#;
    assert_eq!(extract_dependencies(manifest), Ok(names(&["left-pad", "react"])));
}

#[test]
fn manifest_without_a_section_declares_nothing() {
    assert_eq!(extract_dependencies(r#"{"name": "x", "version": "1.0.0"}"#), Ok(Vec::new()));
    assert_eq!(extract_dependencies(""), Ok(Vec::new()));
    assert_eq!(extract_dependencies(r#"{"peerDependencies": {"a": "1"}}"#), Ok(Vec::new()));
}

#[test]
fn empty_section_declares_nothing() {
    assert_eq!(extract_dependencies(r#"{"dependencies": {}}"#), Ok(Vec::new()));
}

#[test]
fn dev_dependencies_are_a_section_too() {
    let manifest = r#"{"devDependencies": {"jest": "^29.0.0"}}"#;
    assert_eq!(extract_dependencies(manifest), Ok(names(&["jest"])));
}

#[test]
fn only_the_first_section_is_read() {
    let manifest = r#"{
        "dependencies": {"react": "18.0.0"},
        "devDependencies": {"jest": "29.0.0"}
    }"#;
    assert_eq!(extract_dependencies(manifest), Ok(names(&["react"])));
    let reversed = r#"{
        "devDependencies": {"jest": "29.0.0"},
        "dependencies": {"react": "18.0.0"}
    }"#;
    assert_eq!(extract_dependencies(reversed), Ok(names(&["jest"])));
}

#[test]
fn duplicate_names_are_kept() {
    let manifest = r#"{"dependencies": {"a": "1", "b": "2", "a": "3"}}"#;
    assert_eq!(extract_dependencies(manifest), Ok(names(&["a", "b", "a"])));
}

#[test]
fn versions_are_not_validated() {
    let manifest = "{\"dependencies\" : {\n  \"a\" :\"not a version\",\n  \"b\":  \"*\"\n}}";
    assert_eq!(extract_dependencies(manifest), Ok(names(&["a", "b"])));
}

#[test]
fn section_body_ends_at_the_first_closing_brace() {
    let manifest = r#"{"dependencies": {"a": "1", "nested": {"b": "2"}, "c": "3"}}"#;
    assert_eq!(extract_dependencies(manifest), Ok(names(&["a", "b"])));
}

#[test]
fn find_first_gives_the_group_of_the_leftmost_match() {
    assert_eq!(find_first("b(.)", "abcabd"), Ok(Some("c".to_string())));
    assert_eq!(find_first("b(.)", "xyz"), Ok(None));
    assert_eq!(find_first(SECTION_PATTERN, r#""dependencies":{ x }"#), Ok(Some(" x ".to_string())));
}

#[test]
fn find_first_without_the_group_is_none() {
    assert_eq!(find_first("a(b)?", "ac"), Ok(None));
    assert_eq!(find_first("a", "a"), Ok(None));
}

#[test]
fn find_matches_gives_the_group_of_each_match() {
    assert_eq!(find_matches("b(.)", "abcabd b"), Ok(names(&["c", "d"])));
    assert_eq!(find_matches("b(.)", "xyz"), Ok(Vec::new()));
    assert_eq!(find_matches(ENTRY_PATTERN, r#""a": "1", "b" : "2""#), Ok(names(&["a", "b"])));
}

#[test]
fn find_matches_passes_over_a_match_without_the_group() {
    assert_eq!(find_matches("a(b)?", "ab a ab"), Ok(names(&["b", "b"])));
    assert_eq!(find_matches("a", "aaa"), Ok(Vec::new()));
}

#[test]
fn a_refused_expression_is_an_error() {
    assert_eq!(find_matches("(", "text"), Err(ScanError::Pattern));
    assert_eq!(find_first("[a", "text"), Err(ScanError::Pattern));
}

#[test]
fn present_groups_drops_the_absent() {
    let groups = vec![None, Some("a".to_string()), None, Some("b".to_string()), Some(String::new())];
    assert_eq!(present_groups(groups), vec!["a", "b", ""]);
    assert_eq!(present_groups(vec![None, None]), Vec::<String>::new());
    assert_eq!(present_groups(Vec::new()), Vec::<String>::new());
}

#[test]
fn imports_with_either_quote() {
    let texts = names(&["import a from 'one';\nimport { b, c } from \"two\";\nimport * as d from 'three/sub';"]);
    assert_eq!(scan_imports(&texts), Ok(names(&["one", "two", "three/sub"])));
}

#[test]
fn imports_need_the_semicolon_and_the_bindings() {
    let texts = names(&["import a from 'one'\nimport 'two';\nconst x = require('three');"]);
    assert_eq!(scan_imports(&texts), Ok(Vec::new()));
    assert_eq!(find_matches(IMPORT_PATTERN, "import a from 'one';"), Ok(names(&["one"])));
}

#[test]
fn imports_of_several_texts_follow_each_other() {
    let texts = names(&["import a from 'x';import b from 'y';", "", "no import", "import c from 'x';"]);
    assert_eq!(scan_imports(&texts), Ok(names(&["x", "y", "x"])));
    assert_eq!(scan_imports(&Vec::new()), Ok(Vec::new()));
}

#[test]
fn read_js_files_keeps_source_files_in_order() {
    let files = vec![
        file("b.js", "  second \n"),
        file("notes.txt", "not read"),
        file("a.js", "\tfirst"),
        directory("dir", ""),
        directory("lib.js", "import x from 'y';"),
        file("c.js", "   "),
    ];
    assert_eq!(read_js_files_in_dir(&files), vec!["second", "first", ""]);
    assert_eq!(read_js_files_in_dir(&Vec::new()), Vec::<String>::new());
}

#[test]
fn source_extension() {
    for name in ["a.js", "index.js", "a.b.js", "..js", "é.js", ".a.js"] {
        assert!(has_source_extension(name), "{name}");
    }
    for name in ["", "js", ".js", "a.JS", "a.jsx", "a.js.map", "a.ts", "ajs", "a.js ", "a."] {
        assert!(!has_source_extension(name), "{name}");
    }
}

#[test]
fn a_source_file_is_no_directory() {
    assert!(is_source_file("main.js", false));
    assert!(!is_source_file("main.js", true));
    assert!(!is_source_file("main.ts", false));
    assert!(!is_source_file("lib", true));
}

#[test]
fn sub_directories_are_passed_over() {
    let files = vec![directory("lib.js", "import x from 'y';"), file("main.js", "import z from 'w';")];
    assert_eq!(read_js_files_in_dir(&files), vec!["import z from 'w';"]);
}

#[test]
fn an_accepted_expression_never_fails() {
    for text in [
        "import x from \"test-dependency\";",
        "import a from 'one';\nimport b from \"two\";\nimport c from 'one';",
        "import * from test-dependency",
        "const x = 1;",
        "",
    ] {
        assert!(find_matches(IMPORT_PATTERN, text).is_ok());
        assert!(find_first(IMPORT_PATTERN, text).is_ok());
        assert!(find_matches("(", text).is_err());
        assert!(find_first("(", text).is_err());
    }
    let found = find_matches(IMPORT_PATTERN, "import a from 'one';\nimport b from \"two\";\nimport c from 'one';");
    assert_eq!(found, Ok(names(&["one", "two", "one"])));
    assert!(find_matches(SECTION_PATTERN, "").is_ok());
    assert!(find_matches(ENTRY_PATTERN, "").is_ok());
}

#[test]
fn trim_removes_surrounding_white_space_only() {
    assert_eq!(trim("  a b  "), "a b");
    assert_eq!(trim("\n\t\r a\u{a0}b \u{2003}\u{3000}\n"), "a\u{a0}b");
    assert_eq!(trim("none"), "none");
    assert_eq!(trim("x "), "x");
    assert_eq!(trim(" x"), "x");
    assert_eq!(trim(" \n\t "), "");
    assert_eq!(trim(""), "");
    assert_eq!(trim(" é ü "), "é ü");
    for text in ["", " ", "  a b  ", "\u{85}x\u{1680}", "_ \u{200b} _", "\u{feff}a "] {
        assert_eq!(trim(text), text.trim());
    }
}

#[test]
fn contains_name_compares_whole_names() {
    let list = names(&["react", "left-pad", ""]);
    assert!(contains_name(&list, &"left-pad".to_string()));
    assert!(contains_name(&list, &String::new()));
    assert!(!contains_name(&list, &"left".to_string()));
    assert!(!contains_name(&list, &"React".to_string()));
    assert!(!contains_name(&Vec::new(), &"react".to_string()));
}

#[test]
fn missing_names_leaves_its_arguments() {
    let declared = names(&["a", "b", "c"]);
    let imported = names(&["b"]);
    assert_eq!(missing_names(&declared, &imported), vec!["a", "c"]);
    assert_eq!(declared, vec!["a", "b", "c"]);
}
