use astrid_sdk::wit::{dep_dir_name, detect_dependencies, file_dependencies, file_of_package, is_wit_file, kebab_to_pascal, kebab_to_snake, load_order, package_name};

#[test]
fn case_conversions() {
    assert_eq!(kebab_to_pascal("tool-call-result"), "ToolCallResult");
    assert_eq!(kebab_to_pascal("llm"), "Llm");
    assert_eq!(kebab_to_pascal("a--b-"), "AB");
    assert_eq!(kebab_to_pascal(""), "");
    assert_eq!(kebab_to_pascal("x2-y"), "X2Y");
    assert_eq!(kebab_to_snake("tool-call-result"), "tool_call_result");
    assert_eq!(kebab_to_snake("plain"), "plain");
}

#[test]
fn use_lines_name_dependencies() {
    let src = "package astrid:llm@1.0.0;\n\ninterface llm {\n  use astrid:types/types.{message};\n    use astrid:session@0.2.0/session.{id};\r\n  // use nothing\n}\n";
    assert_eq!(file_dependencies(src), vec!["astrid:types".to_string(), "astrid:session".to_string()]);
    assert!(file_dependencies("").is_empty());
    let files = vec![
        ("llm.wit".to_string(), src.to_string()),
        ("types.wit".to_string(), "package astrid:types;\n".to_string()),
    ];
    let deps = detect_dependencies(&files);
    assert_eq!(deps.len(), 2);
    assert_eq!(deps[0].0, "llm.wit");
    assert_eq!(deps[0].1.len(), 2);
    assert_eq!(deps[1].0, "types.wit");
    assert!(deps[1].1.is_empty());
}

#[test]
fn package_declarations() {
    assert_eq!(package_name("// header\n  package astrid:llm@1.0.0;;\n").as_deref(), Some("astrid:llm"));
    assert_eq!(package_name("package astrid:types ;").as_deref(), Some("astrid:types"));
    assert_eq!(package_name("interface x {}\n"), None);
    assert_eq!(package_name("package a:b;\npackage c:d;\n").as_deref(), Some("a:b"));
}

#[test]
fn dependency_layout_helpers() {
    assert_eq!(dep_dir_name("astrid:types"), "astrid-types");
    assert_eq!(load_order(&vec![2, 0, 1, 0]), vec![1, 3, 2, 0]);
    assert!(load_order(&vec![]).is_empty());
    let pkgs = vec![
        ("a.wit".to_string(), "astrid:a".to_string()),
        ("b.wit".to_string(), "astrid:b".to_string()),
    ];
    assert_eq!(file_of_package(&pkgs, "astrid:b"), Some(1));
    assert_eq!(file_of_package(&pkgs, "astrid:c"), None);
}

#[test]
fn wit_file_extension() {
    assert!(is_wit_file("types.wit"));
    assert!(is_wit_file("a.b.wit"));
    assert!(!is_wit_file(".wit"));
    assert!(!is_wit_file("types.witx"));
    assert!(!is_wit_file("wit"));
    assert!(!is_wit_file("types.wit."));
}
