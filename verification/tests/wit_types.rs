use astrid_sdk::wit_types::{definition_text, module_layout, type_decl, type_text, DeclKind, WitCase, WitField, WitModel, WitType, WitTypeDef, WitTypeKind};

fn def(name: Option<&str>, kind: WitTypeKind, interface: Option<usize>) -> WitTypeDef {
    WitTypeDef { name: name.map(String::from), kind, interface, docs: None }
}

fn text(v: (Vec<char>, bool)) -> (String, bool) {
    (v.0.into_iter().collect(), v.1)
}

fn sample() -> WitModel {
    WitModel {
        interfaces: vec![Some("llm-types".into()), Some("agent".into()), None],
        types: vec![
            /* 0 */ def(Some("message"), WitTypeKind::Record(vec![
                WitField { name: "tool-call-id".into(), ty: WitType::String, docs: Some("  The id. ".into()) },
                WitField { name: "count".into(), ty: WitType::U32, docs: Some("   ".into()) },
            ]), Some(0)),
            /* 1 */ def(None, WitTypeKind::Option(WitType::Id(0)), Some(1)),
            /* 2 */ def(None, WitTypeKind::Option(WitType::Id(1)), Some(1)),
            /* 3 */ def(None, WitTypeKind::List(WitType::U8), Some(1)),
            /* 4 */ def(None, WitTypeKind::Tuple(vec![WitType::String, WitType::Id(3), WitType::F64]), Some(1)),
            /* 5 */ def(Some("role"), WitTypeKind::Enum(vec![
                WitCase { name: "user-input".into(), ty: None, docs: None },
            ]), Some(1)),
            /* 6 */ def(Some("perms"), WitTypeKind::Flags(vec![
                WitCase { name: "read".into(), ty: None, docs: None },
            ]), None),
            /* 7 */ def(Some("event"), WitTypeKind::Variant(vec![
                WitCase { name: "text-delta".into(), ty: Some(WitType::String), docs: None },
                WitCase { name: "done".into(), ty: None, docs: None },
            ]), Some(2)),
            /* 8 */ def(Some("handle"), WitTypeKind::Other, Some(1)),
            /* 9 */ def(Some("alias"), WitTypeKind::Alias(WitType::Id(0)), Some(1)),
        ],
    }
}

#[test]
fn primitive_and_compound_types() {
    let m = sample();
    assert_eq!(text(type_text(&m, WitType::S64, 0)), ("i64".to_string(), false));
    assert_eq!(text(type_text(&m, WitType::ErrorContext, 0)), ("String".to_string(), false));
    assert_eq!(text(definition_text(&m, 0)), ("super::llm_types::Message".to_string(), false));
    assert_eq!(text(definition_text(&m, 1)), ("super::llm_types::Message".to_string(), true));
    assert_eq!(text(definition_text(&m, 2)), ("Option<super::llm_types::Message>".to_string(), true));
    assert_eq!(text(definition_text(&m, 3)), ("Vec<u8>".to_string(), false));
    assert_eq!(text(definition_text(&m, 4)), ("(String, Vec<u8>, f64)".to_string(), false));
    assert_eq!(text(definition_text(&m, 7)), ("Event".to_string(), false));
    assert_eq!(text(definition_text(&m, 8)), ("::serde_json::Value".to_string(), false));
    assert_eq!(text(definition_text(&m, 9)), ("super::llm_types::Message".to_string(), false));
    assert_eq!(text(type_text(&m, WitType::Id(5), 5)), ("::serde_json::Value".to_string(), false));
}

#[test]
fn declarations_of_named_types() {
    let m = sample();
    let rec = type_decl(&m, 0).unwrap();
    assert_eq!(rec.kind, DeclKind::Struct);
    assert_eq!(rec.name, "Message");
    assert_eq!(rec.fields[0].name, "tool_call_id");
    assert_eq!(rec.fields[0].ty, "String");
    assert_eq!(rec.fields[0].doc.as_deref(), Some("The id."));
    assert_eq!(rec.fields[1].doc, None);
    let flags = type_decl(&m, 6).unwrap();
    assert_eq!(flags.kind, DeclKind::Flags);
    assert_eq!(flags.enum_name, "PermsFlag");
    let var = type_decl(&m, 7).unwrap();
    assert_eq!(var.cases[0].name, "TextDelta");
    assert_eq!(var.cases[0].payload.as_deref(), Some("String"));
    assert_eq!(var.cases[1].payload, None);
    assert_eq!(type_decl(&m, 5).unwrap().cases[0].name, "UserInput");
    assert!(type_decl(&m, 1).is_none());
    assert!(type_decl(&m, 8).is_none());
    assert!(type_decl(&m, 9).is_none());
}

#[test]
fn modules_sorted_by_interface() {
    let m = sample();
    let layout = module_layout(&m);
    assert_eq!(layout.orphans, vec![6]);
    let names: Vec<&str> = layout.modules.iter().map(|g| g.interface.as_str()).collect();
    assert_eq!(names, vec!["agent", "anon", "llm-types"]);
    assert_eq!(layout.modules[0].types, vec![5]);
    assert_eq!(layout.modules[1].types, vec![7]);
    assert_eq!(layout.modules[2].module, "llm_types");
    assert_eq!(layout.modules[2].types, vec![0]);
}
