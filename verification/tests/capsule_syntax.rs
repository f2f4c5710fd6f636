use astrid_sdk::capsule::{ArgKind, ArmKind, ErrorSpan};
use astrid_sdk::capsule_syntax::{capsule_description, method_infos, parse_impl_block, plan_capsule_text, state_attr};

#[test]
fn method_descriptions_are_read_from_source() {
    let src = r#"
        /// Core filesystem tools.
        impl FsTools {
            /// Read a file.
            #[astrid::tool("read_file")]
            fn read_file(&self, args: ReadArgs) -> Result<String, Error> { todo!() }

            #[astrid::tool(mutable)]
            #[inline]
            fn write_file(&mut self) -> Result<(), Error> { todo!() }

            #[astrid::upgrade]
            fn upgrade(&self, prev_version: &str) -> Result<(), SysError> { todo!() }

            const X: u32 = 1;
        }
    "#;
    let syntax = parse_impl_block(src).unwrap();
    assert_eq!(capsule_description(&syntax).as_deref(), Some("Core filesystem tools."));
    let infos = method_infos(&syntax);
    assert_eq!(infos.len(), 3);
    assert_eq!(infos[0].name, "read_file");
    assert_eq!(infos[0].arg, ArgKind::Other);
    assert!(!infos[0].mut_receiver);
    assert_eq!(infos[0].attrs.len(), 1);
    assert_eq!(infos[0].attrs[0].kind, "tool");
    assert_eq!(infos[0].attrs[0].name.as_deref(), Some("read_file"));
    assert!(!infos[0].attrs[0].mutable);
    assert_eq!(infos[0].description.as_deref(), Some("Read a file."));
    assert_eq!(infos[1].arg, ArgKind::NoArg);
    assert!(infos[1].mut_receiver);
    assert_eq!(infos[1].attrs.len(), 1);
    assert_eq!(infos[1].attrs[0].name, None);
    assert!(infos[1].attrs[0].mutable);
    assert_eq!(infos[1].description, None);
    assert_eq!(infos[2].arg, ArgKind::RefStr);
}

#[test]
fn capsule_state_attribute() {
    assert!(state_attr("state"));
    assert!(!state_attr(""));
    assert!(!state_attr("stateless"));
    assert!(!state_attr("state, x"));
}

#[test]
fn plan_from_source_text() {
    let p = plan_capsule_text(
        "",
        r#"impl MyCapsule {
            #[astrid::tool("write_file", mutable)]
            fn write_file(&self, args: WriteArgs) -> Result<WriteResult, Error> { todo!() }
            #[astrid::tool]
            fn search(&self, args: SearchArgs) -> Result<SearchResult, Error> { todo!() }
        }"#,
    )
    .unwrap();
    assert!(!p.stateful);
    assert_eq!(p.tools[0].name, "write_file");
    assert!(p.tools[0].mutable);
    assert_eq!(p.tools[1].name, "search");
    assert!(!p.tools[1].mutable);
    let actions: Vec<&str> = p.arms.iter().map(|a| a.action.as_str()).collect();
    assert_eq!(actions, vec!["tool_execute_write_file", "tool_execute_search", "tool_describe"]);
    assert_eq!(p.arms[2].kind, ArmKind::ToolDescribe);
}

#[test]
fn plan_from_source_text_with_state() {
    let p = plan_capsule_text(
        "state",
        "impl MyCapsule { #[astrid::install] fn install(&self) -> Result<(), SysError> { todo!() } }",
    )
    .unwrap();
    assert!(p.stateful);
    assert_eq!(p.install.as_deref(), Some("install"));
}

#[test]
fn upgrade_with_string_from_source_is_refused() {
    let e = plan_capsule_text(
        "",
        "impl MyCapsule { #[astrid::upgrade] fn upgrade(&self, prev_version: String) -> Result<(), SysError> { todo!() } }",
    )
    .unwrap_err();
    assert_eq!(e.message, "#[astrid::upgrade] must have signature: fn(&self, prev_version: &str) -> Result<(), SysError>");
    assert_eq!(e.span, ErrorSpan::Signature);
}

#[test]
fn text_that_is_not_an_impl_block_is_refused() {
    let e = plan_capsule_text("", "fn not_an_impl() {}").unwrap_err();
    assert_eq!(e.span, ErrorSpan::Item);
    assert!(!e.message.is_empty());
}
