use anchor_lldb::error::HarnessError;
use anchor_lldb::resolution::TypeResolutionMap;
use anchor_lldb::resolver::{
    extract_account_struct_map, extract_from_file, field_record, has_derive_accounts_attr,
    is_rust_source, SourceFile,
};
use anchor_lldb::shapes::{AttrDecl, FieldDecl, FieldType, StructDecl};
use anchor_lldb::syntax::parse_structs;

fn file(name: &str, content: &str) -> SourceFile {
    SourceFile { name: name.to_string(), content: content.to_string() }
}

fn scan(files: Vec<SourceFile>) -> TypeResolutionMap {
    extract_account_struct_map("src", &Some(files)).unwrap()
}

#[test]
fn two_parameter_container_records_its_second_parameter() {
    let map = scan(vec![file(
        "lib.rs",
        "#[derive(Accounts)]\npub struct Ctx<'info> { pub field: Account<'info, Foo> }",
    )]);
    assert_eq!(map.get("field"), Some(&"Foo".to_string()));
}

#[test]
fn signer_container_records_signer() {
    let map = scan(vec![file(
        "lib.rs",
        "#[derive(Accounts)]\npub struct Ctx<'info> { pub field: Signer<'info> }",
    )]);
    assert_eq!(map.get("field"), Some(&"Signer".to_string()));
}

#[test]
fn a_whole_context_structure_is_read() {
    let source = "
use anchor_lang::prelude::*;

#[derive(Accounts)]
pub struct Initialize<'info> {
    #[account(mut)]
    pub payer: Signer<'info>,
    #[account(init, payer = payer, space = 8 + 8)]
    pub counter: Account<'info, state::CounterAccount>,
    pub system_program: Program<'info, System>,
    pub plain: u64,
    pub boxed: Box<Account<'info, Other>>,
    pub one: Account<'info>,
}

#[account]
pub struct CounterAccount {
    pub count: Account<'static, Hidden>,
}

#[derive(Clone, Debug)]
pub struct NotAContext<'info> {
    pub ignored: Account<'info, Ignored>,
}
";
    let map = scan(vec![file("lib.rs", source)]);
    assert_eq!(map.get("payer"), Some(&"Signer".to_string()));
    assert_eq!(map.get("counter"), Some(&"CounterAccount".to_string()));
    assert_eq!(map.get("system_program"), Some(&"System".to_string()));
    assert_eq!(map.get("plain"), None);
    assert_eq!(map.get("boxed"), None);
    assert_eq!(map.get("one"), None);
    assert_eq!(map.get("count"), None);
    assert_eq!(map.get("ignored"), None);
}

#[test]
fn parsed_structure_has_the_shape_of_its_source() {
    let decls = parse_structs(
        "#[derive(Accounts, Clone)]\n#[repr(C)]\nstruct S<'a> { a: Signer<'a>, b: x::Account<'a, y::T>, c: u8 }\nfn f() {}\nstruct U(u8);",
    )
    .unwrap();
    assert_eq!(
        decls,
        vec![
            StructDecl {
                attrs: vec![
                    AttrDecl {
                        name: Some("derive".to_string()),
                        nested: vec![Some("Accounts".to_string()), Some("Clone".to_string())],
                    },
                    AttrDecl { name: Some("repr".to_string()), nested: vec![Some("C".to_string())] },
                ],
                fields: vec![
                    FieldDecl {
                        name: Some("a".to_string()),
                        ty: Some(FieldType { wrapper: "Signer".to_string(), arguments: Some(vec![None]) }),
                    },
                    FieldDecl {
                        name: Some("b".to_string()),
                        ty: Some(FieldType {
                            wrapper: "Account".to_string(),
                            arguments: Some(vec![None, Some("T".to_string())]),
                        }),
                    },
                    FieldDecl {
                        name: Some("c".to_string()),
                        ty: Some(FieldType { wrapper: "u8".to_string(), arguments: None }),
                    },
                ],
            },
            StructDecl { attrs: vec![], fields: vec![] },
        ]
    );
    assert_eq!(parse_structs("struct {"), None);
}

#[test]
fn marker_is_a_derive_that_lists_accounts() {
    let derive = |names: Vec<&str>| AttrDecl {
        name: Some("derive".to_string()),
        nested: names.into_iter().map(|n| Some(n.to_string())).collect(),
    };
    assert!(has_derive_accounts_attr(&vec![derive(vec!["Clone", "Accounts"])]));
    assert!(has_derive_accounts_attr(&vec![derive(vec!["Clone"]), derive(vec!["Accounts"])]));
    assert!(!has_derive_accounts_attr(&vec![derive(vec!["Clone", "Account"])]));
    assert!(!has_derive_accounts_attr(&vec![]));
    assert!(!has_derive_accounts_attr(&vec![AttrDecl {
        name: Some("account".to_string()),
        nested: vec![Some("Accounts".to_string())],
    }]));
    assert!(!has_derive_accounts_attr(&vec![AttrDecl {
        name: None,
        nested: vec![Some("Accounts".to_string())],
    }]));
}

fn field(name: &str, wrapper: &str, arguments: Option<Vec<Option<&str>>>) -> FieldDecl {
    FieldDecl {
        name: Some(name.to_string()),
        ty: Some(FieldType {
            wrapper: wrapper.to_string(),
            arguments: arguments.map(|l| l.into_iter().map(|a| a.map(|s| s.to_string())).collect()),
        }),
    }
}

#[test]
fn field_record_follows_the_container() {
    let pair = |a: &str, b: &str| Some((a.to_string(), b.to_string()));
    assert_eq!(field_record(&field("f", "Account", Some(vec![None, Some("Foo")]))), pair("f", "Foo"));
    assert_eq!(field_record(&field("f", "Program", Some(vec![None, Some("System")]))), pair("f", "System"));
    assert_eq!(field_record(&field("f", "Signer", Some(vec![None]))), pair("f", "Signer"));
    assert_eq!(field_record(&field("f", "Signer", Some(vec![None, Some("X")]))), None);
    assert_eq!(field_record(&field("f", "Signer", None)), None);
    assert_eq!(field_record(&field("f", "Account", Some(vec![None]))), None);
    assert_eq!(field_record(&field("f", "Account", Some(vec![None, None]))), None);
    assert_eq!(field_record(&field("f", "Account", Some(vec![None, Some("A"), Some("B")]))), None);
    assert_eq!(field_record(&field("f", "Other", Some(vec![None, Some("Foo")]))), None);
    assert_eq!(field_record(&FieldDecl { name: Some("f".to_string()), ty: None }), None);
    assert_eq!(
        field_record(&FieldDecl {
            name: None,
            ty: Some(FieldType { wrapper: "Signer".to_string(), arguments: Some(vec![None]) }),
        }),
        None
    );
}

#[test]
fn extraction_adds_to_what_the_map_holds() {
    let mut map = TypeResolutionMap::new();
    map.insert("kept".to_string(), "Kept".to_string());
    map.insert("f".to_string(), "Old".to_string());
    let marked = StructDecl {
        attrs: vec![AttrDecl {
            name: Some("derive".to_string()),
            nested: vec![Some("Accounts".to_string())],
        }],
        fields: vec![field("f", "Account", Some(vec![None, Some("New")]))],
    };
    let unmarked =
        StructDecl { attrs: vec![], fields: vec![field("g", "Account", Some(vec![None, Some("G")]))] };
    extract_from_file(&vec![marked, unmarked], &mut map);
    assert_eq!(map.get("kept"), Some(&"Kept".to_string()));
    assert_eq!(map.get("f"), Some(&"New".to_string()));
    assert_eq!(map.get("g"), None);
}

#[test]
fn later_file_wins_on_the_same_field_name() {
    let first = "#[derive(Accounts)] struct A<'i> { vault: Account<'i, First> }";
    let second = "#[derive(Accounts)] struct B<'i> { vault: Account<'i, Second> }";
    let map = scan(vec![file("a.rs", first), file("b.rs", second)]);
    assert_eq!(map.get("vault"), Some(&"Second".to_string()));
    let map = scan(vec![file("b.rs", second), file("a.rs", first)]);
    assert_eq!(map.get("vault"), Some(&"First".to_string()));
}

#[test]
fn only_rust_sources_are_read() {
    let source = "#[derive(Accounts)] struct A<'i> { vault: Account<'i, V> }";
    assert_eq!(scan(vec![file("a.txt", source)]).get("vault"), None);
    assert_eq!(scan(vec![file(".rs", source)]).get("vault"), None);
    assert_eq!(scan(vec![file("rs", source)]).get("vault"), None);
    assert_eq!(scan(vec![file("a.rs", source)]).get("vault"), Some(&"V".to_string()));
    assert!(is_rust_source("lib.rs"));
    assert!(is_rust_source("..rs"));
    assert!(!is_rust_source("lib.rs.bak"));
    assert!(!is_rust_source("librs"));
    assert!(!is_rust_source(""));
}

#[test]
fn a_file_that_does_not_parse_records_nothing() {
    let good = "#[derive(Accounts)] struct A<'i> { vault: Account<'i, V> }";
    let map = scan(vec![file("a.rs", good), file("broken.rs", "struct {{{")]);
    assert_eq!(map.get("vault"), Some(&"V".to_string()));
}

#[test]
fn empty_scan_gives_the_empty_map() {
    let map = scan(vec![]);
    assert_eq!(map.get("anything"), None);
}

#[test]
fn missing_scan_root_is_a_scan_error() {
    let result = extract_account_struct_map("programs/p/src", &None);
    assert!(matches!(result, Err(HarnessError::SourceScan { ref path }) if path == "programs/p/src"));
}
