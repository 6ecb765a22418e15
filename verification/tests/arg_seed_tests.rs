use anchor_lldb::args::{arg_type_of, default_literal, DeclaredType, InstructionArgCode};
use anchor_lldb::error::HarnessError;
use anchor_lldb::schema::{AccountRef, ArgType, Argument, Entry, PdaSpec, SeedExpr, SingleAccount};
use anchor_lldb::seeds::{
    compile_seeds, plan_bumps, resolve_accounts, BumpBinding, InstructionBumpsCode, SeedCode,
};

fn arg(name: &str, ty: ArgType) -> Argument {
    Argument { name: name.to_string(), ty }
}

#[test]
fn default_literals_follow_the_table() {
    assert_eq!(default_literal(&ArgType::U8), "0u8");
    assert_eq!(default_literal(&ArgType::U64), "0u64");
    assert_eq!(default_literal(&ArgType::Bool), "false");
    assert_eq!(default_literal(&ArgType::Text), "\"test\".to_string()");
    assert_eq!(default_literal(&ArgType::PublicKey), "Pubkey::new_unique()");
    assert_eq!(default_literal(&ArgType::ByteArray(32)), "[0u8; 32]");
    assert_eq!(default_literal(&ArgType::ByteArray(0)), "[0u8; 0]");
}

#[test]
fn text_argument_always_gets_the_same_placeholder() {
    assert_eq!(default_literal(&ArgType::Text), default_literal(&ArgType::Text));
    let entry = Entry {
        name: "e".to_string(),
        accounts: vec![],
        args: vec![arg("a", ArgType::Text), arg("b", ArgType::Text)],
    };
    let code = InstructionArgCode::generate_argument_code(&entry);
    assert_eq!(
        code.args,
        vec!["let a = \"test\".to_string();".to_string(), "let b = \"test\".to_string();".to_string()]
    );
}

#[test]
fn unsupported_type_gets_a_marked_placeholder() {
    assert_eq!(
        default_literal(&ArgType::Other("I128".to_string())),
        "/* unsupported arg type: I128 */ Default::default()"
    );
}

#[test]
fn call_list_starts_with_the_context() {
    let entry = Entry {
        name: "e".to_string(),
        accounts: vec![],
        args: vec![arg("amount", ArgType::U64), arg("tag", ArgType::U8), arg("id", ArgType::ByteArray(4))],
    };
    let code = InstructionArgCode::generate_argument_code(&entry);
    assert_eq!(
        code.args,
        vec![
            "let amount = 0u64;".to_string(),
            "let tag = 0u8;".to_string(),
            "let id = [0u8; 4];".to_string(),
        ]
    );
    assert_eq!(
        code.call_args,
        vec!["ctx".to_string(), "amount".to_string(), "tag".to_string(), "id".to_string()]
    );
    let none = InstructionArgCode::generate_argument_code(&Entry {
        name: "e".to_string(),
        accounts: vec![],
        args: vec![],
    });
    assert_eq!(none.args, Vec::<String>::new());
    assert_eq!(none.call_args, vec!["ctx".to_string()]);
}

fn seeded_entry() -> Entry {
    Entry {
        name: "deposit".to_string(),
        accounts: vec![
            AccountRef::Single(SingleAccount { name: "payer".to_string(), is_signer: true, pda: None }),
            AccountRef::Single(SingleAccount {
                name: "vault".to_string(),
                is_signer: false,
                pda: Some(PdaSpec {
                    seeds: vec![
                        SeedExpr::Const(vec![1, 2, 3]),
                        SeedExpr::ArgRef("amount".to_string()),
                        SeedExpr::AccountRef("payer.key".to_string()),
                    ],
                }),
            }),
        ],
        args: vec![arg("amount", ArgType::U64)],
    }
}

#[test]
fn seeds_compile_in_order() {
    let entry = seeded_entry();
    let accounts = resolve_accounts(&entry.accounts).unwrap();
    let seeds = vec![
        SeedExpr::Const(vec![1, 2, 3]),
        SeedExpr::ArgRef("amount".to_string()),
        SeedExpr::AccountRef("payer.key".to_string()),
    ];
    let compiled = compile_seeds(&seeds, &accounts);
    assert_eq!(
        compiled,
        vec![
            SeedCode::Literal(vec![1, 2, 3]),
            SeedCode::ArgBytes("amount".to_string()),
            SeedCode::AccountKey { account: "payer".to_string(), bound: true },
        ]
    );
    assert_eq!(compiled[0].expression(), "&[1, 2, 3]");
    assert_eq!(compiled[1].expression(), "&amount.to_le_bytes()");
    assert_eq!(compiled[2].expression(), "payer.key().as_ref()");
}

#[test]
fn account_seed_outside_the_entry_dangles() {
    let entry = seeded_entry();
    let accounts = resolve_accounts(&entry.accounts).unwrap();
    let compiled = compile_seeds(&vec![SeedExpr::AccountRef("owner.key".to_string())], &accounts);
    assert_eq!(compiled, vec![SeedCode::AccountKey { account: "owner".to_string(), bound: false }]);
    assert_eq!(compiled[0].expression(), "owner.key().as_ref()");
}

#[test]
fn one_bump_field_for_each_derived_address() {
    let entry = seeded_entry();
    let accounts = resolve_accounts(&entry.accounts).unwrap();
    let plan = plan_bumps(&accounts);
    assert_eq!(
        plan,
        vec![BumpBinding {
            account: "vault".to_string(),
            seeds: vec![
                SeedCode::Literal(vec![1, 2, 3]),
                SeedCode::ArgBytes("amount".to_string()),
                SeedCode::AccountKey { account: "payer".to_string(), bound: true },
            ],
        }]
    );
    let code = InstructionBumpsCode::generate_bumps_code(&entry).unwrap();
    assert_eq!(
        code.bump_fields,
        vec!["vault: Pubkey::find_program_address(&[&[1, 2, 3], &amount.to_le_bytes(), payer.key().as_ref()], &PROGRAM_ID).1".to_string()]
    );
}

#[test]
fn address_without_seeds_has_an_empty_seed_list() {
    let entry = Entry {
        name: "e".to_string(),
        accounts: vec![AccountRef::Single(SingleAccount {
            name: "state".to_string(),
            is_signer: false,
            pda: Some(PdaSpec { seeds: vec![] }),
        })],
        args: vec![],
    };
    let code = InstructionBumpsCode::generate_bumps_code(&entry).unwrap();
    assert_eq!(
        code.bump_fields,
        vec!["state: Pubkey::find_program_address(&[], &PROGRAM_ID).1".to_string()]
    );
}

#[test]
fn bumps_fail_on_a_group_without_account() {
    let entry = Entry {
        name: "e".to_string(),
        accounts: vec![AccountRef::Composite { group_name: "g".to_string(), children: vec![] }],
        args: vec![],
    };
    assert_eq!(
        InstructionBumpsCode::generate_bumps_code(&entry),
        Err(HarnessError::SchemaParse { detail: "g".to_string() })
    );
}

fn array(element: DeclaredType, len: Option<usize>) -> DeclaredType {
    DeclaredType::Array { element: Box::new(element), len }
}

#[test]
fn declared_types_are_placed_in_the_table() {
    let described = || "described".to_string();
    assert_eq!(arg_type_of(&DeclaredType::U8, described()), ArgType::U8);
    assert_eq!(arg_type_of(&DeclaredType::U64, described()), ArgType::U64);
    assert_eq!(arg_type_of(&DeclaredType::Bool, described()), ArgType::Bool);
    assert_eq!(arg_type_of(&DeclaredType::Text, described()), ArgType::Text);
    assert_eq!(arg_type_of(&DeclaredType::PublicKey, described()), ArgType::PublicKey);
    assert_eq!(arg_type_of(&DeclaredType::Other, described()), ArgType::Other(described()));
}

#[test]
fn only_an_array_of_bytes_with_a_length_is_a_byte_array() {
    let described = || "Array(..)".to_string();
    assert_eq!(arg_type_of(&array(DeclaredType::U8, Some(32)), described()), ArgType::ByteArray(32));
    assert_eq!(arg_type_of(&array(DeclaredType::U8, Some(0)), described()), ArgType::ByteArray(0));
    assert_eq!(arg_type_of(&array(DeclaredType::U8, None), described()), ArgType::Other(described()));
    assert_eq!(
        arg_type_of(&array(DeclaredType::U64, Some(4)), described()),
        ArgType::Other(described())
    );
    assert_eq!(
        arg_type_of(&array(array(DeclaredType::U8, Some(2)), Some(2)), described()),
        ArgType::Other(described())
    );
    assert_eq!(
        default_literal(&arg_type_of(&array(DeclaredType::Bool, Some(3)), "Array(Bool, Value(3))".to_string())),
        "/* unsupported arg type: Array(Bool, Value(3)) */ Default::default()"
    );
}
