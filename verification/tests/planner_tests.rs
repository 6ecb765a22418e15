use anchor_lldb::accounts::{
    classify, plan_account, plan_accounts, AccountBinding, AccountRole, InstructionAcountCode,
};
use anchor_lldb::error::HarnessError;
use anchor_lldb::resolution::TypeResolutionMap;
use anchor_lldb::schema::{visit_account_item, AccountRef, Entry, SingleAccount};

fn single(name: &str, is_signer: bool) -> SingleAccount {
    SingleAccount { name: name.to_string(), is_signer, pda: None }
}

fn types(pairs: &[(&str, &str)]) -> TypeResolutionMap {
    let mut map = TypeResolutionMap::new();
    for (k, v) in pairs {
        map.insert(k.to_string(), v.to_string());
    }
    map
}

#[test]
fn system_program_is_recognised_in_any_letter_case() {
    assert_eq!(classify(&single("system_program", false)), AccountRole::SystemProgram);
    assert_eq!(classify(&single("System_Program", false)), AccountRole::SystemProgram);
    assert_eq!(classify(&single("SYSTEM_PROGRAM", true)), AccountRole::SystemProgram);
    assert_eq!(classify(&single("system_program", true)), AccountRole::SystemProgram);
    assert_eq!(classify(&single("system_programs", true)), AccountRole::Signer);
    assert_eq!(classify(&single("systemprogram", false)), AccountRole::Data);
}

#[test]
fn signer_flag_makes_a_signer_without_payload() {
    assert_eq!(classify(&single("payer", true)), AccountRole::Signer);
    let planned = plan_account(&AccountRef::Single(single("payer", true)), &types(&[]));
    assert_eq!(
        planned,
        Ok(AccountBinding { name: "payer".to_string(), role: AccountRole::Signer, payload_type: None })
    );
}

#[test]
fn system_program_binding_has_no_payload_even_with_signer_flag() {
    let planned = plan_account(
        &AccountRef::Single(single("System_Program", true)),
        &types(&[("System_Program", "System")]),
    );
    assert_eq!(
        planned,
        Ok(AccountBinding {
            name: "System_Program".to_string(),
            role: AccountRole::SystemProgram,
            payload_type: None,
        })
    );
}

#[test]
fn data_account_takes_its_type_from_the_map() {
    let planned =
        plan_account(&AccountRef::Single(single("counter", false)), &types(&[("counter", "Counter")]));
    assert_eq!(
        planned,
        Ok(AccountBinding {
            name: "counter".to_string(),
            role: AccountRole::Data,
            payload_type: Some("Counter".to_string()),
        })
    );
}

#[test]
fn data_account_without_type_is_unresolved() {
    let planned = plan_account(&AccountRef::Single(single("counter", false)), &types(&[]));
    assert_eq!(planned, Err(HarnessError::UnresolvedType { account: "counter".to_string() }));
    let entry = Entry {
        name: "bump".to_string(),
        accounts: vec![
            AccountRef::Single(single("payer", true)),
            AccountRef::Single(single("counter", false)),
        ],
        args: vec![],
    };
    let code = InstructionAcountCode::generate_account_code(&entry, &types(&[("other", "Other")]));
    assert_eq!(code, Err(HarnessError::UnresolvedType { account: "counter".to_string() }));
}

#[test]
fn composite_resolves_to_its_first_leaf_in_pre_order() {
    let group = AccountRef::Composite {
        group_name: "outer".to_string(),
        children: vec![
            AccountRef::Composite { group_name: "empty".to_string(), children: vec![] },
            AccountRef::Composite {
                group_name: "inner".to_string(),
                children: vec![
                    AccountRef::Single(single("first", true)),
                    AccountRef::Single(single("second", false)),
                ],
            },
            AccountRef::Single(single("third", false)),
        ],
    };
    assert_eq!(visit_account_item(&group), Some(&single("first", true)));
    let planned = plan_accounts(&vec![group], &types(&[]));
    assert_eq!(
        planned,
        Ok(vec![AccountBinding {
            name: "first".to_string(),
            role: AccountRole::Signer,
            payload_type: None,
        }])
    );
}

#[test]
fn group_without_account_is_a_malformed_schema() {
    let group = AccountRef::Composite {
        group_name: "nothing".to_string(),
        children: vec![AccountRef::Composite { group_name: "deeper".to_string(), children: vec![] }],
    };
    assert_eq!(visit_account_item(&group), None);
    assert_eq!(
        plan_account(&group, &types(&[])),
        Err(HarnessError::SchemaParse { detail: "nothing".to_string() })
    );
}

#[test]
fn first_failure_in_traversal_order_is_reported() {
    let items = vec![
        AccountRef::Single(single("a", false)),
        AccountRef::Composite { group_name: "g".to_string(), children: vec![] },
    ];
    assert_eq!(
        plan_accounts(&items, &types(&[])),
        Err(HarnessError::UnresolvedType { account: "a".to_string() })
    );
    assert_eq!(
        plan_accounts(&items, &types(&[("a", "A")])),
        Err(HarnessError::SchemaParse { detail: "g".to_string() })
    );
}

#[test]
fn account_code_keeps_the_order_of_the_entry() {
    let entry = Entry {
        name: "initialize".to_string(),
        accounts: vec![
            AccountRef::Single(single("payer", true)),
            AccountRef::Single(single("counter", false)),
            AccountRef::Single(single("system_program", false)),
        ],
        args: vec![],
    };
    let code =
        InstructionAcountCode::generate_account_code(&entry, &types(&[("counter", "CounterAccount")]))
            .unwrap();
    assert_eq!(
        code.bindings,
        vec![
            "let payer = Box::leak(Box::new(mock_signer_account(\"payer\")));".to_string(),
            "let counter = Box::leak(Box::new(mock_pda_account::<CounterAccount>(&[b\"counter\"], &PROGRAM_ID, 64)));".to_string(),
            "let system_program = Box::leak(Box::new(mock_system_program()));".to_string(),
        ]
    );
    assert_eq!(
        code.fields,
        vec![
            "payer: Signer::try_from(payer).unwrap()".to_string(),
            "counter: Account::try_from(counter).unwrap()".to_string(),
            "system_program: Program::try_from(&*system_program).unwrap()".to_string(),
        ]
    );
    assert_eq!(
        code.account_infos,
        vec![
            "payer.clone()".to_string(),
            "counter.clone()".to_string(),
            "system_program.clone()".to_string(),
        ]
    );
}

#[test]
fn later_insertion_replaces_an_earlier_one() {
    let mut map = TypeResolutionMap::new();
    assert_eq!(map.get("a"), None);
    map.insert("a".to_string(), "First".to_string());
    map.insert("b".to_string(), "Other".to_string());
    map.insert("a".to_string(), "Second".to_string());
    assert_eq!(map.get("a"), Some(&"Second".to_string()));
    assert_eq!(map.get("b"), Some(&"Other".to_string()));
    assert_eq!(map.get("c"), None);
}
