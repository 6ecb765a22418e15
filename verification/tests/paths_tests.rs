use anchor_lldb::cli::{cli_error, given_paths};
use anchor_lldb::error::HarnessError;
use anchor_lldb::paths::{
    build_plan, extract_program_mod_name, idl_path_for, infer_paths, join_path, program_layout,
    InferError,
};

#[test]
fn join_puts_one_separator_between() {
    assert_eq!(join_path("a", "b"), "a/b");
    assert_eq!(join_path("a/", "b"), "a/b");
    assert_eq!(join_path("", "b"), "b");
    assert_eq!(join_path("a", "/b"), "/b");
    assert_eq!(join_path("a", ""), "a/");
    assert_eq!(join_path("/", "b"), "/b");
}

#[test]
fn program_module_is_found_after_its_attribute() {
    let source = "use anchor_lang::prelude::*;\n\ndeclare_id!(\"x\");\n\n#[program]\npub mod shipment_manager {\n    use super::*;\n}\n";
    assert_eq!(extract_program_mod_name(source), Ok("shipment_manager".to_string()));
    assert_eq!(extract_program_mod_name("# [program] pub  mod a1 {}"), Ok("a1".to_string()));
    assert_eq!(
        extract_program_mod_name("#[program]\npub mod first {}\n#[program]\npub mod second {}"),
        Ok("first".to_string())
    );
}

#[test]
fn source_without_program_module_is_reported() {
    assert_eq!(extract_program_mod_name("pub mod plain {}"), Err(InferError::NoProgramModule));
    assert_eq!(extract_program_mod_name("#[program]\nmod private {}"), Err(InferError::NoProgramModule));
    assert_eq!(extract_program_mod_name(""), Err(InferError::NoProgramModule));
    assert_eq!(
        InferError::NoProgramModule.message(),
        "Could not find #[program] pub mod <name> in lib.rs"
    );
}

#[test]
fn layout_follows_the_convention() {
    let layout = program_layout("/work", "my-program");
    assert_eq!(layout.program_path, "/work/programs/my-program");
    assert_eq!(layout.cargo_path, "/work/programs/my-program/Cargo.toml");
    assert_eq!(layout.lib_rs_path, "/work/programs/my-program/src/lib.rs");
    assert_eq!(idl_path_for("/work", "my_program"), "/work/target/idl/my_program.json");
}

#[test]
fn paths_are_inferred_from_the_package() {
    let lib = Some("#[program]\npub mod counter {}\n".to_string());
    assert_eq!(
        infer_paths("/work", "counter-program", true, &lib),
        Ok(("/work/target/idl/counter.json".to_string(), "/work/programs/counter-program".to_string()))
    );
}

#[test]
fn inference_fails_on_what_is_missing() {
    let lib = Some("#[program]\npub mod counter {}\n".to_string());
    let missing_manifest = infer_paths("/work", "p", false, &lib);
    assert_eq!(
        missing_manifest,
        Err(InferError::MissingManifest { path: "/work/programs/p/Cargo.toml".to_string() })
    );
    assert_eq!(
        missing_manifest.unwrap_err().message(),
        "Could not find Cargo.toml at /work/programs/p/Cargo.toml"
    );
    assert_eq!(
        infer_paths("/work", "p", false, &None),
        Err(InferError::MissingManifest { path: "/work/programs/p/Cargo.toml".to_string() })
    );
    let missing_library = infer_paths("/work", "p", true, &None);
    assert_eq!(
        missing_library,
        Err(InferError::MissingLibrary { path: "/work/programs/p/src/lib.rs".to_string() })
    );
    assert_eq!(
        missing_library.unwrap_err().message(),
        "Could not find src/lib.rs at /work/programs/p/src/lib.rs"
    );
    assert_eq!(
        infer_paths("/work", "p", true, &Some("fn main() {}".to_string())),
        Err(InferError::NoProgramModule)
    );
    assert_eq!(
        InferError::PatternRejected.message(),
        "The pattern for the program module was rejected"
    );
}

#[test]
fn build_is_planned_below_the_target_directory() {
    let plan = build_plan("/work", "my-program", "/tmp/harness");
    assert_eq!(plan.manifest_path, "/tmp/harness/Cargo.toml");
    assert_eq!(
        plan.build_args,
        vec![
            "build".to_string(),
            "--manifest-path".to_string(),
            "/tmp/harness/Cargo.toml".to_string(),
            "--target-dir".to_string(),
            "target/debuggen".to_string(),
        ]
    );
    assert_eq!(plan.built_bin_path, "target/debuggen/debug/my_program");
    assert_eq!(plan.bin_out_path, "/work/target/debug/my-program");
}

#[test]
fn given_paths_need_both() {
    let a = Some("idl.json".to_string());
    let b = Some("programs/p".to_string());
    assert_eq!(given_paths(&a, &b), Some(("idl.json".to_string(), "programs/p".to_string())));
    assert_eq!(given_paths(&a, &None), None);
    assert_eq!(given_paths(&None, &b), None);
    assert_eq!(given_paths(&None, &None), None);
}

#[test]
fn failures_have_their_messages() {
    assert_eq!(cli_error("boom"), "anchor-lldb Error: boom");
    let unresolved = HarnessError::UnresolvedType { account: "vault".to_string() };
    assert_eq!(
        unresolved.message(),
        "no account struct found for account `vault`; make sure the struct is reachable from the scanned source directory"
    );
    assert!(unresolved.fatal());
    assert_eq!(
        HarnessError::SchemaParse { detail: "g".to_string() }.message(),
        "malformed schema: g"
    );
    assert_eq!(
        HarnessError::SourceScan { path: "p/src".to_string() }.message(),
        "source directory not found: p/src"
    );
    assert_eq!(HarnessError::Io { detail: "out".to_string() }.message(), "failed to write: out");
    assert!(HarnessError::Io { detail: "out".to_string() }.fatal());
    let injection = HarnessError::WorkspaceInjection { detail: "d".to_string() };
    assert_eq!(injection.message(), "workspace manifest: d");
    assert!(!injection.fatal());
}
