//! The emitter: composes the manifest, the mock-support module and the main
//! module of the harness from what the planners produced.

use vstd::prelude::*;
use vstd::string::*;
use crate::accounts::{
    binding_texts, field_texts, info_texts, planned_accounts, InstructionAcountCode,
};
use crate::args::{arg_binding_texts, call_arg_texts, InstructionArgCode};
use crate::error::{ErrorView, HarnessError};
use crate::resolution::TypeResolutionMap;
use crate::scan::{
    camel_case_text, substitute, substituted_text, to_camel_case, trim_end, trimmed_end_text,
};
use crate::schema::Entry;
use crate::seeds::{
    account_names, bump_field_texts, planned_bumps, resolved_accounts, InstructionBumpsCode,
};
use crate::text::{join, join_text, views};

verus! {

/// All that the emitter needs of one entry: its name and the texts that the
/// three planners wrote for it.
#[derive(Debug, Clone, PartialEq, Eq)]
pub struct EntryPlan {
    pub name: String,
    pub accounts: InstructionAcountCode,
    pub args: InstructionArgCode,
    pub bumps: InstructionBumpsCode,
}

/// The plan of an entry with its texts as sequences of characters.
pub struct EntryPlanView {
    pub name: Seq<char>,
    pub bindings: Seq<Seq<char>>,
    pub fields: Seq<Seq<char>>,
    pub account_infos: Seq<Seq<char>>,
    pub bump_fields: Seq<Seq<char>>,
    pub args: Seq<Seq<char>>,
    pub call_args: Seq<Seq<char>>,
}

impl View for EntryPlan {
    type V = EntryPlanView;

    open spec fn view(&self) -> EntryPlanView {
        EntryPlanView {
            name: self.name@,
            bindings: views(self.accounts.bindings@),
            fields: views(self.accounts.fields@),
            account_infos: views(self.accounts.account_infos@),
            bump_fields: views(self.bumps.bump_fields@),
            args: views(self.args.args@),
            call_args: views(self.args.call_args@),
        }
    }
}

/// The plan of an entry: the texts of its accounts, bump fields and
/// arguments, each list in the order of the schema; or the failure of the
/// first account that has no binding.
pub open spec fn planned_entry(ix: Entry, types: Map<Seq<char>, Seq<char>>) -> Result<
    EntryPlanView,
    ErrorView,
> {
    match planned_accounts(ix.accounts@, types) {
        Err(e) => Err(e),
        Ok(bindings) => match resolved_accounts(ix.accounts@) {
            Err(e) => Err(e),
            Ok(accounts) => Ok(
                EntryPlanView {
                    name: ix.name@,
                    bindings: binding_texts(bindings),
                    fields: field_texts(bindings),
                    account_infos: info_texts(bindings),
                    bump_fields: bump_field_texts(
                        planned_bumps(accounts, account_names(accounts)),
                    ),
                    args: arg_binding_texts(ix.args@),
                    call_args: call_arg_texts(ix.args@),
                },
            ),
        },
    }
}

/// The function that exercises one entry. It performs, in this order: the
/// account bindings, the typed accounts struct, the flat list of account
/// infos, the bumps struct, the execution context, the argument bindings and
/// the call, whose outcome it reports.
pub open spec fn entry_function_text(plan: EntryPlanView) -> Seq<char> {
    "\nfn "@
        + "call_"@
        + plan.name
        + "() {\n    "@
        + join_text(plan.bindings, "\n    "@)
        + "\n\n    let mut accounts = "@
        + camel_case_text(plan.name)
        + " {\n        "@
        + join_text(plan.fields, ",\n       "@)
        + "\n    };\n\n    let account_infos = vec!["@
        + join_text(plan.account_infos, ", "@)
        + "];\n    let bumps = "@
        + camel_case_text(plan.name)
        + "Bumps"@
        + " { \n        "@
        + join_text(plan.bump_fields, ",\n     "@)
        + "\n    };\n\n    let ctx = Context::new(\n        &PROGRAM_ID,\n        &mut accounts,\n        &account_infos,\n        bumps\n    );\n    "@
        + join_text(plan.args, "\n    "@)
        + "\n\n    match "@
        + plan.name
        + "("@
        + join_text(plan.call_args, ", "@)
        + ") {\n        Ok(_) => println!(\""@
        + plan.name
        + " succeeded\"),\n        Err(e) => eprintln!(\""@
        + plan.name
        + " failed: {:?}\", e),\n    }\n}\n    "@
}

impl EntryPlan {
    /// Writes the function that exercises this entry.
    pub fn render(&self) -> (r: String)
        ensures
            r@ == entry_function_text(self@),
    {
        let struct_name = to_camel_case(self.name.as_str());
        let bindings = join(&self.accounts.bindings, "\n    ");
        let fields = join(&self.accounts.fields, ",\n       ");
        let account_infos = join(&self.accounts.account_infos, ", ");
        let bump_fields = join(&self.bumps.bump_fields, ",\n     ");
        let args = join(&self.args.args, "\n    ");
        let call_args = join(&self.args.call_args, ", ");
        let mut out = String::from_str("\nfn ");
        out.append("call_");
        out.append(self.name.as_str());
        out.append("() {\n    ");
        out.append(bindings.as_str());
        out.append("\n\n    let mut accounts = ");
        out.append(struct_name.as_str());
        out.append(" {\n        ");
        out.append(fields.as_str());
        out.append("\n    };\n\n    let account_infos = vec![");
        out.append(account_infos.as_str());
        out.append("];\n    let bumps = ");
        out.append(struct_name.as_str());
        out.append("Bumps");
        out.append(" { \n        ");
        out.append(bump_fields.as_str());
        out.append("\n    };\n\n    let ctx = Context::new(\n        &PROGRAM_ID,\n        &mut accounts,\n        &account_infos,\n        bumps\n    );\n    ");
        out.append(args.as_str());
        out.append("\n\n    match ");
        out.append(self.name.as_str());
        out.append("(");
        out.append(call_args.as_str());
        out.append(") {\n        Ok(_) => println!(\"");
        out.append(self.name.as_str());
        out.append(" succeeded\"),\n        Err(e) => eprintln!(\"");
        out.append(self.name.as_str());
        out.append(" failed: {:?}\", e),\n    }\n}\n    ");
        out
    }
}

/// Plans one entry: accounts first, then bump fields, then arguments.
pub fn plan_entry(ix: &Entry, account_map: &TypeResolutionMap) -> (r: Result<
    EntryPlan,
    HarnessError,
>)
    ensures
        match planned_entry(*ix, account_map@) {
            Ok(plan) => r matches Ok(p) && p@ == plan,
            Err(e) => r matches Err(f) && f@ == e,
        },
{
    let accounts = match InstructionAcountCode::generate_account_code(ix, account_map) {
        Ok(code) => code,
        Err(e) => {
            return Err(e);
        },
    };
    let bumps = match InstructionBumpsCode::generate_bumps_code(ix) {
        Ok(code) => code,
        Err(e) => {
            return Err(e);
        },
    };
    let args = InstructionArgCode::generate_argument_code(ix);
    Ok(EntryPlan { name: ix.name.clone(), accounts, args, bumps })
}

/// Writes the function that exercises `ix`, or fails as the plan of `ix`
/// fails.
pub fn generate_instruction_function(ix: &Entry, account_map: &TypeResolutionMap) -> (r: Result<
    String,
    HarnessError,
>)
    ensures
        match planned_entry(*ix, account_map@) {
            Ok(plan) => r matches Ok(text) && text@ == entry_function_text(plan),
            Err(e) => r matches Err(f) && f@ == e,
        },
{
    match plan_entry(ix, account_map) {
        Ok(plan) => Ok(plan.render()),
        Err(e) => Err(e),
    }
}

/// The statement by which the driver invokes the function of an entry.
pub open spec fn driver_call_text(name: Seq<char>) -> Seq<char> {
    "    call_"@ + name + "();\n"@
}

/// The parts of the main module: one driver call and one function for each
/// entry.
pub struct MainPlanView {
    pub driver_calls: Seq<Seq<char>>,
    pub functions: Seq<Seq<char>>,
}

/// The parts of the main module for a list of entries, in their order, or
/// the failure of the first entry whose plan fails.
pub open spec fn planned_main(entries: Seq<Entry>, types: Map<Seq<char>, Seq<char>>) -> Result<
    MainPlanView,
    ErrorView,
>
    decreases entries.len(),
{
    if entries.len() == 0 {
        Ok(MainPlanView { driver_calls: Seq::empty(), functions: Seq::empty() })
    } else {
        match planned_main(entries.drop_last(), types) {
            Err(e) => Err(e),
            Ok(done) => match planned_entry(entries.last(), types) {
                Err(e) => Err(e),
                Ok(plan) => Ok(
                    MainPlanView {
                        driver_calls: done.driver_calls.push(driver_call_text(entries.last().name@)),
                        functions: done.functions.push(entry_function_text(plan)),
                    },
                ),
            },
        }
    }
}

/// The main module: the imports, the driver that invokes every function in
/// the order of the plan, and the functions in that order.
pub open spec fn main_module_text(crate_name: Seq<char>, plan: MainPlanView) -> Seq<char> {
    "use anchor_lang::prelude::*;\n\n    extern crate "@
        + crate_name
        + " as cr;\n    use cr::ID as PROGRAM_ID;\n    use cr::*;\n    use cr::"@
        + crate_name
        + "::*;\n\n    mod mock;\n    use mock::*;\n\n        fn main() {\n            println!(\"Native debug wrapper for Anchor program: '"@
        + crate_name
        + "'\");\n        "@
        + trimmed_end_text(join_text(plan.driver_calls, ""@))
        + "\n        }\n\n        "@
        + trimmed_end_text(join_text(plan.functions, ""@))
        + "\n        "@
}

/// The manifest of the harness, which depends on the target program at
/// `program_path` under the package name `package_name`.
pub open spec fn manifest_text(
    crate_name: Seq<char>,
    program_path: Seq<char>,
    package_name: Seq<char>,
) -> Seq<char> {
    "[package]\n    name = \""@
        + crate_name
        + "\"\n    version = \"0.1.0\"\n    edition = \"2021\"\n\n    [dependencies]\n    "@
        + crate_name
        + " = { path = \""@
        + program_path
        + "\", package = \""@
        + package_name
        + "\" }\n    anchor-lang = \"0.31.1\"\n    "@
}

/// The mock-support module: the import of the program identifier, then the
/// template with the target program's name put in at every marker.
pub open spec fn mock_module_text(crate_name: Seq<char>, template: Seq<char>) -> Seq<char> {
    "use "@
        + crate_name
        + "::{ID as PROGRAM_ID};\n        "@
        + substituted_text(template, "{crate_name}"@, crate_name)
}

/// The parts of the main module.
#[derive(Debug, Clone, PartialEq, Eq)]
pub struct MainPlan {
    pub driver_calls: Vec<String>,
    pub functions: Vec<String>,
}

impl View for MainPlan {
    type V = MainPlanView;

    open spec fn view(&self) -> MainPlanView {
        MainPlanView {
            driver_calls: views(self.driver_calls@),
            functions: views(self.functions@),
        }
    }
}

/// A failure among the first `n` entries is the failure of the whole list.
pub proof fn lemma_main_failure_stays(entries: Seq<Entry>, n: int, types: Map<Seq<char>, Seq<char>>)
    requires
        0 <= n <= entries.len(),
        planned_main(entries.take(n), types) is Err,
    ensures
        planned_main(entries, types) == planned_main(entries.take(n), types),
    decreases entries.len() - n,
{
    if n == entries.len() {
        assert(entries.take(n) =~= entries);
    } else {
        assert(entries.take(n + 1).drop_last() =~= entries.take(n));
        lemma_main_failure_stays(entries, n + 1, types);
    }
}

/// Plans the main module: for every entry its driver call and its function.
pub fn plan_main(entries: &Vec<Entry>, account_map: &TypeResolutionMap) -> (r: Result<
    MainPlan,
    HarnessError,
>)
    ensures
        match planned_main(entries@, account_map@) {
            Ok(plan) => r matches Ok(p) && p@ == plan,
            Err(e) => r matches Err(f) && f@ == e,
        },
{
    let mut driver_calls: Vec<String> = Vec::new();
    let mut functions: Vec<String> = Vec::new();
    let mut i: usize = 0;
    assert(views(driver_calls@) =~= Seq::<Seq<char>>::empty());
    assert(views(functions@) =~= Seq::<Seq<char>>::empty());
    while i < entries.len()
        invariant
            i <= entries.len(),
            planned_main(entries@.take(i as int), account_map@) == Ok::<MainPlanView, ErrorView>(
                MainPlanView {
                    driver_calls: views(driver_calls@),
                    functions: views(functions@),
                },
            ),
        decreases entries.len() - i,
    {
        proof {
            assert(entries@.take(i + 1).drop_last() =~= entries@.take(i as int));
            assert(entries@.take(i + 1).last() == entries@[i as int]);
        }
        match generate_instruction_function(&entries[i], account_map) {
            Err(e) => {
                proof {
                    lemma_main_failure_stays(entries@, i + 1, account_map@);
                }
                return Err(e);
            },
            Ok(function) => {
                let mut call = String::from_str("    call_");
                call.append(entries[i].name.as_str());
                call.append("();\n");
                let ghost calls_before = views(driver_calls@);
                let ghost functions_before = views(functions@);
                driver_calls.push(call);
                functions.push(function);
                assert(views(driver_calls@) =~= calls_before.push(call@));
                assert(views(functions@) =~= functions_before.push(function@));
            },
        }
        i += 1;
    }
    assert(entries@.take(i as int) =~= entries@);
    Ok(MainPlan { driver_calls, functions })
}

impl MainPlan {
    /// Writes the main module of the program `crate_name`.
    pub fn render(&self, crate_name: &str) -> (r: String)
        ensures
            r@ == main_module_text(crate_name@, self@),
    {
        let all_calls = join(&self.driver_calls, "");
        let call_main = trim_end(all_calls.as_str());
        let all_functions = join(&self.functions, "");
        let call_functions = trim_end(all_functions.as_str());
        let mut out = String::from_str("use anchor_lang::prelude::*;\n\n    extern crate ");
        out.append(crate_name);
        out.append(" as cr;\n    use cr::ID as PROGRAM_ID;\n    use cr::*;\n    use cr::");
        out.append(crate_name);
        out.append("::*;\n\n    mod mock;\n    use mock::*;\n\n        fn main() {\n            println!(\"Native debug wrapper for Anchor program: '");
        out.append(crate_name);
        out.append("'\");\n        ");
        out.append(call_main.as_str());
        out.append("\n        }\n\n        ");
        out.append(call_functions.as_str());
        out.append("\n        ");
        out
    }
}

/// Writes the manifest of the harness.
pub fn render_manifest(crate_name: &str, program_path: &str, package_name: &str) -> (r: String)
    ensures
        r@ == manifest_text(crate_name@, program_path@, package_name@),
{
    let mut out = String::from_str("[package]\n    name = \"");
    out.append(crate_name);
    out.append("\"\n    version = \"0.1.0\"\n    edition = \"2021\"\n\n    [dependencies]\n    ");
    out.append(crate_name);
    out.append(" = { path = \"");
    out.append(program_path);
    out.append("\", package = \"");
    out.append(package_name);
    out.append("\" }\n    anchor-lang = \"0.31.1\"\n    ");
    out
}

/// Writes the mock-support module from its template.
pub fn render_mock_module(crate_name: &str, template: &str) -> (r: String)
    ensures
        r@ == mock_module_text(crate_name@, template@),
{
    let body = substitute(template, "{crate_name}", crate_name);
    let mut out = String::from_str("use ");
    out.append(crate_name);
    out.append("::{ID as PROGRAM_ID};\n        ");
    out.append(body.as_str());
    out
}

} // verus!
