//! The generator of one run: from the schema and the configuration to the
//! three texts of the harness.

use vstd::prelude::*;
use vstd::string::*;
use crate::config::GeneratorConfig;
use crate::emitter::{
    main_module_text, manifest_text, mock_module_text, plan_main, planned_main, render_manifest,
    render_mock_module,
};
use crate::error::HarnessError;
use crate::paths::{join_path, joined_path};
use crate::resolution::TypeResolutionMap;
use crate::scan::{hyphens_to_underscores, underscored_text};
use crate::schema::Schema;

verus! {

/// The generator of one run: the schema, the configuration and the
/// program's name as an identifier.
pub struct CodeGenerator<'a> {
    pub idl: &'a Schema,
    pub config: GeneratorConfig<'a>,
    /// The program's name as an identifier.
    pub crate_name: String,
}

/// The three texts of a harness and the directory they are meant for.
#[derive(Debug, Clone, PartialEq, Eq)]
pub struct GeneratedHarness {
    pub out_dir: String,
    pub manifest: String,
    pub mock_module: String,
    pub main_module: String,
}

impl<'a> CodeGenerator<'a> {
    /// A generator for `idl`. The sources of the harness go below `out_dir`
    /// in `src`, and the program's name is made an identifier by replacing
    /// its hyphens.
    pub fn new(
        idl: &'a Schema,
        crate_path: &'a str,
        out_dir: String,
        package: &'a str,
        account_map: TypeResolutionMap,
    ) -> (r: CodeGenerator<'a>)
        ensures
            r.idl == idl,
            r.crate_name@ == underscored_text(idl.name@),
            r.config.program_path@ == crate_path@,
            r.config.out_dir@ == out_dir@,
            r.config.src_dir@ == joined_path(out_dir@, "src"@),
            r.config.package_name@ == package@,
            r.config.account_map@ == account_map@,
    {
        let crate_name = hyphens_to_underscores(idl.name.as_str());
        let src_dir = join_path(out_dir.as_str(), "src");
        let config = GeneratorConfig::new(crate_path, out_dir, src_dir, package, account_map);
        CodeGenerator { idl, config, crate_name }
    }

    /// The mock-support module, from its template.
    pub fn generate_mock_rs(&self, template: &str) -> (r: String)
        ensures
            r@ == mock_module_text(self.crate_name@, template@),
    {
        render_mock_module(self.crate_name.as_str(), template)
    }

    /// The manifest of the harness.
    pub fn generate_cargo_toml(&self) -> (r: String)
        ensures
            r@ == manifest_text(
                self.crate_name@,
                self.config.program_path@,
                self.config.package_name@,
            ),
    {
        render_manifest(self.crate_name.as_str(), self.config.program_path, self.config.package_name)
    }

    /// The main module: one function for each entry of the schema and a
    /// driver that invokes them in the schema's order. Fails where the plan
    /// of an entry fails, with the failure of the first such entry.
    pub fn generate_main_rs(&self) -> (r: Result<String, HarnessError>)
        ensures
            match planned_main(self.idl.entries@, self.config.account_map@) {
                Ok(plan) => r matches Ok(text) && text@ == main_module_text(self.crate_name@, plan),
                Err(e) => r matches Err(f) && f@ == e,
            },
    {
        match plan_main(&self.idl.entries, &self.config.account_map) {
            Ok(plan) => Ok(plan.render(self.crate_name.as_str())),
            Err(e) => Err(e),
        }
    }
}

/// Generates the harness of `idl`: all three texts, or the failure of the
/// first entry whose plan fails, in which case there is no harness at all.
pub fn generate_wrapper(
    idl: &Schema,
    crate_path: &str,
    out_path: &str,
    package: &str,
    account_map: TypeResolutionMap,
    template: &str,
) -> (r: Result<GeneratedHarness, HarnessError>)
    ensures
        match planned_main(idl.entries@, account_map@) {
            Ok(plan) => r matches Ok(harness) && {
                &&& harness.out_dir@ == out_path@
                &&& harness.manifest@ == manifest_text(
                    underscored_text(idl.name@),
                    crate_path@,
                    package@,
                )
                &&& harness.mock_module@ == mock_module_text(underscored_text(idl.name@), template@)
                &&& harness.main_module@ == main_module_text(underscored_text(idl.name@), plan)
            },
            Err(e) => r matches Err(f) && f@ == e,
        },
{
    let generator = CodeGenerator::new(
        idl,
        crate_path,
        String::from_str(out_path),
        package,
        account_map,
    );
    let manifest = generator.generate_cargo_toml();
    let mock_module = generator.generate_mock_rs(template);
    match generator.generate_main_rs() {
        Ok(main_module) => Ok(
            GeneratedHarness { out_dir: String::from_str(out_path), manifest, mock_module, main_module },
        ),
        Err(e) => Err(e),
    }
}

} // verus!
