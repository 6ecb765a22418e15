//! What one generation run is given.

use vstd::prelude::*;
use vstd::string::*;
use crate::resolution::TypeResolutionMap;

verus! {

/// The paths and names of one run, and the account types found in the
/// program's sources.
pub struct GeneratorConfig<'a> {
    pub program_path: &'a str,
    pub out_dir: String,
    pub src_dir: String,
    pub package_name: &'a str,
    /// From the name of an account field to its record type, whose
    /// discriminator opens the payload of the account's mock record.
    pub account_map: TypeResolutionMap,
}

impl<'a> GeneratorConfig<'a> {
    /// The configuration made of exactly what is given.
    pub fn new(
        crate_path: &'a str,
        out_dir: String,
        src_dir: String,
        package_name: &'a str,
        account_map: TypeResolutionMap,
    ) -> (r: GeneratorConfig<'a>)
        ensures
            r.program_path@ == crate_path@,
            r.out_dir@ == out_dir@,
            r.src_dir@ == src_dir@,
            r.package_name@ == package_name@,
            r.account_map@ == account_map@,
    {
        GeneratorConfig { program_path: crate_path, out_dir, src_dir, package_name, account_map }
    }
}

} // verus!
