//! The command line, as the values it is parsed to.

use vstd::prelude::*;
use vstd::string::*;

verus! {

/// What the command line asks for.
#[derive(Debug, Clone, PartialEq, Eq)]
pub struct Args {
    pub command: Command,
}

/// The commands of the tool.
#[derive(Debug, Clone, PartialEq, Eq)]
pub enum Command {
    /// Generate the harness of the package `package`.
    Generate {
        /// The package name of the program.
        package: String,
        /// The path of the schema, where it is given.
        idl: Option<String>,
        /// The path of the program's crate, where it is given.
        program_crate_path: Option<String>,
        /// The directory for the harness, where it is given.
        out: Option<String>,
    },
}

/// The paths as the command line gives them: both or none. Where one of the
/// two is missing, both are to be inferred.
pub fn given_paths(idl: &Option<String>, program_crate_path: &Option<String>) -> (r: Option<
    (String, String),
>)
    ensures
        match (*idl, *program_crate_path) {
            (Some(schema), Some(program)) => r matches Some(p) && p.0@ == schema@ && p.1@
                == program@,
            _ => r is None,
        },
{
    match (idl, program_crate_path) {
        (Some(schema), Some(program)) => Some((schema.clone(), program.clone())),
        _ => None,
    }
}

/// The line with which a fatal failure is reported.
pub open spec fn cli_error_text(message: Seq<char>) -> Seq<char> {
    "anchor-lldb Error: "@ + message
}

/// Writes the line that reports a fatal failure.
pub fn cli_error(message: &str) -> (r: String)
    ensures
        r@ == cli_error_text(message@),
{
    let mut out = String::from_str("anchor-lldb Error: ");
    out.append(message);
    out
}

} // verus!
