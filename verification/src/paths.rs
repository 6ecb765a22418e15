//! Paths with forward slashes, and the layout by which the schema and the
//! program's sources are found when no path is given.

use vstd::prelude::*;
use vstd::string::*;
use crate::scan::{hyphens_to_underscores, underscored_text};
use crate::text::text_of;

verus! {

/// `rel` below `base`: a separator is put between the two unless `base` is
/// empty or ends with one, and a `rel` that starts at the root stands alone.
pub open spec fn joined_path(base: Seq<char>, rel: Seq<char>) -> Seq<char> {
    if rel.len() > 0 && rel[0] == '/' {
        rel
    } else if base.len() == 0 || base.last() == '/' {
        base + rel
    } else {
        base.push('/') + rel
    }
}

/// Joins two paths.
pub fn join_path(base: &str, rel: &str) -> (r: String)
    ensures
        r@ == joined_path(base@, rel@),
{
    let rel_len = rel.unicode_len();
    if rel_len > 0 && rel.get_char(0) == '/' {
        return String::from_str(rel);
    }
    let mut out = String::from_str(base);
    let base_len = base.unicode_len();
    if base_len > 0 && base.get_char(base_len - 1) != '/' {
        out.push('/');
    }
    out.append(rel);
    out
}

/// `regex::Error`: why a pattern was rejected. It is only told apart from
/// success.
#[verifier::external_type_specification]
#[verifier::external_body]
pub struct ExRegexError(regex::Error);

/// What a regular expression finds in a text: `None` where the pattern is
/// rejected; `Some(None)` where the pattern matches nowhere, or where its
/// leftmost match leaves the first capture group out; else the text of the
/// first capture group of the leftmost match.
pub uninterp spec fn first_group(pattern: Seq<char>, text: Seq<char>) -> Option<Option<Seq<char>>>;

/// `Regex::new`, `Regex::captures` and `Captures::get` with index 1 of the
/// `regex` crate: the text of the first capture group of the leftmost
/// match, where the group takes part in it. The outcome depends on the
/// pattern and the text alone.
#[verifier::external_body]
fn capture_first_group(pattern: &str, text: &str) -> (r: Result<Option<String>, regex::Error>)
    ensures
        match r {
            Ok(found) => first_group(pattern@, text@) == Some(text_of(found)),
            Err(_) => first_group(pattern@, text@) is None,
        },
{
    let re = regex::Regex::new(pattern)?;
    Ok(re.captures(text).and_then(|c| c.get(1)).map(|m| m.as_str().to_string()))
}

/// Why the paths of a program could not be inferred.
#[derive(Debug, Clone, PartialEq, Eq)]
pub enum InferError {
    /// The program has no manifest at `path`.
    MissingManifest { path: String },
    /// The program has no library root at `path`.
    MissingLibrary { path: String },
    /// The library root declares no program module.
    NoProgramModule,
    /// The pattern for the program module was rejected.
    PatternRejected,
}

/// A failure of the inference with its paths as sequences of characters.
pub enum InferErrorView {
    MissingManifest { path: Seq<char> },
    MissingLibrary { path: Seq<char> },
    NoProgramModule,
    PatternRejected,
}

impl View for InferError {
    type V = InferErrorView;

    open spec fn view(&self) -> InferErrorView {
        match *self {
            InferError::MissingManifest { path } => InferErrorView::MissingManifest { path: path@ },
            InferError::MissingLibrary { path } => InferErrorView::MissingLibrary { path: path@ },
            InferError::NoProgramModule => InferErrorView::NoProgramModule,
            InferError::PatternRejected => InferErrorView::PatternRejected,
        }
    }
}

/// The message of a failure of the inference.
pub open spec fn infer_message_text(e: InferErrorView) -> Seq<char> {
    match e {
        InferErrorView::MissingManifest { path } => "Could not find Cargo.toml at "@ + path,
        InferErrorView::MissingLibrary { path } => "Could not find src/lib.rs at "@ + path,
        InferErrorView::NoProgramModule => "Could not find #[program] pub mod <name> in lib.rs"@,
        InferErrorView::PatternRejected => "The pattern for the program module was rejected"@,
    }
}

impl InferError {
    /// The message shown for this failure.
    pub fn message(&self) -> (r: String)
        ensures
            r@ == infer_message_text(self@),
    {
        match self {
            InferError::MissingManifest { path } => {
                let mut out = String::from_str("Could not find Cargo.toml at ");
                out.append(path.as_str());
                out
            },
            InferError::MissingLibrary { path } => {
                let mut out = String::from_str("Could not find src/lib.rs at ");
                out.append(path.as_str());
                out
            },
            InferError::NoProgramModule => String::from_str(
                "Could not find #[program] pub mod <name> in lib.rs",
            ),
            InferError::PatternRejected => String::from_str(
                "The pattern for the program module was rejected",
            ),
        }
    }
}

/// The pattern of a program module: the `program` attribute, then `pub mod`
/// and the module's name, which is the first capture group.
pub open spec fn program_module_pattern() -> Seq<char> {
    "(?m)#\\s*\\[program\\]\\s*pub\\s+mod\\s+([a-zA-Z_][a-zA-Z0-9_]*)"@
}

/// The name of the program module, from what the pattern found.
pub open spec fn module_name_of(found: Option<Option<Seq<char>>>) -> Result<
    Seq<char>,
    InferErrorView,
> {
    match found {
        Some(Some(name)) => Ok(name),
        Some(None) => Err(InferErrorView::NoProgramModule),
        None => Err(InferErrorView::PatternRejected),
    }
}

/// The name of the module that the library root declares as the program.
pub fn extract_program_mod_name(contents: &str) -> (r: Result<String, InferError>)
    ensures
        match module_name_of(first_group(program_module_pattern(), contents@)) {
            Ok(name) => r matches Ok(n) && n@ == name,
            Err(e) => r matches Err(f) && f@ == e,
        },
{
    match capture_first_group(
        "(?m)#\\s*\\[program\\]\\s*pub\\s+mod\\s+([a-zA-Z_][a-zA-Z0-9_]*)",
        contents,
    ) {
        Ok(Some(name)) => Ok(name),
        Ok(None) => Err(InferError::NoProgramModule),
        Err(_) => Err(InferError::PatternRejected),
    }
}

/// Where a program of the workspace at `dir` lies.
#[derive(Debug, Clone, PartialEq, Eq)]
pub struct ProgramLayout {
    pub program_path: String,
    pub cargo_path: String,
    pub lib_rs_path: String,
}

/// The directory of the package `package` below the workspace at `dir`.
pub open spec fn program_path_text(dir: Seq<char>, package: Seq<char>) -> Seq<char> {
    joined_path(dir, "programs/"@ + package)
}

/// The schema of the program module `mod_name` below the workspace at
/// `dir`.
pub open spec fn idl_path_text(dir: Seq<char>, mod_name: Seq<char>) -> Seq<char> {
    joined_path(dir, "target/idl/"@ + mod_name + ".json"@)
}

/// The layout of the package `package` in the workspace at `dir`: the
/// program below `programs`, its manifest and its library root.
pub fn program_layout(dir: &str, package: &str) -> (r: ProgramLayout)
    ensures
        r.program_path@ == program_path_text(dir@, package@),
        r.cargo_path@ == joined_path(r.program_path@, "Cargo.toml"@),
        r.lib_rs_path@ == joined_path(r.program_path@, "src/lib.rs"@),
{
    let mut rel = String::from_str("programs/");
    rel.append(package);
    let program_path = join_path(dir, rel.as_str());
    let cargo_path = join_path(program_path.as_str(), "Cargo.toml");
    let lib_rs_path = join_path(program_path.as_str(), "src/lib.rs");
    ProgramLayout { program_path, cargo_path, lib_rs_path }
}

/// The path of the schema of the program module `mod_name`.
pub fn idl_path_for(dir: &str, mod_name: &str) -> (r: String)
    ensures
        r@ == idl_path_text(dir@, mod_name@),
{
    let mut rel = String::from_str("target/idl/");
    rel.append(mod_name);
    rel.append(".json");
    join_path(dir, rel.as_str())
}

/// The paths of the schema and of the program, by convention: the program
/// lies below `programs` under its package name, and the schema below
/// `target/idl` under the name of the program module. `cargo_exists` says
/// whether the program's manifest is there, and `lib_rs` holds the text of
/// its library root where that is there.
pub open spec fn inferred_paths(
    dir: Seq<char>,
    package: Seq<char>,
    cargo_exists: bool,
    lib_rs: Option<Seq<char>>,
) -> Result<(Seq<char>, Seq<char>), InferErrorView> {
    let program_path = program_path_text(dir, package);
    if !cargo_exists {
        Err(InferErrorView::MissingManifest { path: joined_path(program_path, "Cargo.toml"@) })
    } else {
        match lib_rs {
            None => Err(
                InferErrorView::MissingLibrary { path: joined_path(program_path, "src/lib.rs"@) },
            ),
            Some(contents) => match module_name_of(
                first_group(program_module_pattern(), contents),
            ) {
                Ok(name) => Ok((idl_path_text(dir, name), program_path)),
                Err(e) => Err(e),
            },
        }
    }
}

/// Infers the paths of the schema and of the program from the package
/// name.
pub fn infer_paths(dir: &str, package: &str, cargo_exists: bool, lib_rs: &Option<String>) -> (r:
    Result<(String, String), InferError>)
    ensures
        match inferred_paths(dir@, package@, cargo_exists, text_of(*lib_rs)) {
            Ok(paths) => r matches Ok(p) && p.0@ == paths.0 && p.1@ == paths.1,
            Err(e) => r matches Err(f) && f@ == e,
        },
{
    let layout = program_layout(dir, package);
    if !cargo_exists {
        return Err(InferError::MissingManifest { path: layout.cargo_path });
    }
    let contents = match lib_rs {
        Some(contents) => contents,
        None => {
            return Err(InferError::MissingLibrary { path: layout.lib_rs_path });
        },
    };
    match extract_program_mod_name(contents.as_str()) {
        Ok(name) => Ok((idl_path_for(dir, name.as_str()), layout.program_path)),
        Err(e) => Err(e),
    }
}

/// What building a temporary harness takes: the manifest to build, the
/// arguments of the build, where the binary is built and where it goes.
#[derive(Debug, Clone, PartialEq, Eq)]
pub struct BuildPlan {
    pub manifest_path: String,
    pub build_args: Vec<String>,
    pub built_bin_path: String,
    pub bin_out_path: String,
}

/// The directory below which the harness is built.
pub open spec fn build_target_dir() -> Seq<char> {
    "target/debuggen"@
}

/// Plans the build of the harness at `out_path` for the package `package`,
/// seen from the directory `dir`: the binary bears the package's name with
/// underscores for hyphens and is copied below `target/debug` under the
/// package's name.
pub fn build_plan(dir: &str, package: &str, out_path: &str) -> (r: BuildPlan)
    ensures
        r.manifest_path@ == joined_path(out_path@, "Cargo.toml"@),
        r.build_args@.len() == 5,
        r.build_args@[0]@ == "build"@,
        r.build_args@[1]@ == "--manifest-path"@,
        r.build_args@[2]@ == r.manifest_path@,
        r.build_args@[3]@ == "--target-dir"@,
        r.build_args@[4]@ == build_target_dir(),
        r.built_bin_path@ == joined_path("target/debuggen/debug"@, underscored_text(package@)),
        r.bin_out_path@ == joined_path(joined_path(dir@, "target/debug"@), package@),
{
    let manifest_path = join_path(out_path, "Cargo.toml");
    let mut build_args: Vec<String> = Vec::new();
    build_args.push(String::from_str("build"));
    build_args.push(String::from_str("--manifest-path"));
    build_args.push(manifest_path.clone());
    build_args.push(String::from_str("--target-dir"));
    build_args.push(String::from_str("target/debuggen"));
    let binary_name = hyphens_to_underscores(package);
    let built_bin_path = join_path("target/debuggen/debug", binary_name.as_str());
    let debug_dir = join_path(dir, "target/debug");
    let bin_out_path = join_path(debug_dir.as_str(), package);
    BuildPlan { manifest_path, build_args, built_bin_path, bin_out_path }
}

} // verus!
