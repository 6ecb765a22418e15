//! The failures of a generation run.

use vstd::prelude::*;
use vstd::string::*;

verus! {

/// Why a run stopped, or, for `WorkspaceInjection`, what was reported while
/// the run went on.
#[derive(Debug, Clone, PartialEq, Eq)]
pub enum HarnessError {
    /// The schema is malformed; `detail` names the offending part.
    SchemaParse { detail: String },
    /// The root of the source scan does not exist; `path` is that root.
    SourceScan { path: String },
    /// No record type is known for the data account `account`.
    UnresolvedType { account: String },
    /// A directory or file could not be written.
    Io { detail: String },
    /// The enclosing workspace manifest is malformed.
    WorkspaceInjection { detail: String },
}

/// A failure with its texts as sequences of characters.
pub enum ErrorView {
    SchemaParse { detail: Seq<char> },
    SourceScan { path: Seq<char> },
    UnresolvedType { account: Seq<char> },
    Io { detail: Seq<char> },
    WorkspaceInjection { detail: Seq<char> },
}

impl View for HarnessError {
    type V = ErrorView;

    open spec fn view(&self) -> ErrorView {
        match *self {
            HarnessError::SchemaParse { detail } => ErrorView::SchemaParse { detail: detail@ },
            HarnessError::SourceScan { path } => ErrorView::SourceScan { path: path@ },
            HarnessError::UnresolvedType { account } => ErrorView::UnresolvedType {
                account: account@,
            },
            HarnessError::Io { detail } => ErrorView::Io { detail: detail@ },
            HarnessError::WorkspaceInjection { detail } => ErrorView::WorkspaceInjection {
                detail: detail@,
            },
        }
    }
}

/// Whether a failure ends the run. Only a malformed workspace manifest does
/// not.
pub open spec fn is_fatal(e: ErrorView) -> bool {
    !(e is WorkspaceInjection)
}

/// The message of a failure: what went wrong, the name or path concerned and,
/// for an unresolved type, what to do about it.
pub open spec fn message_text(e: ErrorView) -> Seq<char> {
    match e {
        ErrorView::SchemaParse { detail } => "malformed schema: "@ + detail,
        ErrorView::SourceScan { path } => "source directory not found: "@ + path,
        ErrorView::UnresolvedType { account } => "no account struct found for account `"@ + account
            + "`; make sure the struct is reachable from the scanned source directory"@,
        ErrorView::Io { detail } => "failed to write: "@ + detail,
        ErrorView::WorkspaceInjection { detail } => "workspace manifest: "@ + detail,
    }
}

impl HarnessError {
    /// Whether this failure ends the run.
    pub fn fatal(&self) -> (r: bool)
        ensures
            r == is_fatal(self@),
    {
        match self {
            HarnessError::WorkspaceInjection { .. } => false,
            _ => true,
        }
    }

    /// The message shown for this failure.
    pub fn message(&self) -> (r: String)
        ensures
            r@ == message_text(self@),
    {
        match self {
            HarnessError::SchemaParse { detail } => {
                let mut out = String::from_str("malformed schema: ");
                out.append(detail.as_str());
                out
            },
            HarnessError::SourceScan { path } => {
                let mut out = String::from_str("source directory not found: ");
                out.append(path.as_str());
                out
            },
            HarnessError::UnresolvedType { account } => {
                let mut out = String::from_str("no account struct found for account `");
                out.append(account.as_str());
                out.append(
                    "`; make sure the struct is reachable from the scanned source directory",
                );
                out
            },
            HarnessError::Io { detail } => {
                let mut out = String::from_str("failed to write: ");
                out.append(detail.as_str());
                out
            },
            HarnessError::WorkspaceInjection { detail } => {
                let mut out = String::from_str("workspace manifest: ");
                out.append(detail.as_str());
                out
            },
        }
    }
}

} // verus!
