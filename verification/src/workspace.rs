//! Registration of the harness directory as a member of the enclosing
//! workspace, on the text of the workspace manifest. The manifest is read
//! and written with `toml_edit`, whose document stays opaque here.

use vstd::prelude::*;
use vstd::string::*;
use crate::error::{ErrorView, HarnessError};
use crate::text::{lists, texts_of};

verus! {

/// `toml_edit::DocumentMut`: a manifest that can be edited. Nothing of it
/// is visible here.
#[verifier::external_type_specification]
#[verifier::external_body]
pub struct ExDocumentMut(toml_edit::DocumentMut);

/// `toml_edit::TomlError`: why a text is not valid TOML. It is only told
/// apart from success.
#[verifier::external_type_specification]
#[verifier::external_body]
pub struct ExTomlError(toml_edit::TomlError);

/// The document that a manifest text parses to; `None` where it is not
/// valid TOML.
pub uninterp spec fn parsed_manifest(content: Seq<char>) -> Option<toml_edit::DocumentMut>;

/// The entries of `workspace.members` in a document: each entry that is a
/// string by its text, any other entry as `None`. A document without that
/// array has the empty list; `None` where `workspace` is no table or
/// `members` is no array.
pub uninterp spec fn members_of(doc: toml_edit::DocumentMut) -> Option<Seq<Option<Seq<char>>>>;

/// What a document holds beside the member list: from the path of keys of
/// every value that is neither a table nor `workspace.members` to the text
/// of that value.
pub uninterp spec fn other_values(doc: toml_edit::DocumentMut) -> Map<Seq<Seq<char>>, Seq<char>>;

/// The text that a document is written as.
pub uninterp spec fn rendering_of(doc: toml_edit::DocumentMut) -> Seq<char>;

/// `str::parse` to a `toml_edit::DocumentMut`: the same text always gives
/// the same document, or an error where it is not valid TOML.
#[verifier::external_body]
fn parse_manifest(content: &str) -> (r: Result<toml_edit::DocumentMut, toml_edit::TomlError>)
    ensures
        match r {
            Ok(doc) => parsed_manifest(content@) == Some(doc),
            Err(_) => parsed_manifest(content@) is None,
        },
{
    content.parse::<toml_edit::DocumentMut>()
}

/// `Item::get_mut` for `workspace` and `members`, `Item::or_insert` with an
/// empty array, then `Array::iter` and `Value::as_str`: the entries of the
/// member list. The array is put in place where it was missing, which
/// changes neither what the list holds nor any other value of the document.
#[verifier::external_body]
fn member_entries(doc: &mut toml_edit::DocumentMut) -> (r: Option<Vec<Option<String>>>)
    ensures
        members_of(*final(doc)) == members_of(*old(doc)),
        other_values(*final(doc)) == other_values(*old(doc)),
        match r {
            Some(entries) => members_of(*old(doc)) == Some(texts_of(entries@)),
            None => members_of(*old(doc)) is None,
        },
{
    let slot = doc.as_item_mut().get_mut("workspace")?.get_mut("members")?;
    let empty = toml_edit::Item::Value(toml_edit::Value::Array(Default::default()));
    let list = slot.or_insert(empty).as_array()?;
    Some(list.iter().map(|v| v.as_str().map(|s| s.to_string())).collect())
}

/// `Array::push` on the member list: `member` becomes its last entry, the
/// entries before it stay, and so does every other value of the document.
#[verifier::external_body]
fn push_member(doc: &mut toml_edit::DocumentMut, member: &str)
    requires
        members_of(*old(doc)) is Some,
    ensures
        members_of(*final(doc)) == Some(members_of(*old(doc))->0.push(Some(member@))),
        other_values(*final(doc)) == other_values(*old(doc)),
{
    let slot = doc.as_item_mut().get_mut("workspace").and_then(|w| w.get_mut("members"));
    let empty = toml_edit::Item::Value(toml_edit::Value::Array(Default::default()));
    if let Some(list) = slot.and_then(|m| m.or_insert(empty).as_array_mut()) {
        list.push(member);
    }
}

/// `DocumentMut::to_string`: the document as text.
#[verifier::external_body]
fn render_manifest_document(doc: &toml_edit::DocumentMut) -> (r: String)
    ensures
        r@ == rendering_of(*doc),
{
    doc.to_string()
}

/// The member list after `member` was registered: unchanged where it holds
/// `member` already, else with `member` added at its end.
pub open spec fn registered(list: Seq<Option<Seq<char>>>, member: Seq<char>) -> Seq<
    Option<Seq<char>>,
> {
    if list.contains(Some(member)) {
        list
    } else {
        list.push(Some(member))
    }
}

/// Whether a member list holds `member`.
pub fn already_registered(entries: &Vec<Option<String>>, member: &str) -> (r: bool)
    ensures
        r == texts_of(entries@).contains(Some(member@)),
{
    lists(entries, member)
}

/// The failure for a manifest that is not valid TOML.
pub open spec fn invalid_manifest() -> ErrorView {
    ErrorView::WorkspaceInjection { detail: "the manifest is not valid TOML"@ }
}

/// The failure for a manifest whose member list cannot be used.
pub open spec fn unusable_members() -> ErrorView {
    ErrorView::WorkspaceInjection { detail: "`workspace.members` is not an array"@ }
}

/// Registers `member` in a document and says whether the member list
/// changed. A member that is there already is not added again, and no value
/// of the document beside the member list changes.
pub fn register_member(doc: &mut toml_edit::DocumentMut, member: &str) -> (r: Result<
    bool,
    HarnessError,
>)
    ensures
        other_values(*final(doc)) == other_values(*old(doc)),
        match members_of(*old(doc)) {
            Some(list) => r == Ok::<bool, HarnessError>(!list.contains(Some(member@)))
                && members_of(*final(doc)) == Some(registered(list, member@)),
            None => r matches Err(e) && e@ == unusable_members() && members_of(*final(doc))
                is None,
        },
{
    match member_entries(doc) {
        None => Err(
            HarnessError::WorkspaceInjection {
                detail: String::from_str("`workspace.members` is not an array"),
            },
        ),
        Some(entries) => {
            if already_registered(&entries, member) {
                Ok(false)
            } else {
                push_member(doc, member);
                Ok(true)
            }
        },
    }
}

/// Registers `member` in the text of a workspace manifest. Gives the new
/// text where the member had to be added, and `None` where the manifest
/// holds it already and stays as it is. The new text is that of the
/// manifest with `member` added at the end of its member list and every
/// other value as it was.
pub fn inject_workspace_member(content: &str, member: &str) -> (r: Result<
    Option<String>,
    HarnessError,
>)
    ensures
        match parsed_manifest(content@) {
            None => r matches Err(e) && e@ == invalid_manifest(),
            Some(doc) => match members_of(doc) {
                None => r matches Err(e) && e@ == unusable_members(),
                Some(list) => if list.contains(Some(member@)) {
                    r == Ok::<Option<String>, HarnessError>(None)
                } else {
                    r matches Ok(Some(text)) && exists|after: toml_edit::DocumentMut|
                        #[trigger] members_of(after) == Some(list.push(Some(member@)))
                            && other_values(after) == other_values(doc) && text@ == rendering_of(
                            after,
                        )
                },
            },
        },
{
    let mut doc = match parse_manifest(content) {
        Ok(doc) => doc,
        Err(_) => {
            return Err(
                HarnessError::WorkspaceInjection {
                    detail: String::from_str("the manifest is not valid TOML"),
                },
            );
        },
    };
    match register_member(&mut doc, member) {
        Err(e) => Err(e),
        Ok(changed) => {
            if changed {
                Ok(Some(render_manifest_document(&doc)))
            } else {
                Ok(None)
            }
        },
    }
}

/// Registering a member twice leaves the member list as it was after the
/// first time.
pub proof fn lemma_registration_is_idempotent(list: Seq<Option<Seq<char>>>, member: Seq<char>)
    ensures
        registered(registered(list, member), member) == registered(list, member),
        registered(list, member).contains(Some(member)),
{
    if !list.contains(Some(member)) {
        let after = list.push(Some(member));
        assert(after[list.len() as int] == Some(member));
    }
}

/// Where the harness goes: the directory that the user named, which is
/// kept and registered in the workspace, or none, for a temporary directory
/// that is not. The flag says that the directory is temporary.
pub fn prepare_output_path(user_out: &Option<String>) -> (r: (Option<String>, bool))
    ensures
        match *user_out {
            Some(path) => r.0 matches Some(p) && p@ == path@ && !r.1,
            None => r.0 is None && r.1,
        },
{
    match user_out {
        Some(path) => (Some(path.clone()), false),
        None => (None, true),
    }
}

/// Registers the harness directory in the workspace manifest unless the
/// directory is temporary, in which case nothing is to be written.
pub fn maybe_inject_workspace(content: &str, out_path: &str, is_ephemeral: bool) -> (r: Result<
    Option<String>,
    HarnessError,
>)
    ensures
        is_ephemeral ==> r == Ok::<Option<String>, HarnessError>(None),
        !is_ephemeral ==> match parsed_manifest(content@) {
            None => r matches Err(e) && e@ == invalid_manifest(),
            Some(doc) => match members_of(doc) {
                None => r matches Err(e) && e@ == unusable_members(),
                Some(list) => if list.contains(Some(out_path@)) {
                    r == Ok::<Option<String>, HarnessError>(None)
                } else {
                    r matches Ok(Some(text)) && exists|after: toml_edit::DocumentMut|
                        #[trigger] members_of(after) == Some(list.push(Some(out_path@)))
                            && other_values(after) == other_values(doc) && text@ == rendering_of(
                            after,
                        )
                },
            },
        },
{
    if is_ephemeral {
        Ok(None)
    } else {
        inject_workspace_member(content, out_path)
    }
}

} // verus!
