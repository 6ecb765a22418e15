//! Reading structure definitions out of source text with the `syn` parser.
//! The parser's own types stay opaque; what is read of them is handed on as
//! plain values.

use vstd::prelude::*;
use vstd::string::*;
use crate::shapes::{struct_views, AttrDecl, FieldDecl, FieldType, StructDecl, StructShape};
use crate::text::{text_of, texts_of};

verus! {

/// `syn::File`: a parsed source file. Nothing of it is visible here.
#[verifier::external_type_specification]
#[verifier::external_body]
pub struct ExFile(syn::File);

/// `syn::ItemStruct`: a parsed structure definition. Nothing of it is
/// visible here.
#[verifier::external_type_specification]
#[verifier::external_body]
pub struct ExItemStruct(syn::ItemStruct);

/// `syn::Error`: why a text did not parse. It is only told apart from
/// success.
#[verifier::external_type_specification]
#[verifier::external_body]
pub struct ExSynError(syn::Error);

/// What `syn::parse_file` makes of a source text: `None` where it reports an
/// error, else the top-level items in source order, each structure
/// definition with its shape and any other item as `None`.
pub uninterp spec fn source_items(content: Seq<char>) -> Option<Seq<Option<StructShape>>>;

/// The top-level items of a parsed file, as `source_items` gives them.
pub uninterp spec fn file_items(file: syn::File) -> Seq<Option<StructShape>>;

/// The shape of a parsed structure definition.
pub uninterp spec fn struct_shape(item: syn::ItemStruct) -> StructShape;

/// `syn::parse_file`: the same text always parses to the same items, and a
/// text with a syntax error gives an error.
pub assume_specification[ syn::parse_file ](content: &str) -> (r: Result<syn::File, syn::Error>)
    ensures
        match r {
            Ok(file) => source_items(content@) == Some(file_items(file)),
            Err(_) => source_items(content@) is None,
        },
;

/// The field `items` of `syn::File`, one entry for each item: the structure
/// definition where the item is `Item::Struct`, else `None`.
#[verifier::external_body]
fn struct_items<'a>(file: &'a syn::File) -> (r: Vec<Option<&'a syn::ItemStruct>>)
    ensures
        r@.len() == file_items(*file).len(),
        forall|i: int|
            0 <= i < r@.len() ==> match #[trigger] r@[i] {
                Some(item) => file_items(*file)[i] == Some(struct_shape(*item)),
                None => file_items(*file)[i] is None,
            },
{
    file.items.iter().map(|item| match item {
        syn::Item::Struct(s) => Some(s),
        _ => None,
    }).collect()
}

/// For each attribute of a structure, `Attribute::path` and
/// `Path::get_ident`: the attribute's name where its path is a single
/// identifier.
#[verifier::external_body]
fn attr_names(item: &syn::ItemStruct) -> (r: Vec<Option<String>>)
    ensures
        r@.len() == struct_shape(*item).attrs.len(),
        forall|j: int|
            0 <= j < r@.len() ==> text_of(#[trigger] r@[j]) == struct_shape(*item).attrs[j].name,
{
    item.attrs.iter().map(|a| a.path().get_ident().map(|i| i.to_string())).collect()
}

/// `Attribute::parse_nested_meta` on attribute `j`: the path of each nested
/// entry that the parser reaches, as `Path::get_ident` gives it.
#[verifier::external_body]
fn attr_nested(item: &syn::ItemStruct, j: usize) -> (r: Vec<Option<String>>)
    requires
        j < struct_shape(*item).attrs.len(),
    ensures
        texts_of(r@) == struct_shape(*item).attrs[j as int].nested,
{
    let mut names = Vec::new();
    let _ = item.attrs[j].parse_nested_meta(|meta| {
        names.push(meta.path.get_ident().map(|i| i.to_string()));
        Ok(())
    });
    names
}

/// The names of the named fields of a structure (`Fields::Named`), in
/// source order; no entry for a structure of another kind.
#[verifier::external_body]
fn field_names(item: &syn::ItemStruct) -> (r: Vec<Option<String>>)
    ensures
        r@.len() == struct_shape(*item).fields.len(),
        forall|k: int|
            0 <= k < r@.len() ==> text_of(#[trigger] r@[k]) == struct_shape(*item).fields[k].name,
{
    match &item.fields {
        syn::Fields::Named(named) => named.named.iter().map(
            |f| f.ident.as_ref().map(|i| i.to_string()),
        ).collect(),
        _ => Vec::new(),
    }
}

/// Named field `k` of a structure: where its type is `Type::Path`, the
/// identifier of the path's last segment, and the arguments of that segment
/// where they stand in angle brackets. Each argument that is a path type
/// is given by the identifier of its last segment.
#[verifier::external_body]
fn field_type(item: &syn::ItemStruct, k: usize) -> (r: Option<FieldType>)
    requires
        k < struct_shape(*item).fields.len(),
    ensures
        match r {
            Some(t) => struct_shape(*item).fields[k as int].ty == Some(t@),
            None => struct_shape(*item).fields[k as int].ty is None,
        },
{
    let syn::Type::Path(tp) = &item.fields.iter().nth(k)?.ty else { return None };
    let last = tp.path.segments.last()?;
    let arguments = match &last.arguments {
        syn::PathArguments::AngleBracketed(a) => Some(a.args.iter().map(|g| match g {
            syn::GenericArgument::Type(syn::Type::Path(p)) => p.path.segments.last().map(
                |s| s.ident.to_string(),
            ),
            _ => None,
        }).collect()),
        _ => None,
    };
    Some(FieldType { wrapper: last.ident.to_string(), arguments })
}

/// The structure definition behind a parsed one.
fn read_struct(item: &syn::ItemStruct) -> (r: StructDecl)
    ensures
        r@ == struct_shape(*item),
{
    let names = attr_names(item);
    let mut attrs: Vec<AttrDecl> = Vec::new();
    let mut j: usize = 0;
    while j < names.len()
        invariant
            j <= names.len(),
            attrs@.len() == j,
            names@.len() == struct_shape(*item).attrs.len(),
            forall|n: int|
                0 <= n < names@.len() ==> text_of(#[trigger] names@[n]) == struct_shape(
                    *item,
                ).attrs[n].name,
            forall|n: int| 0 <= n < j ==> attrs@[n]@ == struct_shape(*item).attrs[n],
        decreases names.len() - j,
    {
        let nested = attr_nested(item, j);
        attrs.push(AttrDecl { name: names[j].clone(), nested });
        j += 1;
    }
    let field_idents = field_names(item);
    let mut fields: Vec<FieldDecl> = Vec::new();
    let mut k: usize = 0;
    while k < field_idents.len()
        invariant
            k <= field_idents.len(),
            fields@.len() == k,
            field_idents@.len() == struct_shape(*item).fields.len(),
            forall|n: int|
                0 <= n < field_idents@.len() ==> text_of(#[trigger] field_idents@[n])
                    == struct_shape(*item).fields[n].name,
            forall|n: int| 0 <= n < k ==> fields@[n]@ == struct_shape(*item).fields[n],
        decreases field_idents.len() - k,
    {
        let ty = field_type(item, k);
        fields.push(FieldDecl { name: field_idents[k].clone(), ty });
        k += 1;
    }
    let decl = StructDecl { attrs, fields };
    assert(decl@.attrs =~= struct_shape(*item).attrs);
    assert(decl@.fields =~= struct_shape(*item).fields);
    decl
}

/// The structure definitions among a list of items, in their order.
pub open spec fn structs_among(items: Seq<Option<StructShape>>) -> Seq<StructShape>
    decreases items.len(),
{
    if items.len() == 0 {
        Seq::empty()
    } else {
        match items.last() {
            Some(shape) => structs_among(items.drop_last()).push(shape),
            None => structs_among(items.drop_last()),
        }
    }
}

/// Parses a source text and reads its structure definitions; `None` where
/// the text does not parse.
pub fn parse_structs(content: &str) -> (r: Option<Vec<StructDecl>>)
    ensures
        match source_items(content@) {
            Some(items) => r matches Some(decls) && struct_views(decls@) == structs_among(items),
            None => r is None,
        },
{
    let file = match syn::parse_file(content) {
        Ok(file) => file,
        Err(_) => {
            return None;
        },
    };
    let items = struct_items(&file);
    let ghost shapes = file_items(file);
    let mut decls: Vec<StructDecl> = Vec::new();
    let mut i: usize = 0;
    assert(struct_views(decls@) =~= structs_among(shapes.take(0)));
    while i < items.len()
        invariant
            i <= items.len(),
            shapes == file_items(file),
            items@.len() == shapes.len(),
            forall|n: int|
                0 <= n < items@.len() ==> match #[trigger] items@[n] {
                    Some(item) => shapes[n] == Some(struct_shape(*item)),
                    None => shapes[n] is None,
                },
            struct_views(decls@) == structs_among(shapes.take(i as int)),
        decreases items.len() - i,
    {
        proof {
            assert(shapes.take(i + 1).drop_last() =~= shapes.take(i as int));
            assert(shapes.take(i + 1).last() == shapes[i as int]);
        }
        match items[i] {
            Some(item) => {
                let ghost before = struct_views(decls@);
                let decl = read_struct(item);
                decls.push(decl);
                assert(struct_views(decls@) =~= before.push(decl@));
            },
            None => {},
        }
        i += 1;
    }
    assert(shapes.take(i as int) =~= shapes);
    Some(decls)
}

} // verus!
