//! The source resolver: which record type stands behind each account field
//! of the program's account-context structures.

use vstd::prelude::*;
use vstd::string::*;
use crate::error::{ErrorView, HarnessError};
use crate::resolution::TypeResolutionMap;
use crate::shapes::{
    attr_views, field_views, struct_views, AttrDecl, AttrShape, FieldDecl, FieldShape, StructDecl,
    StructShape,
};
use crate::syntax::{parse_structs, source_items, structs_among};
use crate::text::{equal_text, lists, text_of, texts_of};

verus! {

/// Whether an attribute is a `derive` that lists `Accounts`.
pub open spec fn is_accounts_derive(attr: AttrShape) -> bool {
    attr.name == Some("derive"@) && attr.nested.contains(Some("Accounts"@))
}

/// Whether a structure carries the account-context marker: one of its
/// attributes is a `derive` that lists `Accounts`.
pub open spec fn derives_accounts(attrs: Seq<AttrShape>) -> bool {
    exists|j: int| 0 <= j < attrs.len() && is_accounts_derive(#[trigger] attrs[j])
}

/// What a field records: for an `Account` or `Program` container with two
/// parameters, the field's name and the name of the second parameter's
/// type; for a `Signer` container with one parameter, the field's name and
/// `Signer`; nothing for any other field.
pub open spec fn recorded_type(field: FieldShape) -> Option<(Seq<char>, Seq<char>)> {
    match (field.name, field.ty) {
        (Some(name), Some(ty)) => match ty.arguments {
            Some(arguments) => {
                if ty.wrapper == "Account"@ || ty.wrapper == "Program"@ {
                    if arguments.len() == 2 {
                        match arguments[1] {
                            Some(record) => Some((name, record)),
                            None => None,
                        }
                    } else {
                        None
                    }
                } else if ty.wrapper == "Signer"@ && arguments.len() == 1 {
                    Some((name, "Signer"@))
                } else {
                    None
                }
            },
            None => None,
        },
        _ => None,
    }
}

/// The map after the fields were gone through in order: a later field of a
/// name replaces what was recorded for it.
pub open spec fn with_fields(fields: Seq<FieldShape>, map: Map<Seq<char>, Seq<char>>) -> Map<
    Seq<char>,
    Seq<char>,
>
    decreases fields.len(),
{
    if fields.len() == 0 {
        map
    } else {
        let done = with_fields(fields.drop_last(), map);
        match recorded_type(fields.last()) {
            Some((name, record)) => done.insert(name, record),
            None => done,
        }
    }
}

/// The map after the structures were gone through in order. Only a
/// structure with the account-context marker records its fields.
pub open spec fn with_structs(structs: Seq<StructShape>, map: Map<Seq<char>, Seq<char>>) -> Map<
    Seq<char>,
    Seq<char>,
>
    decreases structs.len(),
{
    if structs.len() == 0 {
        map
    } else {
        let done = with_structs(structs.drop_last(), map);
        if derives_accounts(structs.last().attrs) {
            with_fields(structs.last().fields, done)
        } else {
            done
        }
    }
}

/// Whether the attributes hold a `derive` that lists `Accounts`.
pub fn has_derive_accounts_attr(attrs: &Vec<AttrDecl>) -> (r: bool)
    ensures
        r == derives_accounts(attr_views(attrs@)),
{
    let mut j: usize = 0;
    while j < attrs.len()
        invariant
            j <= attrs.len(),
            forall|n: int| 0 <= n < j ==> !is_accounts_derive(#[trigger] attr_views(attrs@)[n]),
        decreases attrs.len() - j,
    {
        let attr = &attrs[j];
        let is_derive = match &attr.name {
            Some(name) => equal_text(name.as_str(), "derive"),
            None => false,
        };
        if is_derive && lists(&attr.nested, "Accounts") {
            assert(is_accounts_derive(attr_views(attrs@)[j as int]));
            return true;
        }
        j += 1;
    }
    false
}

/// What a field records, if anything: the field's name and a type name.
pub fn field_record(field: &FieldDecl) -> (r: Option<(String, String)>)
    ensures
        match recorded_type(field@) {
            Some((name, record)) => r matches Some(pair) && pair.0@ == name && pair.1@
                == record,
            None => r is None,
        },
{
    let name = match &field.name {
        Some(name) => name,
        None => {
            return None;
        },
    };
    let ty = match &field.ty {
        Some(ty) => ty,
        None => {
            return None;
        },
    };
    let arguments = match &ty.arguments {
        Some(arguments) => arguments,
        None => {
            return None;
        },
    };
    assert(field@.ty->0.arguments->0 == texts_of(arguments@));
    if equal_text(ty.wrapper.as_str(), "Account") || equal_text(ty.wrapper.as_str(), "Program") {
        if arguments.len() == 2 {
            assert(texts_of(arguments@)[1] == text_of(arguments@[1]));
            match &arguments[1] {
                Some(record) => Some((name.clone(), record.clone())),
                None => None,
            }
        } else {
            None
        }
    } else if equal_text(ty.wrapper.as_str(), "Signer") && arguments.len() == 1 {
        Some((name.clone(), String::from_str("Signer")))
    } else {
        None
    }
}

/// Goes through the structures of one source file in order and records in
/// `map` the account fields of each structure that carries the
/// account-context marker.
pub fn extract_from_file(file: &Vec<StructDecl>, map: &mut TypeResolutionMap)
    ensures
        final(map)@ == with_structs(struct_views(file@), old(map)@),
{
    let ghost all = struct_views(file@);
    let mut i: usize = 0;
    assert(all.take(0) =~= Seq::<StructShape>::empty());
    while i < file.len()
        invariant
            i <= file.len(),
            all == struct_views(file@),
            map@ == with_structs(all.take(i as int), old(map)@),
        decreases file.len() - i,
    {
        proof {
            assert(all.take(i + 1).drop_last() =~= all.take(i as int));
            assert(all.take(i + 1).last() == file@[i as int]@);
        }
        let decl = &file[i];
        if has_derive_accounts_attr(&decl.attrs) {
            let ghost start = map@;
            let ghost fields = field_views(decl.fields@);
            let mut k: usize = 0;
            assert(fields.take(0) =~= Seq::<FieldShape>::empty());
            while k < decl.fields.len()
                invariant
                    k <= decl.fields.len(),
                    fields == field_views(decl.fields@),
                    map@ == with_fields(fields.take(k as int), start),
                decreases decl.fields.len() - k,
            {
                proof {
                    assert(fields.take(k + 1).drop_last() =~= fields.take(k as int));
                    assert(fields.take(k + 1).last() == decl.fields@[k as int]@);
                }
                match field_record(&decl.fields[k]) {
                    Some(pair) => {
                        map.insert(pair.0, pair.1);
                    },
                    None => {},
                }
                k += 1;
            }
            assert(fields.take(k as int) =~= fields);
        }
        i += 1;
    }
    assert(all.take(i as int) =~= all);
}

/// One file found below the scan root: its file name and its text.
#[derive(Debug, Clone, PartialEq, Eq)]
pub struct SourceFile {
    pub name: String,
    pub content: String,
}

/// Whether a file name has the extension `rs`: it ends with `.rs` and
/// something stands before that dot.
pub open spec fn is_rust_source_name(name: Seq<char>) -> bool {
    name.len() > 3 && name.subrange(name.len() - 3, name.len() as int) == seq!['.', 'r', 's']
}

/// Whether a file name has the extension `rs`.
pub fn is_rust_source(name: &str) -> (r: bool)
    ensures
        r == is_rust_source_name(name@),
{
    let n = name.unicode_len();
    if n <= 3 {
        return false;
    }
    let r = name.get_char(n - 3) == '.' && name.get_char(n - 2) == 'r' && name.get_char(n - 1)
        == 's';
    proof {
        let tail = name@.subrange(n - 3, n as int);
        assert(tail[0] == name@[n - 3] && tail[1] == name@[n - 2] && tail[2] == name@[n - 1]);
        if r {
            assert(tail =~= seq!['.', 'r', 's']);
        } else {
            assert(seq!['.', 'r', 's'][0] == '.' && seq!['.', 'r', 's'][1] == 'r' && seq![
                '.',
                'r',
                's',
            ][2] == 's');
        }
    }
    r
}

/// The map after one file: a file whose name has not the extension `rs`, or
/// whose text does not parse, leaves the map as it is.
pub open spec fn with_source(name: Seq<char>, content: Seq<char>, map: Map<Seq<char>, Seq<char>>) -> Map<
    Seq<char>,
    Seq<char>,
> {
    if is_rust_source_name(name) {
        match source_items(content) {
            Some(items) => with_structs(structs_among(items), map),
            None => map,
        }
    } else {
        map
    }
}

/// The map after the files were gone through in scan order: what a later
/// file records for a name replaces what an earlier one recorded.
pub open spec fn with_sources(files: Seq<SourceFile>, map: Map<Seq<char>, Seq<char>>) -> Map<
    Seq<char>,
    Seq<char>,
>
    decreases files.len(),
{
    if files.len() == 0 {
        map
    } else {
        with_source(
            files.last().name@,
            files.last().content@,
            with_sources(files.drop_last(), map),
        )
    }
}

/// Builds the map of account types from the files found below
/// `source_dir`, given in scan order; `listing` is `None` where that
/// directory does not exist, and only then the scan fails. A scan that
/// finds nothing gives the empty map.
pub fn extract_account_struct_map(source_dir: &str, listing: &Option<Vec<SourceFile>>) -> (r: Result<
    TypeResolutionMap,
    HarnessError,
>)
    ensures
        match *listing {
            Some(files) => r matches Ok(map) && map@ == with_sources(
                files@,
                Map::<Seq<char>, Seq<char>>::empty(),
            ),
            None => r matches Err(e) && e@ == (ErrorView::SourceScan { path: source_dir@ }),
        },
{
    let files = match listing {
        Some(files) => files,
        None => {
            return Err(HarnessError::SourceScan { path: String::from_str(source_dir) });
        },
    };
    let mut map = TypeResolutionMap::new();
    let ghost empty = Map::<Seq<char>, Seq<char>>::empty();
    let mut i: usize = 0;
    assert(files@.take(0) =~= Seq::<SourceFile>::empty());
    while i < files.len()
        invariant
            i <= files.len(),
            empty == Map::<Seq<char>, Seq<char>>::empty(),
            map@ == with_sources(files@.take(i as int), empty),
        decreases files.len() - i,
    {
        proof {
            assert(files@.take(i + 1).drop_last() =~= files@.take(i as int));
            assert(files@.take(i + 1).last() == files@[i as int]);
        }
        let file = &files[i];
        if is_rust_source(file.name.as_str()) {
            match parse_structs(file.content.as_str()) {
                Some(decls) => {
                    extract_from_file(&decls, &mut map);
                },
                None => {},
            }
        }
        i += 1;
    }
    assert(files@.take(i as int) =~= files@);
    Ok(map)
}

} // verus!
