//! What the resolver reads of a source file: for each structure its
//! attributes and its named fields, as plain values.

use vstd::prelude::*;
use vstd::string::*;
use crate::text::{text_of, texts_of};

verus! {

/// An attribute: its name where its path is a single identifier, and the
/// names listed in its parentheses, each where it is a single identifier.
pub struct AttrShape {
    pub name: Option<Seq<char>>,
    pub nested: Seq<Option<Seq<char>>>,
}

/// The type of a field where it is a path: the identifier of the path's last
/// segment and, where that segment has angle brackets, its arguments. An
/// argument that is itself a path type is given by the identifier of its
/// last segment; any other argument is `None`.
pub struct TypeShape {
    pub wrapper: Seq<char>,
    pub arguments: Option<Seq<Option<Seq<char>>>>,
}

/// A named field: its name and, where its type is a path, the type's shape.
pub struct FieldShape {
    pub name: Option<Seq<char>>,
    pub ty: Option<TypeShape>,
}

/// A structure definition: its attributes and its named fields, in source
/// order. A structure without named fields has none here.
pub struct StructShape {
    pub attrs: Seq<AttrShape>,
    pub fields: Seq<FieldShape>,
}

/// An attribute as it was read; see `AttrShape`.
#[derive(Debug, Clone, PartialEq, Eq)]
pub struct AttrDecl {
    pub name: Option<String>,
    pub nested: Vec<Option<String>>,
}

/// The type of a field as it was read; see `TypeShape`.
#[derive(Debug, Clone, PartialEq, Eq)]
pub struct FieldType {
    pub wrapper: String,
    pub arguments: Option<Vec<Option<String>>>,
}

/// A named field as it was read; see `FieldShape`.
#[derive(Debug, Clone, PartialEq, Eq)]
pub struct FieldDecl {
    pub name: Option<String>,
    pub ty: Option<FieldType>,
}

/// A structure definition as it was read; see `StructShape`.
#[derive(Debug, Clone, PartialEq, Eq)]
pub struct StructDecl {
    pub attrs: Vec<AttrDecl>,
    pub fields: Vec<FieldDecl>,
}

impl View for AttrDecl {
    type V = AttrShape;

    open spec fn view(&self) -> AttrShape {
        AttrShape { name: text_of(self.name), nested: texts_of(self.nested@) }
    }
}

impl View for FieldType {
    type V = TypeShape;

    open spec fn view(&self) -> TypeShape {
        TypeShape {
            wrapper: self.wrapper@,
            arguments: match self.arguments {
                Some(list) => Some(texts_of(list@)),
                None => None,
            },
        }
    }
}

impl View for FieldDecl {
    type V = FieldShape;

    open spec fn view(&self) -> FieldShape {
        FieldShape {
            name: text_of(self.name),
            ty: match self.ty {
                Some(t) => Some(t@),
                None => None,
            },
        }
    }
}

/// The shapes of a list of attributes.
pub open spec fn attr_views(attrs: Seq<AttrDecl>) -> Seq<AttrShape> {
    Seq::new(attrs.len(), |i: int| attrs[i]@)
}

/// The shapes of a list of fields.
pub open spec fn field_views(fields: Seq<FieldDecl>) -> Seq<FieldShape> {
    Seq::new(fields.len(), |i: int| fields[i]@)
}

impl View for StructDecl {
    type V = StructShape;

    open spec fn view(&self) -> StructShape {
        StructShape { attrs: attr_views(self.attrs@), fields: field_views(self.fields@) }
    }
}

/// The shapes of a list of structure definitions.
pub open spec fn struct_views(decls: Seq<StructDecl>) -> Seq<StructShape> {
    Seq::new(decls.len(), |i: int| decls[i]@)
}

} // verus!
