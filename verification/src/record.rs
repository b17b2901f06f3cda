//! The declaration of a record type as the engine receives it: its fields,
//! their annotations, and the diagnostics that point back at them.

use vstd::prelude::*;
use crate::syntax::{Path, PathView, TypeExpr, TypeExprView};

verus! {

/// Where in the source an annotation stands. The engine never looks inside:
/// it hands the anchor of the offending annotation back in a diagnostic.
#[derive(Clone, Copy, Debug, PartialEq, Eq)]
pub struct Anchor {
    pub id: usize,
}

/// An error found while reading the declaration, with the place it is about.
#[derive(Debug, PartialEq, Eq)]
pub struct Diagnostic {
    pub message: String,
    pub anchor: Anchor,
}

/// View of a [`Diagnostic`].
pub struct DiagnosticView {
    pub message: Seq<char>,
    pub anchor: Anchor,
}

impl View for Diagnostic {
    type V = DiagnosticView;

    open spec fn view(&self) -> DiagnosticView {
        DiagnosticView { message: self.message@, anchor: self.anchor }
    }
}

/// Whether an annotation describes the item that follows it (`#[..]`) or the
/// scope that it stands in (`#![..]`).
#[derive(Clone, Copy, Debug, PartialEq, Eq)]
pub enum AttrStyle {
    Outer,
    Inner,
}

/// A literal value inside an annotation.
#[derive(Debug, PartialEq, Eq)]
pub enum Lit {
    /// A string literal, by its value.
    Str(String),
    /// Any other literal.
    Other,
}

/// View of a [`Lit`].
pub enum LitView {
    Str(Seq<char>),
    Other,
}

impl View for Lit {
    type V = LitView;

    open spec fn view(&self) -> LitView {
        match *self {
            Lit::Str(s) => LitView::Str(s@),
            Lit::Other => LitView::Other,
        }
    }
}

/// One item between the parentheses of an annotation.
#[derive(Debug, PartialEq, Eq)]
pub enum NestedMeta {
    /// `key = literal`.
    NameValue { path: Path, lit: Lit },
    /// Anything else.
    Other,
}

/// View of a [`NestedMeta`].
pub enum NestedMetaView {
    NameValue { path: PathView, lit: LitView },
    Other,
}

impl View for NestedMeta {
    type V = NestedMetaView;

    open spec fn view(&self) -> NestedMetaView {
        match *self {
            NestedMeta::NameValue { path, lit } => NestedMetaView::NameValue {
                path: path@,
                lit: lit@,
            },
            NestedMeta::Other => NestedMetaView::Other,
        }
    }
}

/// What follows the path of an annotation.
#[derive(Debug, PartialEq, Eq)]
pub enum AttrBody {
    /// A list in parentheses, as in `builder(each = "arg")`.
    List(Vec<NestedMeta>),
    /// Nothing, `= literal`, or tokens that are no list of this kind.
    Other,
}

/// View of an [`AttrBody`].
pub enum AttrBodyView {
    List(Seq<NestedMetaView>),
    Other,
}

impl View for AttrBody {
    type V = AttrBodyView;

    open spec fn view(&self) -> AttrBodyView {
        match *self {
            AttrBody::List(nested) => AttrBodyView::List(
                Seq::new(nested@.len(), |i: int| nested@[i]@),
            ),
            AttrBody::Other => AttrBodyView::Other,
        }
    }
}

/// An annotation attached to a field.
#[derive(Debug, PartialEq, Eq)]
pub struct Attribute {
    pub style: AttrStyle,
    pub path: Path,
    pub body: AttrBody,
    pub anchor: Anchor,
}

/// View of an [`Attribute`].
pub struct AttributeView {
    pub style: AttrStyle,
    pub path: PathView,
    pub body: AttrBodyView,
    pub anchor: Anchor,
}

impl View for Attribute {
    type V = AttributeView;

    open spec fn view(&self) -> AttributeView {
        AttributeView {
            style: self.style,
            path: self.path@,
            body: self.body@,
            anchor: self.anchor,
        }
    }
}

/// One named field of a record, as declared.
#[derive(Debug, PartialEq, Eq)]
pub struct Field {
    pub ident: String,
    pub ty: TypeExpr,
    pub attrs: Vec<Attribute>,
}

/// View of a [`Field`].
pub struct FieldView {
    pub ident: Seq<char>,
    pub ty: TypeExprView,
    pub attrs: Seq<AttributeView>,
}

impl View for Field {
    type V = FieldView;

    open spec fn view(&self) -> FieldView {
        FieldView {
            ident: self.ident@,
            ty: self.ty@,
            attrs: Seq::new(self.attrs@.len(), |i: int| self.attrs@[i]@),
        }
    }
}

/// Who may name an item.
#[derive(Debug, PartialEq, Eq)]
pub enum Visibility {
    /// `pub`.
    Public,
    /// `crate`.
    Crate,
    /// `pub(..)`, with the text between the parentheses.
    Restricted(String),
    /// Nothing written.
    Inherited,
}

/// View of a [`Visibility`].
pub enum VisibilityView {
    Public,
    Crate,
    Restricted(Seq<char>),
    Inherited,
}

impl View for Visibility {
    type V = VisibilityView;

    open spec fn view(&self) -> VisibilityView {
        match *self {
            Visibility::Public => VisibilityView::Public,
            Visibility::Crate => VisibilityView::Crate,
            Visibility::Restricted(s) => VisibilityView::Restricted(s@),
            Visibility::Inherited => VisibilityView::Inherited,
        }
    }
}

impl Clone for Visibility {
    fn clone(&self) -> (r: Self)
        ensures
            r@ == self@,
    {
        match self {
            Visibility::Public => Visibility::Public,
            Visibility::Crate => Visibility::Crate,
            Visibility::Restricted(s) => Visibility::Restricted(s.clone()),
            Visibility::Inherited => Visibility::Inherited,
        }
    }
}

/// The declaration of a record type: its visibility, its name and its named
/// fields in the order of the source.
#[derive(Debug, PartialEq, Eq)]
pub struct Record {
    pub vis: Visibility,
    pub ident: String,
    pub fields: Vec<Field>,
}

/// View of a [`Record`].
pub struct RecordView {
    pub vis: VisibilityView,
    pub ident: Seq<char>,
    pub fields: Seq<FieldView>,
}

impl View for Record {
    type V = RecordView;

    open spec fn view(&self) -> RecordView {
        RecordView {
            vis: self.vis@,
            ident: self.ident@,
            fields: Seq::new(self.fields@.len(), |i: int| self.fields@[i]@),
        }
    }
}

} // verus!
