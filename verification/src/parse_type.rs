//! Reading a field's declared type and its annotations: which of the two
//! wrappers a type is, and which repeated setter an annotation asks for.

use vstd::prelude::*;
use vstd::string::*;
use crate::record::{
    Attribute, AttrBody, AttrBodyView, AttrStyle, AttributeView, Diagnostic, DiagnosticView, Lit,
    LitView, NestedMeta, NestedMetaView,
};
use crate::syntax::{
    GenericArgument, GenericArgumentView, Path, PathArguments, PathArgumentsView, PathSegmentView,
    PathView, TypeExpr, TypeExprView,
};

verus! {

/// The bracketed arguments of a wrapper written as `name<..>` or as
/// `std::module::name<..>`; `None` for every other type.
pub open spec fn wrapper_arguments(
    ty: TypeExprView,
    module: Seq<char>,
    name: Seq<char>,
) -> Option<PathArgumentsView> {
    match ty {
        TypeExprView::Path { qself: None, path } => {
            if path.segments.len() == 1 && path.segments[0].ident == name {
                Some(path.segments[0].arguments)
            } else if path.segments.len() == 3 && path.segments[0].ident == "std"@
                && path.segments[1].ident == module && path.segments[2].ident == name {
                Some(path.segments[2].arguments)
            } else {
                None
            }
        },
        _ => None,
    }
}

/// The type inside a wrapper: the single bracketed argument, if it is a type.
pub open spec fn wrapped_type(ty: TypeExprView, module: Seq<char>, name: Seq<char>) -> Option<
    TypeExprView,
> {
    match wrapper_arguments(ty, module, name) {
        Some(PathArgumentsView::AngleBracketed(list)) => {
            if list.len() == 1 {
                match list[0] {
                    GenericArgumentView::Type(inner) => Some(inner),
                    GenericArgumentView::Other(_) => None,
                }
            } else {
                None
            }
        },
        _ => None,
    }
}

/// `T` for a type written `Optional<T>` or `std::option::Optional<T>`.
pub open spec fn optional_inner(ty: TypeExprView) -> Option<TypeExprView> {
    wrapped_type(ty, "option"@, "Optional"@)
}

/// `T` for a type written `Collection<T>` or `std::vec::Collection<T>`.
pub open spec fn collection_inner(ty: TypeExprView) -> Option<TypeExprView> {
    wrapped_type(ty, "vec"@, "Collection"@)
}

fn is_named(ident: &String, name: &str) -> (r: bool)
    ensures
        r == (ident@ == name@),
{
    *ident == String::from_str(name)
}

fn detect_wrapper(ty: &TypeExpr, module: &str, name: &str) -> (r: Option<TypeExpr>)
    ensures
        crate::syntax::option_view(r) == wrapped_type(ty@, module@, name@),
{
    match ty {
        TypeExpr::Path { qself, path } => {
            if qself.is_some() {
                return None;
            }
            let n = path.segments.len();
            let arguments = if n == 1 && is_named(&path.segments[0].ident, name) {
                &path.segments[0].arguments
            } else if n == 3 && is_named(&path.segments[0].ident, "std") && is_named(
                &path.segments[1].ident,
                module,
            ) && is_named(&path.segments[2].ident, name) {
                &path.segments[2].arguments
            } else {
                return None;
            };
            match arguments {
                PathArguments::AngleBracketed(list) => {
                    if list.len() == 1 {
                        match &list[0] {
                            GenericArgument::Type(inner) => Some(inner.clone()),
                            GenericArgument::Other(_) => None,
                        }
                    } else {
                        None
                    }
                },
                _ => None,
            }
        },
        TypeExpr::Other(_) => None,
    }
}

/// The element type of a collection: `Some(T)` for a type written
/// `Collection<T>` or `std::vec::Collection<T>`, `None` for any other type.
pub fn detect_vec(ty: &TypeExpr) -> (r: Option<TypeExpr>)
    ensures
        crate::syntax::option_view(r) == collection_inner(ty@),
{
    detect_wrapper(ty, "vec", "Collection")
}

/// The type inside an optional: `Some(T)` for a type written `Optional<T>`
/// or `std::option::Optional<T>`, `None` for any other type.
pub fn detect_option(ty: &TypeExpr) -> (r: Option<TypeExpr>)
    ensures
        crate::syntax::option_view(r) == optional_inner(ty@),
{
    detect_wrapper(ty, "option", "Optional")
}

/// The shape of a declared type: one of the two wrappers around an inner
/// type, or a bare type.
#[derive(Debug, PartialEq, Eq)]
pub enum Shape {
    /// Neither wrapper: the declared type itself.
    Bare(TypeExpr),
    /// An optional of the type held.
    Optional(TypeExpr),
    /// A collection of the type held.
    Collection(TypeExpr),
}

/// View of a [`Shape`].
pub enum ShapeView {
    Bare(TypeExprView),
    Optional(TypeExprView),
    Collection(TypeExprView),
}

impl View for Shape {
    type V = ShapeView;

    open spec fn view(&self) -> ShapeView {
        match *self {
            Shape::Bare(t) => ShapeView::Bare(t@),
            Shape::Optional(t) => ShapeView::Optional(t@),
            Shape::Collection(t) => ShapeView::Collection(t@),
        }
    }
}

/// The shape of a declared type. Only the outermost wrapper counts: what it
/// holds is taken as it stands.
pub open spec fn shape_of(ty: TypeExprView) -> ShapeView {
    match optional_inner(ty) {
        Some(inner) => ShapeView::Optional(inner),
        None => match collection_inner(ty) {
            Some(inner) => ShapeView::Collection(inner),
            None => ShapeView::Bare(ty),
        },
    }
}

/// Classifies a declared type as an optional, a collection or a bare type.
pub fn classify(ty: &TypeExpr) -> (r: Shape)
    ensures
        r@ == shape_of(ty@),
{
    match detect_option(ty) {
        Some(inner) => Shape::Optional(inner),
        None => match detect_vec(ty) {
            Some(inner) => Shape::Collection(inner),
            None => Shape::Bare(ty.clone()),
        },
    }
}

/// A path segment without arguments.
pub open spec fn plain_segment(ident: Seq<char>) -> PathSegmentView {
    PathSegmentView { ident, arguments: PathArgumentsView::Absent }
}

/// The segment `name<inner>`.
pub open spec fn wrapper_segment(name: Seq<char>, inner: TypeExprView) -> PathSegmentView {
    PathSegmentView {
        ident: name,
        arguments: PathArgumentsView::AngleBracketed(seq![GenericArgumentView::Type(inner)]),
    }
}

/// The type written `name<inner>`.
pub open spec fn short_spelling(
    name: Seq<char>,
    inner: TypeExprView,
    global: bool,
) -> TypeExprView {
    TypeExprView::Path {
        qself: None,
        path: PathView { global, segments: seq![wrapper_segment(name, inner)] },
    }
}

/// The type written `std::module::name<inner>`.
pub open spec fn full_spelling(
    module: Seq<char>,
    name: Seq<char>,
    inner: TypeExprView,
    global: bool,
) -> TypeExprView {
    TypeExprView::Path {
        qself: None,
        path: PathView {
            global,
            segments: seq![
                plain_segment("std"@),
                plain_segment(module),
                wrapper_segment(name, inner),
            ],
        },
    }
}

/// The short and the fully qualified spelling of an optional classify alike:
/// both are an optional of the type between the brackets, whatever that type
/// is and whether or not the path starts with `::`.
pub proof fn lemma_optional_spellings_agree(inner: TypeExprView, global: bool)
    ensures
        shape_of(short_spelling("Optional"@, inner, global)) == ShapeView::Optional(inner),
        shape_of(full_spelling("option"@, "Optional"@, inner, global)) == ShapeView::Optional(
            inner,
        ),
{
}

/// The short and the fully qualified spelling of a collection classify alike:
/// both are a collection of the type between the brackets.
pub proof fn lemma_collection_spellings_agree(inner: TypeExprView, global: bool)
    ensures
        shape_of(short_spelling("Collection"@, inner, global)) == ShapeView::Collection(inner),
        shape_of(full_spelling("vec"@, "Collection"@, inner, global)) == ShapeView::Collection(
            inner,
        ),
{
    reveal_strlit("Optional");
    reveal_strlit("Collection");
    assert("Optional"@.len() != "Collection"@.len());
}

/// A type that is neither spelling of either wrapper is bare, and is its own
/// payload.
pub proof fn lemma_unrecognized_is_bare(ty: TypeExprView)
    requires
        optional_inner(ty) is None,
        collection_inner(ty) is None,
    ensures
        shape_of(ty) == ShapeView::Bare(ty),
{
}

/// Only the outermost wrapper is taken off: an optional of an optional is an
/// optional whose payload is the inner optional, untouched.
pub proof fn lemma_no_recursive_unwrapping(inner: TypeExprView)
    ensures
        shape_of(short_spelling("Optional"@, short_spelling("Optional"@, inner, false), false))
            == ShapeView::Optional(short_spelling("Optional"@, inner, false)),
{
}

/// Whether a path is the single segment `name`, with no arguments.
pub open spec fn is_plain_name(path: PathView, name: Seq<char>) -> bool {
    &&& path.segments.len() == 1
    &&& path.segments[0].ident == name
    &&& path.segments[0].arguments is Absent
}

/// The setter name that the body of a `builder` annotation asks for: the
/// string `s` of a body written `(each = "s")`, with nothing else between
/// the parentheses. `None` for every other body.
pub open spec fn each_name(body: AttrBodyView) -> Option<Seq<char>> {
    match body {
        AttrBodyView::List(nested) => {
            if nested.len() == 1 {
                match nested[0] {
                    NestedMetaView::NameValue { path, lit: LitView::Str(value) } => {
                        if is_plain_name(path, "each"@) {
                            Some(value)
                        } else {
                            None
                        }
                    },
                    _ => None,
                }
            } else {
                None
            }
        },
        AttrBodyView::Other => None,
    }
}

/// The message of the diagnostic for a `builder` annotation that is not of
/// the one accepted form.
pub open spec fn expected_message() -> Seq<char> {
    "expected `builder(each = \"...\")`"@
}

/// What an annotation says about a repeated setter.
///
/// An inner annotation, and one whose path is not the plain name `builder`,
/// says nothing. An outer `builder` annotation either names the setter, or
/// is malformed and gives a diagnostic at its own anchor.
pub open spec fn directive(attr: AttributeView) -> Result<Option<Seq<char>>, DiagnosticView> {
    if attr.style is Inner || !is_plain_name(attr.path, "builder"@) {
        Ok(None)
    } else {
        match each_name(attr.body) {
            Some(name) => Ok(Some(name)),
            None => Err(DiagnosticView { message: expected_message(), anchor: attr.anchor }),
        }
    }
}

/// The view of what [`parse_builder_attribute`] returns.
pub open spec fn directive_view(r: Result<Option<String>, Diagnostic>) -> Result<
    Option<Seq<char>>,
    DiagnosticView,
> {
    match r {
        Ok(Some(name)) => Ok(Some(name@)),
        Ok(None) => Ok(None),
        Err(d) => Err(d@),
    }
}

/// Whether an item is written `key = literal` with a key that is not the
/// plain name `each`.
pub open spec fn has_other_key(item: NestedMetaView) -> bool {
    item matches NestedMetaView::NameValue { path, lit } && !is_plain_name(path, "each"@)
}

/// A `builder` annotation whose one item has a value under any key
/// but `each` is reported: the result is the diagnostic with the fixed
/// message, at the anchor of the annotation.
pub proof fn lemma_wrong_key_is_reported(attr: AttributeView)
    requires
        attr.style is Outer,
        is_plain_name(attr.path, "builder"@),
        attr.body matches AttrBodyView::List(nested) && nested.len() == 1 && has_other_key(
            nested[0],
        ),
    ensures
        directive(attr) == Err::<Option<Seq<char>>, DiagnosticView>(
            DiagnosticView {
                message: "expected `builder(each = \"...\")`"@,
                anchor: attr.anchor,
            },
        ),
{
}

/// An annotation that is not the engine's is passed over without a
/// diagnostic, whatever it holds.
pub proof fn lemma_foreign_annotation_is_silent(attr: AttributeView)
    requires
        attr.style is Inner || !is_plain_name(attr.path, "builder"@),
    ensures
        directive(attr) == Ok::<Option<Seq<char>>, DiagnosticView>(None),
{
}

fn is_plain(path: &Path, name: &str) -> (r: bool)
    ensures
        r == is_plain_name(path@, name@),
{
    if path.segments.len() != 1 {
        return false;
    }
    let segment = &path.segments[0];
    match &segment.arguments {
        PathArguments::Absent => is_named(&segment.ident, name),
        _ => false,
    }
}

fn parse_each(body: &AttrBody) -> (r: Option<String>)
    ensures
        crate::syntax::option_view(r) == each_name(body@),
{
    match body {
        AttrBody::List(nested) => {
            if nested.len() != 1 {
                return None;
            }
            match &nested[0] {
                NestedMeta::NameValue { path, lit: Lit::Str(value) } => {
                    if is_plain(path, "each") {
                        Some(value.clone())
                    } else {
                        None
                    }
                },
                _ => None,
            }
        },
        AttrBody::Other => None,
    }
}

/// Reads one annotation of a field.
///
/// Returns `Ok(None)` for an annotation that is not the engine's: an inner
/// one, or one whose path is not the plain name `builder`. For an outer
/// `builder` annotation of the form `builder(each = "name")` it returns the
/// name of the repeated setter. Any other `builder` annotation is malformed:
/// the result is a diagnostic with the fixed message, anchored at the
/// annotation.
pub fn parse_builder_attribute(attr: &Attribute) -> (r: Result<Option<String>, Diagnostic>)
    ensures
        directive_view(r) == directive(attr@),
{
    if matches!(attr.style, AttrStyle::Inner) {
        return Ok(None);
    }
    if !is_plain(&attr.path, "builder") {
        return Ok(None);
    }
    match parse_each(&attr.body) {
        Some(name) => Ok(Some(name)),
        None => Err(
            Diagnostic {
                message: String::from_str("expected `builder(each = \"...\")`"),
                anchor: attr.anchor,
            },
        ),
    }
}

} // verus!
