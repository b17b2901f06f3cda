//! Paths and type expressions as the engine reads them, each with its
//! mathematical view.
//!
//! A type expression is kept as a tree only as far as the engine looks into
//! it: a path, its segments and the types between angle brackets. Everything
//! else is a leaf that holds its source text, so that a type taken out of a
//! wrapper can be written out again unchanged.

use vstd::prelude::*;

verus! {

/// View of a [`GenericArgument`].
pub enum GenericArgumentView {
    Type(TypeExprView),
    Other(Seq<char>),
}

/// View of a [`PathArguments`].
pub enum PathArgumentsView {
    Absent,
    AngleBracketed(Seq<GenericArgumentView>),
    Parenthesized(Seq<char>),
}

/// View of a [`PathSegment`].
pub struct PathSegmentView {
    pub ident: Seq<char>,
    pub arguments: PathArgumentsView,
}

/// View of a [`Path`].
pub struct PathView {
    pub global: bool,
    pub segments: Seq<PathSegmentView>,
}

/// View of a [`QualifiedSelf`].
pub struct QualifiedSelfView {
    pub ty: Seq<char>,
    pub position: nat,
}

/// View of a [`TypeExpr`].
pub enum TypeExprView {
    Path { qself: Option<QualifiedSelfView>, path: PathView },
    Other(Seq<char>),
}

/// One argument between the angle brackets of a path segment.
#[derive(Debug, PartialEq, Eq)]
pub enum GenericArgument {
    /// A type, as in `Vec<u8>`.
    Type(TypeExpr),
    /// Anything else (a lifetime, a constant, a binding), kept as its text.
    Other(String),
}

/// What follows the name of a path segment.
#[derive(Debug, PartialEq, Eq)]
pub enum PathArguments {
    /// Nothing, as in `u8`.
    Absent,
    /// A list in angle brackets, as in `Vec<u8>`.
    AngleBracketed(Vec<GenericArgument>),
    /// A list in parentheses, as in `Fn(u8) -> u8`, kept as its text.
    Parenthesized(String),
}

/// One segment of a path: a name and what follows it.
#[derive(Debug, PartialEq, Eq)]
pub struct PathSegment {
    pub ident: String,
    pub arguments: PathArguments,
}

/// A path: segments separated by `::`.
#[derive(Debug, PartialEq, Eq)]
pub struct Path {
    /// Whether the path starts with `::`.
    pub global: bool,
    pub segments: Vec<PathSegment>,
}

/// The self type in front of a qualified path such as
/// `<T as Iterator>::Item`.
#[derive(Debug, PartialEq, Eq)]
pub struct QualifiedSelf {
    /// The self type, kept as its text.
    pub ty: String,
    /// How many leading segments of the path name the trait.
    pub position: usize,
}

/// A type expression.
#[derive(Debug, PartialEq, Eq)]
pub enum TypeExpr {
    /// A path such as `u8`, `Vec<u8>` or `::std::vec::Vec<u8>`.
    Path { qself: Option<QualifiedSelf>, path: Path },
    /// Any other type (a reference, a tuple, an array), kept as its text.
    Other(String),
}

/// The view of an optional value: the view of what it holds, if anything.
pub open spec fn option_view<T: View>(o: Option<T>) -> Option<T::V> {
    match o {
        Some(t) => Some(t@),
        None => None,
    }
}

pub open spec fn argument_view(a: GenericArgument) -> GenericArgumentView
    decreases a,
{
    match a {
        GenericArgument::Type(t) => GenericArgumentView::Type(type_view(t)),
        GenericArgument::Other(s) => GenericArgumentView::Other(s@),
    }
}

pub open spec fn arguments_view(a: PathArguments) -> PathArgumentsView
    decreases a,
{
    match a {
        PathArguments::Absent => PathArgumentsView::Absent,
        PathArguments::AngleBracketed(list) => PathArgumentsView::AngleBracketed(
            Seq::new(
                list@.len(),
                |i: int|
                    if 0 <= i < list@.len() {
                        argument_view(list@[i])
                    } else {
                        GenericArgumentView::Other(Seq::empty())
                    },
            ),
        ),
        PathArguments::Parenthesized(s) => PathArgumentsView::Parenthesized(s@),
    }
}

pub open spec fn segment_view(s: PathSegment) -> PathSegmentView
    decreases s,
{
    PathSegmentView { ident: s.ident@, arguments: arguments_view(s.arguments) }
}

pub open spec fn path_view(p: Path) -> PathView
    decreases p,
{
    PathView {
        global: p.global,
        segments: Seq::new(
            p.segments@.len(),
            |i: int|
                if 0 <= i < p.segments@.len() {
                    segment_view(p.segments@[i])
                } else {
                    PathSegmentView { ident: Seq::empty(), arguments: PathArgumentsView::Absent }
                },
        ),
    }
}

pub open spec fn type_view(t: TypeExpr) -> TypeExprView
    decreases t,
{
    match t {
        TypeExpr::Path { qself, path } => TypeExprView::Path {
            qself: option_view(qself),
            path: path_view(path),
        },
        TypeExpr::Other(s) => TypeExprView::Other(s@),
    }
}

impl View for GenericArgument {
    type V = GenericArgumentView;

    open spec fn view(&self) -> GenericArgumentView {
        argument_view(*self)
    }
}

impl View for PathArguments {
    type V = PathArgumentsView;

    open spec fn view(&self) -> PathArgumentsView {
        arguments_view(*self)
    }
}

impl View for PathSegment {
    type V = PathSegmentView;

    open spec fn view(&self) -> PathSegmentView {
        segment_view(*self)
    }
}

impl View for Path {
    type V = PathView;

    open spec fn view(&self) -> PathView {
        path_view(*self)
    }
}

impl View for QualifiedSelf {
    type V = QualifiedSelfView;

    open spec fn view(&self) -> QualifiedSelfView {
        QualifiedSelfView { ty: self.ty@, position: self.position as nat }
    }
}

impl View for TypeExpr {
    type V = TypeExprView;

    open spec fn view(&self) -> TypeExprView {
        type_view(*self)
    }
}

fn clone_argument(a: &GenericArgument) -> (r: GenericArgument)
    ensures
        r@ == a@,
    decreases *a,
{
    match a {
        GenericArgument::Type(t) => GenericArgument::Type(clone_type(t)),
        GenericArgument::Other(s) => GenericArgument::Other(s.clone()),
    }
}

fn clone_arguments(a: &PathArguments) -> (r: PathArguments)
    ensures
        r@ == a@,
    decreases *a,
{
    match a {
        PathArguments::Absent => PathArguments::Absent,
        PathArguments::AngleBracketed(list) => {
            let mut copy: Vec<GenericArgument> = Vec::new();
            let mut i: usize = 0;
            while i < list.len()
                invariant
                    i <= list@.len(),
                    copy@.len() == i,
                    forall|j: int| 0 <= j < i ==> (#[trigger] copy@[j])@ == list@[j]@,
                    *a is AngleBracketed,
                    a->AngleBracketed_0 == *list,
                decreases list@.len() - i,
            {
                proof {
                    vstd::std_specs::vec::axiom_vec_index_decreases(*list, i as int);
                }
                copy.push(clone_argument(&list[i]));
                i += 1;
            }
            let r = PathArguments::AngleBracketed(copy);
            assert(r@->AngleBracketed_0 =~= a@->AngleBracketed_0);
            r
        },
        PathArguments::Parenthesized(s) => PathArguments::Parenthesized(s.clone()),
    }
}

fn clone_segment(s: &PathSegment) -> (r: PathSegment)
    ensures
        r@ == s@,
    decreases *s,
{
    PathSegment { ident: s.ident.clone(), arguments: clone_arguments(&s.arguments) }
}

fn clone_path(p: &Path) -> (r: Path)
    ensures
        r@ == p@,
    decreases *p,
{
    let mut copy: Vec<PathSegment> = Vec::new();
    let mut i: usize = 0;
    while i < p.segments.len()
        invariant
            i <= p.segments@.len(),
            copy@.len() == i,
            forall|j: int| 0 <= j < i ==> (#[trigger] copy@[j])@ == p.segments@[j]@,
        decreases p.segments@.len() - i,
    {
        proof {
            vstd::std_specs::vec::axiom_vec_index_decreases(p.segments, i as int);
        }
        copy.push(clone_segment(&p.segments[i]));
        i += 1;
    }
    let r = Path { global: p.global, segments: copy };
    assert(r@.segments =~= p@.segments);
    r
}

fn clone_type(t: &TypeExpr) -> (r: TypeExpr)
    ensures
        r@ == t@,
    decreases *t,
{
    match t {
        TypeExpr::Path { qself, path } => {
            let qself_copy = match qself {
                Some(q) => Some(q.clone()),
                None => None,
            };
            TypeExpr::Path { qself: qself_copy, path: clone_path(path) }
        },
        TypeExpr::Other(s) => TypeExpr::Other(s.clone()),
    }
}

impl Clone for GenericArgument {
    fn clone(&self) -> (r: Self)
        ensures
            r@ == self@,
    {
        clone_argument(self)
    }
}

impl Clone for PathArguments {
    fn clone(&self) -> (r: Self)
        ensures
            r@ == self@,
    {
        clone_arguments(self)
    }
}

impl Clone for PathSegment {
    fn clone(&self) -> (r: Self)
        ensures
            r@ == self@,
    {
        clone_segment(self)
    }
}

impl Clone for Path {
    fn clone(&self) -> (r: Self)
        ensures
            r@ == self@,
    {
        clone_path(self)
    }
}

impl Clone for QualifiedSelf {
    fn clone(&self) -> (r: Self)
        ensures
            r@ == self@,
    {
        QualifiedSelf { ty: self.ty.clone(), position: self.position }
    }
}

impl Clone for TypeExpr {
    fn clone(&self) -> (r: Self)
        ensures
            r@ == self@,
    {
        clone_type(self)
    }
}

} // verus!
