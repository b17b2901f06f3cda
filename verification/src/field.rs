//! The descriptor of one field, and what it contributes to the builder.

use vstd::prelude::*;
use vstd::string::*;
use crate::fragment::{
    AssemblyRule, AssemblyRuleView, AssemblyStep, AssemblyStepView, InitField, InitFieldView,
    InitValue, Setter, SetterAction, SetterView, StorageField, StorageFieldView, StorageKind,
};
use crate::parse_type::{
    classify, directive, parse_builder_attribute, shape_of, Shape, ShapeView,
};
use crate::record::{Anchor, Attribute, AttributeView, Diagnostic, DiagnosticView, Field, FieldView};
use crate::syntax::{option_view, TypeExpr, TypeExprView};

verus! {

/// What the engine knows of one field once its type and annotations are
/// read.
#[derive(Debug, PartialEq, Eq)]
pub struct InputField {
    /// The name of the field.
    pub var: String,
    /// The element type: what one call of the setter takes.
    pub ty: TypeExpr,
    /// Whether the field was declared as an optional.
    pub is_option: bool,
    /// The name of the repeated setter, where an annotation asks for one.
    pub vec_setter: Option<String>,
}

/// View of an [`InputField`].
pub struct InputFieldView {
    pub var: Seq<char>,
    pub ty: TypeExprView,
    pub is_option: bool,
    pub vec_setter: Option<Seq<char>>,
}

impl View for InputField {
    type V = InputFieldView;

    open spec fn view(&self) -> InputFieldView {
        InputFieldView {
            var: self.var@,
            ty: self.ty@,
            is_option: self.is_option,
            vec_setter: option_view(self.vec_setter),
        }
    }
}

/// What the annotations of a field say about a repeated setter, read in
/// order: silent annotations are passed over, and the first one that is not
/// silent decides. It gives the name of the setter together with its own
/// anchor, or its diagnostic.
pub open spec fn requested_setter(attrs: Seq<AttributeView>) -> Result<
    Option<(Seq<char>, Anchor)>,
    DiagnosticView,
>
    decreases attrs.len(),
{
    if attrs.len() == 0 {
        Ok(None)
    } else {
        match directive(attrs[0]) {
            Ok(None) => requested_setter(attrs.drop_first()),
            Ok(Some(name)) => Ok(Some((name, attrs[0].anchor))),
            Err(d) => Err(d),
        }
    }
}

/// The message of the diagnostic for a repeated setter on a field that is
/// no collection.
pub open spec fn collection_required_message() -> Seq<char> {
    "`each` directive requires a collection-typed field"@
}

/// The descriptor of a field without a repeated setter: an optional gives
/// its inner type, any other type stands whole.
pub open spec fn plain_descriptor(field: FieldView) -> InputFieldView {
    match shape_of(field.ty) {
        ShapeView::Optional(inner) => InputFieldView {
            var: field.ident,
            ty: inner,
            is_option: true,
            vec_setter: None,
        },
        _ => InputFieldView { var: field.ident, ty: field.ty, is_option: false, vec_setter: None },
    }
}

/// The descriptor of a field, or the diagnostic that stops it.
///
/// The annotations are read in order up to the first one that is not
/// silent. Where that one is malformed, its diagnostic is the result. Where
/// it names a repeated setter, the field must be a collection, whose element
/// type the setter then takes; on any other field the result is a
/// diagnostic at that annotation. Without such an annotation the field is
/// set whole.
pub open spec fn describe(field: FieldView) -> Result<InputFieldView, DiagnosticView> {
    match requested_setter(field.attrs) {
        Err(d) => Err(d),
        Ok(None) => Ok(plain_descriptor(field)),
        Ok(Some((name, anchor))) => match shape_of(field.ty) {
            ShapeView::Collection(inner) => Ok(
                InputFieldView {
                    var: field.ident,
                    ty: inner,
                    is_option: false,
                    vec_setter: Some(name),
                },
            ),
            _ => Err(DiagnosticView { message: collection_required_message(), anchor }),
        },
    }
}

/// What every descriptor keeps of its field: the name; the optional flag
/// exactly for a field declared as an optional; and a repeated setter only
/// for a field declared as a collection, whose element type the descriptor
/// then holds.
pub proof fn lemma_descriptor_follows_shape(field: FieldView)
    requires
        describe(field) is Ok,
    ensures
        describe(field)->Ok_0.var == field.ident,
        describe(field)->Ok_0.is_option <==> shape_of(field.ty) is Optional,
        describe(field)->Ok_0.is_option ==> shape_of(field.ty) == ShapeView::Optional(
            describe(field)->Ok_0.ty,
        ),
        describe(field)->Ok_0.vec_setter is Some ==> shape_of(field.ty) == ShapeView::Collection(
            describe(field)->Ok_0.ty,
        ),
        !describe(field)->Ok_0.is_option && describe(field)->Ok_0.vec_setter is None ==> describe(
            field,
        )->Ok_0.ty == field.ty,
{
}

/// A repeated setter on a field that is no collection is rejected, with a
/// diagnostic at the annotation that asks for it.
pub proof fn lemma_directive_needs_collection(field: FieldView)
    requires
        requested_setter(field.attrs) matches Ok(Some(_)),
        !(shape_of(field.ty) is Collection),
    ensures
        describe(field) == Err::<InputFieldView, DiagnosticView>(
            DiagnosticView {
                message: "`each` directive requires a collection-typed field"@,
                anchor: requested_setter(field.attrs)->Ok_0->Some_0.1,
            },
        ),
{
}

/// The view of what [`InputField::try_from`] returns.
pub open spec fn describe_view(r: Result<InputField, Diagnostic>) -> Result<
    InputFieldView,
    DiagnosticView,
> {
    match r {
        Ok(f) => Ok(f@),
        Err(d) => Err(d@),
    }
}

/// The storage field that a descriptor gives.
pub open spec fn storage_of(f: InputFieldView) -> StorageFieldView {
    StorageFieldView {
        name: f.var,
        ty: f.ty,
        kind: if f.vec_setter is Some {
            StorageKind::Repeated
        } else {
            StorageKind::Single
        },
    }
}

/// The initial value that a descriptor gives.
pub open spec fn init_of(f: InputFieldView) -> InitFieldView {
    InitFieldView {
        name: f.var,
        value: if f.vec_setter is Some {
            InitValue::Empty
        } else {
            InitValue::Unset
        },
    }
}

/// The setter that a descriptor gives.
pub open spec fn setter_of(f: InputFieldView) -> SetterView {
    match f.vec_setter {
        Some(name) => SetterView {
            name,
            input: f.var + "_item"@,
            ty: f.ty,
            field: f.var,
            action: SetterAction::Append,
        },
        None => SetterView {
            name: f.var,
            input: f.var,
            ty: f.ty,
            field: f.var,
            action: SetterAction::Replace,
        },
    }
}

/// The message with which assembly fails on an unset field.
pub open spec fn unset_message(var: Seq<char>) -> Seq<char> {
    var + " has not been set."@
}

/// The assembly step that a descriptor gives.
pub open spec fn step_of(f: InputFieldView) -> AssemblyStepView {
    AssemblyStepView {
        field: f.var,
        rule: if f.is_option || f.vec_setter is Some {
            AssemblyRuleView::Duplicate
        } else {
            AssemblyRuleView::Require { message: unset_message(f.var) }
        },
    }
}

/// The view of what the scan of a field's annotations returns.
pub open spec fn requested_view(r: Result<Option<(String, Anchor)>, Diagnostic>) -> Result<
    Option<(Seq<char>, Anchor)>,
    DiagnosticView,
> {
    match r {
        Ok(Some(found)) => Ok(Some((found.0@, found.1))),
        Ok(None) => Ok(None),
        Err(d) => Err(d@),
    }
}

fn find_directive(attrs: &Vec<Attribute>) -> (r: Result<Option<(String, Anchor)>, Diagnostic>)
    ensures
        requested_view(r) == requested_setter(Seq::new(attrs@.len(), |i: int| attrs@[i]@)),
{
    let ghost views = Seq::new(attrs@.len(), |i: int| attrs@[i]@);
    let mut i: usize = 0;
    assert(views.skip(0) =~= views);
    while i < attrs.len()
        invariant
            i <= attrs@.len(),
            views == Seq::new(attrs@.len(), |i: int| attrs@[i]@),
            requested_setter(views) == requested_setter(views.skip(i as int)),
        decreases attrs@.len() - i,
    {
        let ghost rest = views.skip(i as int);
        assert(rest[0] == attrs@[i as int]@);
        assert(rest.drop_first() =~= views.skip(i + 1));
        match parse_builder_attribute(&attrs[i]) {
            Ok(Some(name)) => {
                return Ok(Some((name, attrs[i].anchor)));
            },
            Ok(None) => {},
            Err(d) => {
                return Err(d);
            },
        }
        i += 1;
    }
    assert(views.skip(i as int).len() == 0);
    Ok(None)
}

impl InputField {
    /// Reads the type and the annotations of a declared field into its
    /// descriptor.
    pub fn try_from(field: &Field) -> (r: Result<InputField, Diagnostic>)
        ensures
            describe_view(r) == describe(field@),
    {
        let var = field.ident.clone();
        let shape = classify(&field.ty);
        match find_directive(&field.attrs) {
            Err(d) => Err(d),
            Ok(None) => match shape {
                Shape::Optional(inner) => Ok(
                    InputField { var, ty: inner, is_option: true, vec_setter: None },
                ),
                Shape::Collection(_) => Ok(
                    InputField { var, ty: field.ty.clone(), is_option: false, vec_setter: None },
                ),
                Shape::Bare(ty) => Ok(InputField { var, ty, is_option: false, vec_setter: None }),
            },
            Ok(Some((name, anchor))) => match shape {
                Shape::Collection(inner) => Ok(
                    InputField { var, ty: inner, is_option: false, vec_setter: Some(name) },
                ),
                _ => Err(
                    Diagnostic {
                        message: String::from_str(
                            "`each` directive requires a collection-typed field",
                        ),
                        anchor,
                    },
                ),
            },
        }
    }

    /// The storage field of the builder for this field: a collection of the
    /// element type where the field has a repeated setter, an optional of
    /// the element type where it has none.
    pub fn builder_fields(&self) -> (r: StorageField)
        ensures
            r@ == storage_of(self@),
    {
        let kind = if self.vec_setter.is_some() {
            StorageKind::Repeated
        } else {
            StorageKind::Single
        };
        StorageField { name: self.var.clone(), ty: self.ty.clone(), kind }
    }

    /// The initial value of the storage field: the empty collection where
    /// the field has a repeated setter, unset where it has none.
    pub fn builder_init(&self) -> (r: InitField)
        ensures
            r@ == init_of(self@),
    {
        let value = if self.vec_setter.is_some() {
            InitValue::Empty
        } else {
            InitValue::Unset
        };
        InitField { name: self.var.clone(), value }
    }

    /// The one setter of this field. A repeated setter has the name that
    /// the annotation gave and appends its argument; any other setter has
    /// the name of the field and replaces what was set.
    pub fn setter_fns(&self) -> (r: Setter)
        ensures
            r@ == setter_of(self@),
    {
        match &self.vec_setter {
            Some(setter) => Setter {
                name: setter.clone(),
                input: self.var.clone().concat("_item"),
                ty: self.ty.clone(),
                field: self.var.clone(),
                action: SetterAction::Append,
            },
            None => Setter {
                name: self.var.clone(),
                input: self.var.clone(),
                ty: self.ty.clone(),
                field: self.var.clone(),
                action: SetterAction::Replace,
            },
        }
    }

    /// The assembly step of this field. An optional field and one with a
    /// repeated setter are duplicated from storage as they are; any other
    /// field must have been set, and names itself in the message if not.
    pub fn clone_to_struct(&self) -> (r: AssemblyStep)
        ensures
            r@ == step_of(self@),
    {
        let rule = if self.is_option || self.vec_setter.is_some() {
            AssemblyRule::Duplicate
        } else {
            AssemblyRule::Require { message: self.var.clone().concat(" has not been set.") }
        };
        AssemblyStep { field: self.var.clone(), rule }
    }
}

} // verus!
