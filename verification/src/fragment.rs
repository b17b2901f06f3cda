//! What the engine lays out for a record: the storage of the builder, its
//! initial value, its setters and the steps of the assembly routine.

use vstd::prelude::*;
use crate::record::{Visibility, VisibilityView};
use crate::syntax::{TypeExpr, TypeExprView};

verus! {

/// How the builder stores a field.
#[derive(Clone, Copy, Debug, PartialEq, Eq)]
pub enum StorageKind {
    /// An optional of the element type: unset, or set to one value.
    Single,
    /// A collection of the element type.
    Repeated,
}

/// One storage field of the builder type.
#[derive(Debug, PartialEq, Eq)]
pub struct StorageField {
    pub name: String,
    /// The element type.
    pub ty: TypeExpr,
    pub kind: StorageKind,
}

/// View of a [`StorageField`].
pub struct StorageFieldView {
    pub name: Seq<char>,
    pub ty: TypeExprView,
    pub kind: StorageKind,
}

impl View for StorageField {
    type V = StorageFieldView;

    open spec fn view(&self) -> StorageFieldView {
        StorageFieldView { name: self.name@, ty: self.ty@, kind: self.kind }
    }
}

/// The initial value of one storage field.
#[derive(Clone, Copy, Debug, PartialEq, Eq)]
pub enum InitValue {
    /// Nothing set.
    Unset,
    /// The empty collection.
    Empty,
}

/// One field of the constructor: a storage field and its initial value.
#[derive(Debug, PartialEq, Eq)]
pub struct InitField {
    pub name: String,
    pub value: InitValue,
}

/// View of an [`InitField`].
pub struct InitFieldView {
    pub name: Seq<char>,
    pub value: InitValue,
}

impl View for InitField {
    type V = InitFieldView;

    open spec fn view(&self) -> InitFieldView {
        InitFieldView { name: self.name@, value: self.value }
    }
}

/// What a setter does with its argument.
#[derive(Clone, Copy, Debug, PartialEq, Eq)]
pub enum SetterAction {
    /// Sets the storage field to the argument, over whatever was there.
    Replace,
    /// Appends the argument to the storage field.
    Append,
}

/// One setter of the builder type. It takes the builder by mutable
/// reference and one argument, and returns the builder.
#[derive(Debug, PartialEq, Eq)]
pub struct Setter {
    /// The name of the setter function.
    pub name: String,
    /// The name of its argument.
    pub input: String,
    /// The type of its argument: the element type.
    pub ty: TypeExpr,
    /// The storage field that it writes.
    pub field: String,
    pub action: SetterAction,
}

/// View of a [`Setter`].
pub struct SetterView {
    pub name: Seq<char>,
    pub input: Seq<char>,
    pub ty: TypeExprView,
    pub field: Seq<char>,
    pub action: SetterAction,
}

impl View for Setter {
    type V = SetterView;

    open spec fn view(&self) -> SetterView {
        SetterView {
            name: self.name@,
            input: self.input@,
            ty: self.ty@,
            field: self.field@,
            action: self.action,
        }
    }
}

/// How the assembly routine fills one field of the record.
#[derive(Debug, PartialEq, Eq)]
pub enum AssemblyRule {
    /// With a duplicate of the storage field, whatever it holds.
    Duplicate,
    /// With a duplicate of the value that the storage field was set to; the
    /// routine fails with this message where it was not set.
    Require { message: String },
}

/// View of an [`AssemblyRule`].
pub enum AssemblyRuleView {
    Duplicate,
    Require { message: Seq<char> },
}

impl View for AssemblyRule {
    type V = AssemblyRuleView;

    open spec fn view(&self) -> AssemblyRuleView {
        match *self {
            AssemblyRule::Duplicate => AssemblyRuleView::Duplicate,
            AssemblyRule::Require { message } => AssemblyRuleView::Require { message: message@ },
        }
    }
}

/// One step of the assembly routine: a field of the record, filled from the
/// storage field of the same name.
#[derive(Debug, PartialEq, Eq)]
pub struct AssemblyStep {
    pub field: String,
    pub rule: AssemblyRule,
}

/// View of an [`AssemblyStep`].
pub struct AssemblyStepView {
    pub field: Seq<char>,
    pub rule: AssemblyRuleView,
}

impl View for AssemblyStep {
    type V = AssemblyStepView;

    open spec fn view(&self) -> AssemblyStepView {
        AssemblyStepView { field: self.field@, rule: self.rule@ }
    }
}

/// The builder laid out for one record.
#[derive(Debug, PartialEq, Eq)]
pub struct BuilderFragment {
    /// The visibility of the builder type: that of the record.
    pub vis: Visibility,
    /// The name of the record type, which gets the constructor function.
    pub record: String,
    /// The name of the builder type.
    pub builder: String,
    /// The fields of the builder type.
    pub storage: Vec<StorageField>,
    /// The value of each storage field in a new builder.
    pub init: Vec<InitField>,
    /// The setters of the builder type.
    pub setters: Vec<Setter>,
    /// The steps of the assembly routine, one for each field of the record.
    pub assembly: Vec<AssemblyStep>,
}

/// View of a [`BuilderFragment`].
pub struct BuilderFragmentView {
    pub vis: VisibilityView,
    pub record: Seq<char>,
    pub builder: Seq<char>,
    pub storage: Seq<StorageFieldView>,
    pub init: Seq<InitFieldView>,
    pub setters: Seq<SetterView>,
    pub assembly: Seq<AssemblyStepView>,
}

impl View for BuilderFragment {
    type V = BuilderFragmentView;

    open spec fn view(&self) -> BuilderFragmentView {
        BuilderFragmentView {
            vis: self.vis@,
            record: self.record@,
            builder: self.builder@,
            storage: Seq::new(self.storage@.len(), |i: int| self.storage@[i]@),
            init: Seq::new(self.init@.len(), |i: int| self.init@[i]@),
            setters: Seq::new(self.setters@.len(), |i: int| self.setters@[i]@),
            assembly: Seq::new(self.assembly@.len(), |i: int| self.assembly@[i]@),
        }
    }
}

} // verus!
