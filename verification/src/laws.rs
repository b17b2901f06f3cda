//! What holds of every builder that the engine lays out, from the
//! declaration of the record to the record assembled at run time.

use vstd::prelude::*;
use crate::derive::{
    describe_all, expansion, layout, lemma_describe_all_fields, lemma_describe_all_ok,
};
use crate::field::{
    describe, init_of, requested_setter, setter_of, step_of, storage_of, unset_message,
    InputFieldView,
};
use crate::fragment::{BuilderFragmentView, SetterAction};
use crate::parse_type::{shape_of, ShapeView};
use crate::record::{Anchor, DiagnosticView, FieldView, RecordView, VisibilityView};
use crate::runtime::{
    arguments, coherent, coherent_at, last_argument, lemma_assemble_err, lemma_assemble_ok,
    lemma_assembled_fields, lemma_slots_after_calls, slot_after, BuilderView, FieldValueView,
};

verus! {

/// Every layout that the engine makes is coherent, so a builder can run it.
pub proof fn lemma_layout_is_coherent(
    vis: VisibilityView,
    ident: Seq<char>,
    fields: Seq<InputFieldView>,
)
    ensures
        coherent(layout(vis, ident, fields)),
{
    let plan = layout(vis, ident, fields);
    assert forall|i: int| 0 <= i < plan.storage.len() implies coherent_at(plan, i) by {}
}

/// What the assembly step of a field gives after a series of calls on a new
/// builder, where the field stands at position `i`.
///
/// A field with a repeated setter gives every value handed to that setter,
/// in the order of the calls. An optional field gives the value of the last
/// call of its setter, or nothing. Any other field gives the value of the
/// last call of its setter, and fails with its message where there was no
/// such call.
pub open spec fn field_after<V>(f: InputFieldView, calls: Seq<(int, V)>, i: int) -> Result<
    FieldValueView<V>,
    Seq<char>,
> {
    if f.vec_setter is Some {
        Ok(FieldValueView::Collection(arguments(calls, i)))
    } else if f.is_option {
        Ok(FieldValueView::Optional(last_argument(calls, i)))
    } else {
        match last_argument(calls, i) {
            Some(value) => Ok(FieldValueView::Required(value)),
            None => Err(unset_message(f.var)),
        }
    }
}

/// The builder of a layout after a series of calls on a new builder.
pub open spec fn run<V>(plan: BuilderFragmentView, calls: Seq<(int, V)>) -> BuilderView<V> {
    BuilderView::<V>::new(plan).set_all(calls)
}

/// After any series of calls on a new builder, each assembly step gives
/// what the calls of its own field's setter provided.
pub proof fn lemma_step_after_calls<V>(
    vis: VisibilityView,
    ident: Seq<char>,
    fields: Seq<InputFieldView>,
    calls: Seq<(int, V)>,
)
    ensures
        run(layout(vis, ident, fields), calls).wf(),
        run(layout(vis, ident, fields), calls).plan == layout(vis, ident, fields),
        forall|i: int|
            0 <= i < fields.len() ==> (#[trigger] run(
                layout(vis, ident, fields),
                calls,
            ).slots[i]).produce(layout(vis, ident, fields).assembly[i].rule) == field_after(
                fields[i],
                calls,
                i,
            ),
{
    let plan = layout(vis, ident, fields);
    lemma_layout_is_coherent(vis, ident, fields);
    lemma_slots_after_calls::<V>(plan, calls);
    let b = run(plan, calls);
    assert forall|i: int| 0 <= i < fields.len() implies (#[trigger] b.slots[i]).produce(
        plan.assembly[i].rule,
    ) == field_after(fields[i], calls, i) by {
        assert(b.slots[i] == slot_after(plan.setters[i].action, calls, i));
    }
}

/// Assembly after any series of calls on a new builder.
///
/// Where every field gives a value, the record holds those values in the
/// order of the fields. Otherwise assembly fails with the message of the
/// first field, in the order of the fields, that gives none.
pub proof fn lemma_build_after_calls<V>(
    vis: VisibilityView,
    ident: Seq<char>,
    fields: Seq<InputFieldView>,
    calls: Seq<(int, V)>,
)
    ensures
        (forall|i: int| 0 <= i < fields.len() ==> field_after(#[trigger] fields[i], calls, i) is Ok)
            ==> run(layout(vis, ident, fields), calls).build() == Ok::<
            Seq<FieldValueView<V>>,
            Seq<char>,
        >(Seq::new(fields.len(), |i: int| field_after(fields[i], calls, i)->Ok_0)),
        forall|i: int|
            0 <= i < fields.len() && field_after(#[trigger] fields[i], calls, i) is Err && (forall|
                j: int,
            |
                0 <= j < i ==> field_after(#[trigger] fields[j], calls, j) is Ok) ==> run(
                layout(vis, ident, fields),
                calls,
            ).build() == Err::<Seq<FieldValueView<V>>, Seq<char>>(
                field_after(fields[i], calls, i)->Err_0,
            ),
{
    let plan = layout(vis, ident, fields);
    let b = run(plan, calls);
    let n = fields.len() as int;
    lemma_step_after_calls(vis, ident, fields, calls);
    if forall|i: int| 0 <= i < fields.len() ==> field_after(#[trigger] fields[i], calls, i) is Ok {
        assert forall|i: int| 0 <= i < n implies (#[trigger] b.slots[i]).produce(
            b.plan.assembly[i].rule,
        ) is Ok by {
            assert(field_after(fields[i], calls, i) is Ok);
        }
        lemma_assemble_ok(b, n);
        assert(Seq::new(n as nat, |i: int| b.slots[i].produce(b.plan.assembly[i].rule)->Ok_0)
            =~= Seq::new(fields.len(), |i: int| field_after(fields[i], calls, i)->Ok_0));
    }
    assert forall|i: int|
        0 <= i < fields.len() && field_after(#[trigger] fields[i], calls, i) is Err && (forall|
            j: int,
        |
            0 <= j < i ==> field_after(#[trigger] fields[j], calls, j) is Ok) implies b.build()
        == Err::<Seq<FieldValueView<V>>, Seq<char>>(field_after(fields[i], calls, i)->Err_0) by {
        assert forall|j: int| 0 <= j < i implies (#[trigger] b.slots[j]).produce(
            b.plan.assembly[j].rule,
        ) is Ok by {
            assert(field_after(fields[j], calls, j) is Ok);
        }
        lemma_assemble_err(b, i, n);
    }
}

/// A field of a bare type without an annotation about a repeated setter.
pub open spec fn is_bare_field(field: FieldView) -> bool {
    &&& shape_of(field.ty) is Bare
    &&& requested_setter(field.attrs) == Ok::<Option<(Seq<char>, Anchor)>, DiagnosticView>(None)
}

/// A record of bare fields has a builder, and every field must be set.
///
/// After any series of calls on a new builder, assembly fails with
/// `<name> has not been set.` for the first field, in the order of the
/// declaration, that was never set. Once every field has been set it gives
/// the record, each field with exactly the value that it was last set to.
pub proof fn lemma_bare_record<V>(record: RecordView, calls: Seq<(int, V)>)
    requires
        forall|i: int| 0 <= i < record.fields.len() ==> is_bare_field(#[trigger] record.fields[i]),
    ensures
        expansion(record) is Ok,
        forall|i: int|
            0 <= i < record.fields.len() && (#[trigger] last_argument(calls, i)) is None && (forall|
                j: int,
            |
                0 <= j < i ==> (#[trigger] last_argument(calls, j)) is Some) ==> run(
                expansion(record)->Ok_0,
                calls,
            ).build() == Err::<Seq<FieldValueView<V>>, Seq<char>>(
                unset_message(record.fields[i].ident),
            ),
        (forall|i: int|
            0 <= i < record.fields.len() ==> (#[trigger] last_argument(calls, i)) is Some) ==> run(
            expansion(record)->Ok_0,
            calls,
        ).build() == Ok::<Seq<FieldValueView<V>>, Seq<char>>(
            Seq::new(
                record.fields.len(),
                |i: int| FieldValueView::Required(last_argument(calls, i)->Some_0),
            ),
        ),
{
    let n = record.fields.len();
    assert forall|i: int| 0 <= i < n implies describe(#[trigger] record.fields[i]) is Ok by {
        assert(is_bare_field(record.fields[i]));
    }
    lemma_describe_all_ok(record.fields);
    let fields = describe_all(record.fields)->Ok_0;
    let plan = expansion(record)->Ok_0;
    assert(plan == layout(record.vis, record.ident, fields));
    assert forall|i: int| 0 <= i < n implies (#[trigger] fields[i]).var == record.fields[i].ident
        && !fields[i].is_option && fields[i].vec_setter is None by {
        assert(is_bare_field(record.fields[i]));
    }
    lemma_build_after_calls(record.vis, record.ident, fields, calls);
    assert forall|i: int|
        0 <= i < n && (#[trigger] last_argument(calls, i)) is None && (forall|j: int|
            0 <= j < i ==> (#[trigger] last_argument(calls, j)) is Some) implies run(
        plan,
        calls,
    ).build() == Err::<Seq<FieldValueView<V>>, Seq<char>>(
        unset_message(record.fields[i].ident),
    ) by {
        assert(field_after(fields[i], calls, i) is Err);
        assert forall|j: int| 0 <= j < i implies field_after(
            #[trigger] fields[j],
            calls,
            j,
        ) is Ok by {
            assert(last_argument(calls, j) is Some);
        }
    }
    if forall|i: int| 0 <= i < n ==> (#[trigger] last_argument(calls, i)) is Some {
        assert forall|i: int| 0 <= i < n implies field_after(
            #[trigger] fields[i],
            calls,
            i,
        ) is Ok by {
            assert(last_argument(calls, i) is Some);
        }
        assert(Seq::new(n, |i: int| field_after(fields[i], calls, i)->Ok_0) =~= Seq::new(
            n,
            |i: int| FieldValueView::Required(last_argument(calls, i)->Some_0),
        ));
    }
}

/// An optional field need not be set.
///
/// Its assembly step never fails. In the assembled record the field is
/// absent where its setter was never called, and present with the value of
/// the last call of its setter otherwise.
pub proof fn lemma_optional_field<V>(record: RecordView, k: int, calls: Seq<(int, V)>)
    requires
        expansion(record) is Ok,
        0 <= k < record.fields.len(),
        shape_of(record.fields[k].ty) is Optional,
    ensures
        run(expansion(record)->Ok_0, calls).slots[k].produce(
            expansion(record)->Ok_0.assembly[k].rule,
        ) == Ok::<FieldValueView<V>, Seq<char>>(
            FieldValueView::Optional(last_argument(calls, k)),
        ),
        run(expansion(record)->Ok_0, calls).build() is Ok ==> run(
            expansion(record)->Ok_0,
            calls,
        ).build()->Ok_0[k] == FieldValueView::Optional(last_argument(calls, k)),
{
    lemma_describe_all_fields(record.fields);
    let fields = describe_all(record.fields)->Ok_0;
    let plan = expansion(record)->Ok_0;
    assert(plan == layout(record.vis, record.ident, fields));
    assert(describe(record.fields[k]) == Ok::<InputFieldView, DiagnosticView>(fields[k]));
    lemma_step_after_calls(record.vis, record.ident, fields, calls);
    let b = run(plan, calls);
    assert(b.slots[k].produce(plan.assembly[k].rule) == field_after(fields[k], calls, k));
    if b.build() is Ok {
        lemma_assembled_fields(b, plan.assembly.len() as int);
    }
}

/// A collection field with a repeated setter gathers what it is given.
///
/// The setter has the name that the annotation gave. The assembly step of
/// the field never fails. In the assembled record the field holds exactly
/// the values handed to that setter, in the order of the calls: the empty
/// collection where there was no call.
pub proof fn lemma_repeated_setter<V>(record: RecordView, k: int, calls: Seq<(int, V)>)
    requires
        expansion(record) is Ok,
        0 <= k < record.fields.len(),
        requested_setter(record.fields[k].attrs) matches Ok(Some(_)),
    ensures
        shape_of(record.fields[k].ty) is Collection,
        expansion(record)->Ok_0.setters[k].name == requested_setter(
            record.fields[k].attrs,
        )->Ok_0->Some_0.0,
        expansion(record)->Ok_0.setters[k].action is Append,
        run(expansion(record)->Ok_0, calls).slots[k].produce(
            expansion(record)->Ok_0.assembly[k].rule,
        ) == Ok::<FieldValueView<V>, Seq<char>>(FieldValueView::Collection(arguments(calls, k))),
        run(expansion(record)->Ok_0, calls).build() is Ok ==> run(
            expansion(record)->Ok_0,
            calls,
        ).build()->Ok_0[k] == FieldValueView::Collection(arguments(calls, k)),
{
    lemma_describe_all_fields(record.fields);
    let fields = describe_all(record.fields)->Ok_0;
    let plan = expansion(record)->Ok_0;
    assert(plan == layout(record.vis, record.ident, fields));
    assert(describe(record.fields[k]) == Ok::<InputFieldView, DiagnosticView>(fields[k]));
    lemma_step_after_calls(record.vis, record.ident, fields, calls);
    let b = run(plan, calls);
    assert(b.slots[k].produce(plan.assembly[k].rule) == field_after(fields[k], calls, k));
    if b.build() is Ok {
        lemma_assembled_fields(b, plan.assembly.len() as int);
    }
}

} // verus!
