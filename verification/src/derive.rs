//! From the declaration of a record to the layout of its builder.

use vstd::prelude::*;
use vstd::string::*;
use crate::field::{
    describe, describe_view, init_of, setter_of, step_of, storage_of, InputField, InputFieldView,
};
use crate::fragment::{
    AssemblyStep, BuilderFragment, BuilderFragmentView, InitField, Setter, StorageField,
};
use crate::record::{
    Diagnostic, DiagnosticView, Field, FieldView, Record, RecordView, Visibility, VisibilityView,
};

verus! {

/// The descriptors of the fields of a record, in the order of the fields,
/// or the diagnostic of the first field that has one.
pub open spec fn describe_all(fields: Seq<FieldView>) -> Result<
    Seq<InputFieldView>,
    DiagnosticView,
>
    decreases fields.len(),
{
    if fields.len() == 0 {
        Ok(Seq::empty())
    } else {
        match describe_all(fields.drop_last()) {
            Err(d) => Err(d),
            Ok(front) => match describe(fields.last()) {
                Err(d) => Err(d),
                Ok(f) => Ok(front.push(f)),
            },
        }
    }
}

/// The name of the builder type of a record.
pub open spec fn builder_name(record: Seq<char>) -> Seq<char> {
    record + "Builder"@
}

/// The builder laid out from the descriptors of a record's fields: one
/// storage field, one initial value, one setter and one assembly step for
/// each descriptor, all in the order of the descriptors.
pub open spec fn layout(
    vis: VisibilityView,
    ident: Seq<char>,
    fields: Seq<InputFieldView>,
) -> BuilderFragmentView {
    BuilderFragmentView {
        vis,
        record: ident,
        builder: builder_name(ident),
        storage: Seq::new(fields.len(), |i: int| storage_of(fields[i])),
        init: Seq::new(fields.len(), |i: int| init_of(fields[i])),
        setters: Seq::new(fields.len(), |i: int| setter_of(fields[i])),
        assembly: Seq::new(fields.len(), |i: int| step_of(fields[i])),
    }
}

/// The builder of a record, or the diagnostic that stops it.
pub open spec fn expansion(record: RecordView) -> Result<BuilderFragmentView, DiagnosticView> {
    match describe_all(record.fields) {
        Err(d) => Err(d),
        Ok(fields) => Ok(layout(record.vis, record.ident, fields)),
    }
}

/// The views of a list of descriptors.
pub open spec fn descriptor_views(fields: Seq<InputField>) -> Seq<InputFieldView> {
    Seq::new(fields.len(), |i: int| fields[i]@)
}

/// The view of what [`parse_fields`] returns.
pub open spec fn parse_fields_view(r: Result<Vec<InputField>, Diagnostic>) -> Result<
    Seq<InputFieldView>,
    DiagnosticView,
> {
    match r {
        Ok(fields) => Ok(descriptor_views(fields@)),
        Err(d) => Err(d@),
    }
}

/// The view of what [`derive`] returns.
pub open spec fn expansion_view(r: Result<BuilderFragment, Diagnostic>) -> Result<
    BuilderFragmentView,
    DiagnosticView,
> {
    match r {
        Ok(fragment) => Ok(fragment@),
        Err(d) => Err(d@),
    }
}

/// Reads the fields of a record into their descriptors, in order, and stops
/// at the first field that gives a diagnostic.
pub fn parse_fields(fields: &Vec<Field>) -> (r: Result<Vec<InputField>, Diagnostic>)
    ensures
        parse_fields_view(r) == describe_all(Seq::new(fields@.len(), |i: int| fields@[i]@)),
{
    let ghost views = Seq::new(fields@.len(), |i: int| fields@[i]@);
    let mut parsed: Vec<InputField> = Vec::with_capacity(fields.len());
    let mut i: usize = 0;
    assert(views.take(0) =~= Seq::<FieldView>::empty());
    assert(descriptor_views(parsed@) =~= Seq::<InputFieldView>::empty());
    while i < fields.len()
        invariant
            i <= fields@.len(),
            views == Seq::new(fields@.len(), |i: int| fields@[i]@),
            describe_all(views.take(i as int)) == Ok::<Seq<InputFieldView>, DiagnosticView>(
                descriptor_views(parsed@),
            ),
        decreases fields@.len() - i,
    {
        let ghost front = views.take(i + 1);
        assert(front.drop_last() =~= views.take(i as int));
        assert(front.last() == fields@[i as int]@);
        match InputField::try_from(&fields[i]) {
            Ok(f) => {
                let ghost before = descriptor_views(parsed@);
                parsed.push(f);
                assert(descriptor_views(parsed@) =~= before.push(f@));
            },
            Err(d) => {
                proof {
                    lemma_failure_stays(views, i + 1);
                }
                return Err(d);
            },
        }
        i += 1;
    }
    assert(views.take(i as int) =~= views);
    Ok(parsed)
}

/// Once a front part of the fields has given a diagnostic, every longer
/// front part gives the same one.
pub proof fn lemma_failure_stays(fields: Seq<FieldView>, n: int)
    requires
        0 <= n <= fields.len(),
        describe_all(fields.take(n)) is Err,
    ensures
        describe_all(fields) == describe_all(fields.take(n)),
    decreases fields.len() - n,
{
    if n == fields.len() {
        assert(fields.take(n) =~= fields);
    } else {
        let next = fields.take(n + 1);
        assert(next.drop_last() =~= fields.take(n));
        lemma_failure_stays(fields, n + 1);
    }
}

/// Where a record has descriptors, there is one for each field, and it is
/// the descriptor of that field.
pub proof fn lemma_describe_all_fields(fields: Seq<FieldView>)
    requires
        describe_all(fields) is Ok,
    ensures
        describe_all(fields)->Ok_0.len() == fields.len(),
        forall|i: int|
            0 <= i < fields.len() ==> describe(#[trigger] fields[i]) == Ok::<
                InputFieldView,
                DiagnosticView,
            >(describe_all(fields)->Ok_0[i]),
    decreases fields.len(),
{
    if fields.len() > 0 {
        let front = fields.drop_last();
        lemma_describe_all_fields(front);
        assert forall|i: int| 0 <= i < fields.len() implies describe(#[trigger] fields[i]) == Ok::<
            InputFieldView,
            DiagnosticView,
        >(describe_all(fields)->Ok_0[i]) by {
            if i < front.len() {
                assert(front[i] == fields[i]);
            }
        }
    }
}

/// Where every field has a descriptor, the descriptors of the record are
/// those of its fields, one for one.
pub proof fn lemma_describe_all_ok(fields: Seq<FieldView>)
    requires
        forall|i: int| 0 <= i < fields.len() ==> describe(#[trigger] fields[i]) is Ok,
    ensures
        describe_all(fields) == Ok::<Seq<InputFieldView>, DiagnosticView>(
            Seq::new(fields.len(), |i: int| describe(fields[i])->Ok_0),
        ),
    decreases fields.len(),
{
    if fields.len() == 0 {
        assert(Seq::new(fields.len(), |i: int| describe(fields[i])->Ok_0) =~= Seq::<
            InputFieldView,
        >::empty());
    } else {
        let front = fields.drop_last();
        assert forall|i: int| 0 <= i < front.len() implies describe(#[trigger] front[i]) is Ok by {
            assert(front[i] == fields[i]);
        }
        lemma_describe_all_ok(front);
        assert(describe(fields[fields.len() - 1]) is Ok);
        assert(Seq::new(fields.len(), |i: int| describe(fields[i])->Ok_0) =~= Seq::new(
            front.len(),
            |i: int| describe(front[i])->Ok_0,
        ).push(describe(fields.last())->Ok_0));
    }
}

/// The diagnostic of a record is that of its first field that has one: the
/// fields after it are not read.
pub proof fn lemma_describe_all_err(fields: Seq<FieldView>, i: int)
    requires
        0 <= i < fields.len(),
        forall|j: int| 0 <= j < i ==> describe(#[trigger] fields[j]) is Ok,
        describe(fields[i]) is Err,
    ensures
        describe_all(fields) == Err::<Seq<InputFieldView>, DiagnosticView>(
            describe(fields[i])->Err_0,
        ),
{
    let front = fields.take(i);
    assert forall|j: int| 0 <= j < front.len() implies describe(#[trigger] front[j]) is Ok by {
        assert(front[j] == fields[j]);
    }
    lemma_describe_all_ok(front);
    let next = fields.take(i + 1);
    assert(next.drop_last() =~= front);
    assert(next.last() == fields[i]);
    lemma_failure_stays(fields, i + 1);
}

/// Lays out the builder of a record from the descriptors of its fields.
pub fn synthesize(ident: &String, vis: &Visibility, fields: &Vec<InputField>) -> (r:
    BuilderFragment)
    ensures
        r@ == layout(vis@, ident@, descriptor_views(fields@)),
{
    let mut storage: Vec<StorageField> = Vec::with_capacity(fields.len());
    let mut init: Vec<InitField> = Vec::with_capacity(fields.len());
    let mut setters: Vec<Setter> = Vec::with_capacity(fields.len());
    let mut assembly: Vec<AssemblyStep> = Vec::with_capacity(fields.len());
    let mut i: usize = 0;
    while i < fields.len()
        invariant
            i <= fields@.len(),
            storage@.len() == i,
            init@.len() == i,
            setters@.len() == i,
            assembly@.len() == i,
            forall|j: int| 0 <= j < i ==> (#[trigger] storage@[j])@ == storage_of(fields@[j]@),
            forall|j: int| 0 <= j < i ==> (#[trigger] init@[j])@ == init_of(fields@[j]@),
            forall|j: int| 0 <= j < i ==> (#[trigger] setters@[j])@ == setter_of(fields@[j]@),
            forall|j: int| 0 <= j < i ==> (#[trigger] assembly@[j])@ == step_of(fields@[j]@),
        decreases fields@.len() - i,
    {
        let f = &fields[i];
        storage.push(f.builder_fields());
        init.push(f.builder_init());
        setters.push(f.setter_fns());
        assembly.push(f.clone_to_struct());
        i += 1;
    }
    let r = BuilderFragment {
        vis: vis.clone(),
        record: ident.clone(),
        builder: ident.clone().concat("Builder"),
        storage,
        init,
        setters,
        assembly,
    };
    proof {
        let want = layout(vis@, ident@, descriptor_views(fields@));
        assert(r@.storage =~= want.storage);
        assert(r@.init =~= want.init);
        assert(r@.setters =~= want.setters);
        assert(r@.assembly =~= want.assembly);
    }
    r
}

/// Lays out the builder of a record.
///
/// The fields are read in order. The first field that gives a diagnostic
/// stops the work, and that diagnostic is the result. Otherwise the result
/// is the builder: it is named after the record, has the record's
/// visibility, and holds one storage field, one initial value, one setter
/// and one assembly step for each field, in the order of the fields.
pub fn derive(input: &Record) -> (r: Result<BuilderFragment, Diagnostic>)
    ensures
        expansion_view(r) == expansion(input@),
{
    match parse_fields(&input.fields) {
        Ok(fields) => Ok(synthesize(&input.ident, &input.vis, &fields)),
        Err(d) => Err(d),
    }
}

} // verus!
