//! What the laid-out builder does when it runs: a builder value with one
//! slot per storage field, the effect of each setter on it, and the assembly
//! of the record from it.

use vstd::prelude::*;
use crate::fragment::{
    AssemblyRule, AssemblyRuleView, AssemblyStep, AssemblyStepView, BuilderFragment,
    BuilderFragmentView, InitValue, SetterAction, SetterView, StorageKind,
};

verus! {

/// What one storage field of a builder holds.
#[derive(Debug, PartialEq, Eq)]
pub enum Slot<V> {
    /// Unset, or set to one value.
    Single(Option<V>),
    /// The values appended so far, oldest first.
    Repeated(Vec<V>),
}

/// View of a [`Slot`].
pub enum SlotView<V> {
    Single(Option<V>),
    Repeated(Seq<V>),
}

impl<V> View for Slot<V> {
    type V = SlotView<V>;

    open spec fn view(&self) -> SlotView<V> {
        match *self {
            Slot::Single(value) => SlotView::Single(value),
            Slot::Repeated(items) => SlotView::Repeated(items@),
        }
    }
}

impl<V> SlotView<V> {
    /// How the slot is stored.
    pub open spec fn kind(self) -> StorageKind {
        match self {
            SlotView::Single(_) => StorageKind::Single,
            SlotView::Repeated(_) => StorageKind::Repeated,
        }
    }

    /// The slot of a new builder.
    pub open spec fn initial(value: InitValue) -> SlotView<V> {
        match value {
            InitValue::Unset => SlotView::Single(None),
            InitValue::Empty => SlotView::Repeated(Seq::empty()),
        }
    }

    /// The slot after a setter has written a value to it.
    pub open spec fn write(self, action: SetterAction, value: V) -> SlotView<V> {
        match action {
            SetterAction::Replace => SlotView::Single(Some(value)),
            SetterAction::Append => match self {
                SlotView::Repeated(items) => SlotView::Repeated(items.push(value)),
                SlotView::Single(_) => SlotView::Repeated(seq![value]),
            },
        }
    }

    /// What an assembly step makes of the slot: the value of the record's
    /// field, or the message of the failure.
    pub open spec fn produce(self, rule: AssemblyRuleView) -> Result<FieldValueView<V>, Seq<char>> {
        match rule {
            AssemblyRuleView::Duplicate => match self {
                SlotView::Single(value) => Ok(FieldValueView::Optional(value)),
                SlotView::Repeated(items) => Ok(FieldValueView::Collection(items)),
            },
            AssemblyRuleView::Require { message } => match self {
                SlotView::Single(Some(value)) => Ok(FieldValueView::Required(value)),
                _ => Err(message),
            },
        }
    }
}

/// The value of one field of the assembled record.
#[derive(Debug, PartialEq, Eq)]
pub enum FieldValue<V> {
    /// The value of a field that had to be set.
    Required(V),
    /// The value of an optional field: absent where it was never set.
    Optional(Option<V>),
    /// The values of a field with a repeated setter, in the order of the
    /// calls.
    Collection(Vec<V>),
}

/// View of a [`FieldValue`].
pub enum FieldValueView<V> {
    Required(V),
    Optional(Option<V>),
    Collection(Seq<V>),
}

impl<V> View for FieldValue<V> {
    type V = FieldValueView<V>;

    open spec fn view(&self) -> FieldValueView<V> {
        match *self {
            FieldValue::Required(value) => FieldValueView::Required(value),
            FieldValue::Optional(value) => FieldValueView::Optional(value),
            FieldValue::Collection(items) => FieldValueView::Collection(items@),
        }
    }
}

/// Whether the four lists of a layout speak of the same field at position
/// `i`, and agree on how it is stored.
pub open spec fn coherent_at(plan: BuilderFragmentView, i: int) -> bool {
    &&& plan.init[i].name == plan.storage[i].name
    &&& plan.setters[i].field == plan.storage[i].name
    &&& plan.assembly[i].field == plan.storage[i].name
    &&& (plan.init[i].value is Empty <==> plan.storage[i].kind is Repeated)
    &&& (plan.setters[i].action is Append <==> plan.storage[i].kind is Repeated)
    &&& (plan.assembly[i].rule is Require ==> plan.storage[i].kind is Single)
}

/// Whether a layout is one that a builder can run: its four lists have one
/// entry for each field, in one order, and agree with each other.
pub open spec fn coherent(plan: BuilderFragmentView) -> bool {
    &&& plan.init.len() == plan.storage.len()
    &&& plan.setters.len() == plan.storage.len()
    &&& plan.assembly.len() == plan.storage.len()
    &&& forall|i: int| 0 <= i < plan.storage.len() ==> coherent_at(plan, i)
}

/// The position of the first setter of a given name.
pub open spec fn setter_index(setters: Seq<SetterView>, name: Seq<char>) -> Option<int>
    decreases setters.len(),
{
    if setters.len() == 0 {
        None
    } else if setters.last().name == name && setter_index(setters.drop_last(), name) is None {
        Some(setters.len() - 1)
    } else {
        setter_index(setters.drop_last(), name)
    }
}

/// View of a [`Builder`]: the layout that it runs and what its slots hold.
pub struct BuilderView<V> {
    pub plan: BuilderFragmentView,
    pub slots: Seq<SlotView<V>>,
}

impl<V> BuilderView<V> {
    /// A new builder: every slot at its initial value.
    pub open spec fn new(plan: BuilderFragmentView) -> BuilderView<V> {
        BuilderView {
            plan,
            slots: Seq::new(plan.init.len(), |i: int| SlotView::initial(plan.init[i].value)),
        }
    }

    /// Whether the builder has one slot for each storage field of a coherent
    /// layout, stored as the layout says.
    pub open spec fn wf(self) -> bool {
        &&& coherent(self.plan)
        &&& self.slots.len() == self.plan.storage.len()
        &&& forall|i: int|
            0 <= i < self.slots.len() ==> (#[trigger] self.slots[i]).kind()
                == self.plan.storage[i].kind
    }

    /// The builder after the setter at position `i` was called with
    /// `value`. A position that holds no setter leaves the builder as it is.
    pub open spec fn set(self, i: int, value: V) -> BuilderView<V> {
        if 0 <= i < self.plan.setters.len() && i < self.slots.len() {
            BuilderView {
                plan: self.plan,
                slots: self.slots.update(
                    i,
                    self.slots[i].write(self.plan.setters[i].action, value),
                ),
            }
        } else {
            self
        }
    }

    /// The builder after the setter named `name` was called with `value`.
    /// A name that no setter has leaves the builder as it is.
    pub open spec fn call(self, name: Seq<char>, value: V) -> BuilderView<V> {
        match setter_index(self.plan.setters, name) {
            Some(i) => self.set(i, value),
            None => self,
        }
    }

    /// The builder after a series of calls, given by position and value,
    /// made one after the other.
    pub open spec fn set_all(self, calls: Seq<(int, V)>) -> BuilderView<V>
        decreases calls.len(),
    {
        if calls.len() == 0 {
            self
        } else {
            self.set_all(calls.drop_last()).set(calls.last().0, calls.last().1)
        }
    }

    /// The fields of the record assembled from the first `n` steps, or the
    /// message of the first of them that fails.
    pub open spec fn assemble(self, n: int) -> Result<Seq<FieldValueView<V>>, Seq<char>>
        decreases n,
    {
        if n <= 0 {
            Ok(Seq::empty())
        } else {
            match self.assemble(n - 1) {
                Err(message) => Err(message),
                Ok(front) => match self.slots[n - 1].produce(self.plan.assembly[n - 1].rule) {
                    Err(message) => Err(message),
                    Ok(value) => Ok(front.push(value)),
                },
            }
        }
    }

    /// The assembled record, field by field in the order of the record, or
    /// the message of the first step that fails.
    pub open spec fn build(self) -> Result<Seq<FieldValueView<V>>, Seq<char>> {
        self.assemble(self.plan.assembly.len() as int)
    }
}

/// The values that a series of calls hands to the setter at position `i`,
/// in the order of the calls.
pub open spec fn arguments<V>(calls: Seq<(int, V)>, i: int) -> Seq<V>
    decreases calls.len(),
{
    if calls.len() == 0 {
        Seq::empty()
    } else if calls.last().0 == i {
        arguments(calls.drop_last(), i).push(calls.last().1)
    } else {
        arguments(calls.drop_last(), i)
    }
}

/// The value that the last call of the setter at position `i` hands to it;
/// `None` where the series holds no such call.
pub open spec fn last_argument<V>(calls: Seq<(int, V)>, i: int) -> Option<V>
    decreases calls.len(),
{
    if calls.len() == 0 {
        None
    } else if calls.last().0 == i {
        Some(calls.last().1)
    } else {
        last_argument(calls.drop_last(), i)
    }
}

/// What the slot at position `i` holds after a series of calls on a new
/// builder: the last value for a replacing setter, every value in order for
/// an appending one.
pub open spec fn slot_after<V>(action: SetterAction, calls: Seq<(int, V)>, i: int) -> SlotView<V> {
    match action {
        SetterAction::Replace => SlotView::Single(last_argument(calls, i)),
        SetterAction::Append => SlotView::Repeated(arguments(calls, i)),
    }
}

/// What one assembly does to a builder: it leaves the builder `after` as it
/// was `before`, and its result is that of assembling from `before`.
pub open spec fn assembles<V>(
    before: BuilderView<V>,
    after: BuilderView<V>,
    result: Result<Seq<FieldValueView<V>>, Seq<char>>,
) -> bool {
    &&& after == before
    &&& result == before.build()
}

/// The view of what [`Builder::build`] returns.
pub open spec fn build_view<V>(r: Result<Vec<FieldValue<V>>, String>) -> Result<
    Seq<FieldValueView<V>>,
    Seq<char>,
> {
    match r {
        Ok(fields) => Ok(Seq::new(fields@.len(), |i: int| fields@[i]@)),
        Err(message) => Err(message@),
    }
}

impl BuilderFragment {
    /// Whether a builder can run this layout.
    pub fn is_coherent(&self) -> (r: bool)
        ensures
            r == coherent(self@),
    {
        let n = self.storage.len();
        if self.init.len() != n || self.setters.len() != n || self.assembly.len() != n {
            return false;
        }
        let mut i: usize = 0;
        while i < n
            invariant
                i <= n,
                n == self.storage@.len(),
                self.init@.len() == n,
                self.setters@.len() == n,
                self.assembly@.len() == n,
                forall|j: int| 0 <= j < i ==> coherent_at(self@, j),
            decreases n - i,
        {
            let name = &self.storage[i].name;
            let repeated = matches!(self.storage[i].kind, StorageKind::Repeated);
            let empty = matches!(self.init[i].value, InitValue::Empty);
            let append = matches!(self.setters[i].action, SetterAction::Append);
            let require = matches!(self.assembly[i].rule, AssemblyRule::Require { .. });
            let agree = self.init[i].name == *name && self.setters[i].field == *name
                && self.assembly[i].field == *name && empty == repeated && append == repeated && !(
            require && repeated);
            if !agree {
                assert(!coherent_at(self@, i as int));
                return false;
            }
            i += 1;
        }
        true
    }

    /// The position of the first setter named `name`.
    pub fn setter_named(&self, name: &str) -> (r: Option<usize>)
        ensures
            match r {
                Some(i) => setter_index(self@.setters, name@) == Some(i as int),
                None => setter_index(self@.setters, name@) is None,
            },
    {
        let wanted = String::from_str(name);
        let mut i: usize = 0;
        while i < self.setters.len()
            invariant
                i <= self.setters@.len(),
                wanted@ == name@,
                setter_index(self@.setters.take(i as int), name@) is None,
            decreases self.setters@.len() - i,
        {
            let ghost next = self@.setters.take(i + 1);
            assert(next.drop_last() =~= self@.setters.take(i as int));
            assert(next.last() == self.setters@[i as int]@);
            if self.setters[i].name == wanted {
                proof {
                    lemma_found_stays(self@.setters, name@, i + 1);
                }
                return Some(i);
            }
            i += 1;
        }
        assert(self@.setters.take(i as int) =~= self@.setters);
        None
    }
}

/// The position that a name resolves to is that of the first setter so
/// named: no setter before it has the name.
pub proof fn lemma_setter_index_is_first(setters: Seq<SetterView>, name: Seq<char>)
    ensures
        match setter_index(setters, name) {
            Some(i) => 0 <= i < setters.len() && setters[i].name == name && forall|j: int|
                0 <= j < i ==> (#[trigger] setters[j]).name != name,
            None => forall|j: int| 0 <= j < setters.len() ==> (#[trigger] setters[j]).name != name,
        },
    decreases setters.len(),
{
    if setters.len() > 0 {
        let front = setters.drop_last();
        lemma_setter_index_is_first(front, name);
        assert forall|j: int| 0 <= j < front.len() implies front[j] == setters[j] by {}
        match setter_index(setters, name) {
            Some(i) => {
                assert forall|j: int| 0 <= j < i implies (#[trigger] setters[j]).name != name by {
                    assert(front[j] == setters[j]);
                }
            },
            None => {
                assert forall|j: int| 0 <= j < setters.len() implies (#[trigger] setters[j]).name
                    != name by {
                    if j < front.len() {
                        assert(front[j] == setters[j]);
                    }
                }
            },
        }
    }
}

/// A call by name is the call of the first setter of that name.
pub proof fn lemma_call_is_set<V>(b: BuilderView<V>, name: Seq<char>, k: int, value: V)
    requires
        0 <= k < b.plan.setters.len(),
        b.plan.setters[k].name == name,
        forall|j: int| 0 <= j < k ==> (#[trigger] b.plan.setters[j]).name != name,
    ensures
        b.call(name, value) == b.set(k, value),
{
    lemma_setter_index_is_first(b.plan.setters, name);
    match setter_index(b.plan.setters, name) {
        Some(i) => {
            if i < k {
                assert(b.plan.setters[i].name != name);
            }
        },
        None => {
            assert(b.plan.setters[k].name != name);
        },
    }
}

/// Once a front part of the setters holds the name, the position found in
/// it is the position found in the whole list.
pub proof fn lemma_found_stays(setters: Seq<SetterView>, name: Seq<char>, n: int)
    requires
        0 <= n <= setters.len(),
        setter_index(setters.take(n), name) is Some,
    ensures
        setter_index(setters, name) == setter_index(setters.take(n), name),
    decreases setters.len() - n,
{
    if n == setters.len() {
        assert(setters.take(n) =~= setters);
    } else {
        let next = setters.take(n + 1);
        assert(next.drop_last() =~= setters.take(n));
        lemma_found_stays(setters, name, n + 1);
    }
}

/// A builder at run time: the layout that it follows, and one slot for each
/// storage field.
#[derive(Debug)]
pub struct Builder<'a, V> {
    pub plan: &'a BuilderFragment,
    pub slots: Vec<Slot<V>>,
}

impl<'a, V> View for Builder<'a, V> {
    type V = BuilderView<V>;

    open spec fn view(&self) -> BuilderView<V> {
        BuilderView {
            plan: self.plan@,
            slots: Seq::new(self.slots@.len(), |i: int| self.slots@[i]@),
        }
    }
}

fn duplicate<V: Copy>(items: &Vec<V>) -> (r: Vec<V>)
    ensures
        r@ == items@,
{
    let mut copy: Vec<V> = Vec::with_capacity(items.len());
    let mut i: usize = 0;
    while i < items.len()
        invariant
            i <= items@.len(),
            copy@ == items@.take(i as int),
        decreases items@.len() - i,
    {
        copy.push(items[i]);
        assert(items@.take(i + 1) =~= items@.take(i as int).push(items@[i as int]));
        i += 1;
    }
    assert(items@.take(i as int) =~= items@);
    copy
}

fn produce<V: Copy>(slot: &Slot<V>, step: &AssemblyStep) -> (r: Result<FieldValue<V>, String>)
    ensures
        match r {
            Ok(value) => slot@.produce(step@.rule) == Ok::<FieldValueView<V>, Seq<char>>(value@),
            Err(message) => slot@.produce(step@.rule) == Err::<FieldValueView<V>, Seq<char>>(
                message@,
            ),
        },
{
    match &step.rule {
        AssemblyRule::Duplicate => match slot {
            Slot::Single(value) => Ok(FieldValue::Optional(*value)),
            Slot::Repeated(items) => Ok(FieldValue::Collection(duplicate(items))),
        },
        AssemblyRule::Require { message } => match slot {
            Slot::Single(Some(value)) => Ok(FieldValue::Required(*value)),
            _ => Err(message.clone()),
        },
    }
}

impl<'a, V: Copy> Builder<'a, V> {
    /// A new builder for a layout, with every slot at its initial value:
    /// nothing set, and every collection empty. There is none for a layout
    /// that is not coherent.
    pub fn new(plan: &'a BuilderFragment) -> (r: Option<Builder<'a, V>>)
        ensures
            r is Some <==> coherent(plan@),
            r matches Some(b) ==> b@ == BuilderView::<V>::new(plan@) && b@.wf(),
    {
        if !plan.is_coherent() {
            return None;
        }
        let mut slots: Vec<Slot<V>> = Vec::with_capacity(plan.init.len());
        let mut i: usize = 0;
        while i < plan.init.len()
            invariant
                i <= plan.init@.len(),
                slots@.len() == i,
                forall|j: int|
                    0 <= j < i ==> (#[trigger] slots@[j])@ == SlotView::<V>::initial(
                        plan.init@[j].value,
                    ),
            decreases plan.init@.len() - i,
        {
            let slot = match plan.init[i].value {
                InitValue::Unset => Slot::Single(None),
                InitValue::Empty => Slot::Repeated(Vec::new()),
            };
            slots.push(slot);
            i += 1;
        }
        let b = Builder { plan, slots };
        assert(b@.slots =~= BuilderView::<V>::new(plan@).slots);
        assert(b@.wf()) by {
            assert forall|j: int| 0 <= j < b@.slots.len() implies (#[trigger] b@.slots[j]).kind()
                == b@.plan.storage[j].kind by {
                assert(coherent_at(plan@, j));
            }
        }
        Some(b)
    }

    /// Calls the setter at position `i` with `value`, and returns the
    /// builder. A replacing setter sets its slot to the value, over whatever
    /// was set before; an appending setter adds the value at the end of its
    /// slot. No other slot changes. A position that holds no setter leaves
    /// the builder as it is.
    pub fn set(&mut self, i: usize, value: V) -> (r: &mut Self)
        requires
            old(self)@.wf(),
        ensures
            r@ == old(self)@.set(i as int, value),
            r@.wf(),
            *final(self) == *final(r),
    {
        if i < self.plan.setters.len() && i < self.slots.len() {
            let ghost before = self@;
            assert(coherent_at(self.plan@, i as int));
            match self.plan.setters[i].action {
                SetterAction::Replace => {
                    self.slots[i] = Slot::Single(Some(value));
                },
                SetterAction::Append => {
                    match &mut self.slots[i] {
                        Slot::Repeated(items) => {
                            items.push(value);
                        },
                        Slot::Single(_) => {
                            assert(false);
                        },
                    }
                },
            }
            assert(self@.slots =~= before.set(i as int, value).slots);
        }
        self
    }

    /// Calls the first setter named `name` with `value`, and returns the
    /// builder. A name that no setter has leaves the builder as it is.
    pub fn call(&mut self, name: &str, value: V) -> (r: &mut Self)
        requires
            old(self)@.wf(),
        ensures
            r@ == old(self)@.call(name@, value),
            r@.wf(),
            *final(self) == *final(r),
    {
        match self.plan.setter_named(name) {
            Some(i) => self.set(i, value),
            None => self,
        }
    }

    /// Assembles the record. The steps run in the order of the record's
    /// fields, and the first one that fails ends the assembly with its
    /// message. A step that duplicates gives what its slot holds and never
    /// fails; a step that requires gives the value that its slot was set
    /// to, and fails where it was not set.
    ///
    /// The builder is left as it was: every value is duplicated, none is
    /// taken, so that assembling again gives the same result.
    pub fn build(&mut self) -> (r: Result<Vec<FieldValue<V>>, String>)
        requires
            old(self)@.wf(),
        ensures
            assembles(old(self)@, final(self)@, build_view(r)),
            *final(self) == *old(self),
    {
        let n = self.plan.assembly.len();
        let mut fields: Vec<FieldValue<V>> = Vec::with_capacity(n);
        let mut i: usize = 0;
        assert(Seq::new(fields@.len(), |j: int| fields@[j]@) =~= Seq::<FieldValueView<V>>::empty());
        while i < n
            invariant
                i <= n,
                n == self.plan.assembly@.len(),
                n == self.slots@.len(),
                *self == *old(self),
                self@.assemble(i as int) == Ok::<Seq<FieldValueView<V>>, Seq<char>>(
                    Seq::new(fields@.len(), |j: int| fields@[j]@),
                ),
            decreases n - i,
        {
            let ghost front = Seq::new(fields@.len(), |j: int| fields@[j]@);
            match produce(&self.slots[i], &self.plan.assembly[i]) {
                Ok(value) => {
                    fields.push(value);
                    assert(Seq::new(fields@.len(), |j: int| fields@[j]@) =~= front.push(value@));
                },
                Err(message) => {
                    proof {
                        lemma_failure_ends_assembly(self@, i + 1, n as int);
                    }
                    return Err(message);
                },
            }
            i += 1;
        }
        Ok(fields)
    }
}

/// Assembly is idempotent: two assemblies in a row, with no call of a
/// setter in between, give the same result, be it a record or a failure,
/// and leave the builder as it was before the first.
pub proof fn lemma_assembly_is_idempotent<V>(
    start: BuilderView<V>,
    between: BuilderView<V>,
    end: BuilderView<V>,
    first: Result<Seq<FieldValueView<V>>, Seq<char>>,
    second: Result<Seq<FieldValueView<V>>, Seq<char>>,
)
    requires
        assembles(start, between, first),
        assembles(between, end, second),
    ensures
        first == second,
        end == start,
{
}

/// Once the first `n` steps have failed, so have the first `m`, for every
/// `m` from `n` on, and with the same message.
pub proof fn lemma_failure_ends_assembly<V>(b: BuilderView<V>, n: int, m: int)
    requires
        0 <= n <= m,
        b.assemble(n) is Err,
    ensures
        b.assemble(m) == b.assemble(n),
    decreases m - n,
{
    if n < m {
        lemma_failure_ends_assembly(b, n, m - 1);
    }
}

/// A new builder of a coherent layout is well formed.
pub proof fn lemma_new_is_wf<V>(plan: BuilderFragmentView)
    requires
        coherent(plan),
    ensures
        BuilderView::<V>::new(plan).wf(),
{
    let b = BuilderView::<V>::new(plan);
    assert forall|i: int| 0 <= i < b.slots.len() implies (#[trigger] b.slots[i]).kind()
        == plan.storage[i].kind by {
        assert(coherent_at(plan, i));
    }
}

/// A setter keeps a well-formed builder well formed, writes its own slot
/// and leaves every other slot as it was.
pub proof fn lemma_set_writes_one_slot<V>(b: BuilderView<V>, i: int, value: V)
    requires
        b.wf(),
    ensures
        b.set(i, value).wf(),
        b.set(i, value).plan == b.plan,
        b.set(i, value).slots.len() == b.slots.len(),
        forall|j: int| 0 <= j < b.slots.len() && j != i ==> b.set(i, value).slots[j] == b.slots[j],
        0 <= i < b.slots.len() ==> b.set(i, value).slots[i] == b.slots[i].write(
            b.plan.setters[i].action,
            value,
        ),
{
    if 0 <= i < b.slots.len() {
        assert(coherent_at(b.plan, i));
    }
}

/// The state of a builder is a function of the calls made on it: after any
/// series of calls on a new builder, each slot holds what the calls of its
/// own setter gave it, whatever was called in between.
pub proof fn lemma_slots_after_calls<V>(plan: BuilderFragmentView, calls: Seq<(int, V)>)
    requires
        coherent(plan),
    ensures
        BuilderView::<V>::new(plan).set_all(calls).wf(),
        BuilderView::<V>::new(plan).set_all(calls).plan == plan,
        forall|i: int|
            0 <= i < plan.storage.len() ==> #[trigger] BuilderView::<V>::new(plan).set_all(
                calls,
            ).slots[i] == slot_after(plan.setters[i].action, calls, i),
    decreases calls.len(),
{
    let start = BuilderView::<V>::new(plan);
    if calls.len() == 0 {
        lemma_new_is_wf::<V>(plan);
        assert forall|i: int| 0 <= i < plan.storage.len() implies #[trigger] start.set_all(
            calls,
        ).slots[i] == slot_after(plan.setters[i].action, calls, i) by {
            assert(coherent_at(plan, i));
            assert(arguments(calls, i) =~= Seq::<V>::empty());
        }
    } else {
        let front = calls.drop_last();
        let before = start.set_all(front);
        lemma_slots_after_calls::<V>(plan, front);
        lemma_set_writes_one_slot(before, calls.last().0, calls.last().1);
        assert forall|i: int| 0 <= i < plan.storage.len() implies #[trigger] start.set_all(
            calls,
        ).slots[i] == slot_after(plan.setters[i].action, calls, i) by {
            assert(coherent_at(plan, i));
            assert(before.slots[i] == slot_after(plan.setters[i].action, front, i));
        }
    }
}

/// Calls made one after the other on the builder that each call returns
/// come to the same as the calls made separately: a series of calls is the
/// first part of the series followed by the rest.
pub proof fn lemma_calls_compose<V>(b: BuilderView<V>, first: Seq<(int, V)>, rest: Seq<(int, V)>)
    ensures
        b.set_all(first + rest) == b.set_all(first).set_all(rest),
    decreases rest.len(),
{
    if rest.len() == 0 {
        assert(first + rest =~= first);
    } else {
        lemma_calls_compose(b, first, rest.drop_last());
        assert((first + rest).drop_last() =~= first + rest.drop_last());
        assert((first + rest).last() == rest.last());
    }
}

/// Where none of the first `n` steps fails, assembly gives what each step
/// makes of its slot, in order.
pub proof fn lemma_assemble_ok<V>(b: BuilderView<V>, n: int)
    requires
        0 <= n,
        forall|i: int|
            0 <= i < n ==> (#[trigger] b.slots[i]).produce(b.plan.assembly[i].rule) is Ok,
    ensures
        b.assemble(n) == Ok::<Seq<FieldValueView<V>>, Seq<char>>(
            Seq::new(n as nat, |i: int| b.slots[i].produce(b.plan.assembly[i].rule)->Ok_0),
        ),
    decreases n,
{
    if n > 0 {
        lemma_assemble_ok(b, n - 1);
        assert(b.slots[n - 1].produce(b.plan.assembly[n - 1].rule) is Ok);
        assert(Seq::new(n as nat, |i: int| b.slots[i].produce(b.plan.assembly[i].rule)->Ok_0)
            =~= Seq::new(
            (n - 1) as nat,
            |i: int| b.slots[i].produce(b.plan.assembly[i].rule)->Ok_0,
        ).push(b.slots[n - 1].produce(b.plan.assembly[n - 1].rule)->Ok_0));
    } else {
        assert(Seq::new(n as nat, |i: int| b.slots[i].produce(b.plan.assembly[i].rule)->Ok_0)
            =~= Seq::<FieldValueView<V>>::empty());
    }
}

/// Assembly fails at the first step that fails, with the message of that
/// step: the steps after it are not looked at.
pub proof fn lemma_assemble_err<V>(b: BuilderView<V>, i: int, n: int)
    requires
        0 <= i < n,
        forall|j: int|
            0 <= j < i ==> (#[trigger] b.slots[j]).produce(b.plan.assembly[j].rule) is Ok,
        b.slots[i].produce(b.plan.assembly[i].rule) is Err,
    ensures
        b.assemble(n) == Err::<Seq<FieldValueView<V>>, Seq<char>>(
            b.slots[i].produce(b.plan.assembly[i].rule)->Err_0,
        ),
{
    lemma_assemble_ok(b, i);
    assert(b.assemble(i + 1) is Err);
    lemma_failure_ends_assembly(b, i + 1, n);
}

/// Where assembly succeeds, the record has one value for each step, and it
/// is what that step makes of its slot.
pub proof fn lemma_assembled_fields<V>(b: BuilderView<V>, n: int)
    requires
        0 <= n,
        b.assemble(n) is Ok,
    ensures
        b.assemble(n)->Ok_0.len() == n,
        forall|i: int|
            0 <= i < n ==> (#[trigger] b.slots[i]).produce(b.plan.assembly[i].rule) == Ok::<
                FieldValueView<V>,
                Seq<char>,
            >(b.assemble(n)->Ok_0[i]),
    decreases n,
{
    if n > 0 {
        lemma_assembled_fields(b, n - 1);
    }
}

/// A series of calls that never names the setter at position `i` hands it
/// nothing.
pub proof fn lemma_never_called<V>(calls: Seq<(int, V)>, i: int)
    requires
        forall|c: int| 0 <= c < calls.len() ==> (#[trigger] calls[c]).0 != i,
    ensures
        last_argument(calls, i) is None,
        arguments(calls, i) == Seq::<V>::empty(),
    decreases calls.len(),
{
    if calls.len() > 0 {
        let front = calls.drop_last();
        assert forall|c: int| 0 <= c < front.len() implies (#[trigger] front[c]).0 != i by {
            assert(front[c] == calls[c]);
        }
        lemma_never_called(front, i);
        assert(calls.last() == calls[calls.len() - 1]);
    }
}

/// Calls that all name the setter at position `i` hand it their values in
/// the order of the calls, and the last of them last.
pub proof fn lemma_called_in_order<V>(values: Seq<V>, i: int)
    ensures
        arguments(Seq::new(values.len(), |c: int| (i, values[c])), i) == values,
        values.len() > 0 ==> last_argument(Seq::new(values.len(), |c: int| (i, values[c])), i)
            == Some(values.last()),
    decreases values.len(),
{
    let calls = Seq::new(values.len(), |c: int| (i, values[c]));
    if values.len() > 0 {
        let front = values.drop_last();
        lemma_called_in_order(front, i);
        assert(calls.drop_last() =~= Seq::new(front.len(), |c: int| (i, front[c])));
        assert(calls.last() == (i, values.last()));
        assert(arguments(calls, i) =~= values);
    } else {
        assert(arguments(calls, i) =~= values);
    }
}

} // verus!
