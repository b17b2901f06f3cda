use builder::fragment::BuilderFragment;
use builder::record::{
    Anchor, AttrBody, AttrStyle, Attribute, Field, Lit, NestedMeta, Record, Visibility,
};
use builder::runtime::{Builder, FieldValue, Slot};
use builder::syntax::{GenericArgument, Path, PathArguments, PathSegment, TypeExpr};

fn name_path(name: &str) -> Path {
    Path {
        global: false,
        segments: vec![PathSegment { ident: name.to_string(), arguments: PathArguments::Absent }],
    }
}

fn plain(name: &str) -> TypeExpr {
    TypeExpr::Path { qself: None, path: name_path(name) }
}

fn wrapped(name: &str, inner: TypeExpr) -> TypeExpr {
    TypeExpr::Path {
        qself: None,
        path: Path {
            global: false,
            segments: vec![PathSegment {
                ident: name.to_string(),
                arguments: PathArguments::AngleBracketed(vec![GenericArgument::Type(inner)]),
            }],
        },
    }
}

fn each(value: &str) -> Attribute {
    Attribute {
        style: AttrStyle::Outer,
        path: name_path("builder"),
        body: AttrBody::List(vec![NestedMeta::NameValue {
            path: name_path("each"),
            lit: Lit::Str(value.to_string()),
        }]),
        anchor: Anchor { id: 0 },
    }
}

fn field(name: &str, ty: TypeExpr, attrs: Vec<Attribute>) -> Field {
    Field { ident: name.to_string(), ty, attrs }
}

fn plan_of(fields: Vec<Field>) -> BuilderFragment {
    let record = Record { vis: Visibility::Public, ident: "Command".to_string(), fields };
    builder::derive::derive(&record).unwrap()
}

fn bare_plan() -> BuilderFragment {
    plan_of(vec![
        field("executable", plain("String"), vec![]),
        field("current_dir", plain("String"), vec![]),
        field("shell", plain("String"), vec![]),
    ])
}

fn command_plan() -> BuilderFragment {
    plan_of(vec![
        field("executable", plain("String"), vec![]),
        field("args", wrapped("Collection", plain("String")), vec![each("arg")]),
        field("env", wrapped("Collection", plain("String")), vec![each("env")]),
        field("current_dir", wrapped("Optional", plain("String")), vec![]),
    ])
}

#[test]
fn a_new_builder_holds_nothing() {
    let plan = command_plan();
    let b: Builder<&str> = Builder::new(&plan).unwrap();
    assert_eq!(
        b.slots,
        vec![Slot::Single(None), Slot::Repeated(vec![]), Slot::Repeated(vec![]), Slot::Single(None)]
    );
}

#[test]
fn assembly_names_the_first_unset_field() {
    let plan = bare_plan();
    let mut b: Builder<&str> = Builder::new(&plan).unwrap();
    assert_eq!(b.build(), Err("executable has not been set.".to_string()));
    b.call("shell", "sh");
    assert_eq!(b.build(), Err("executable has not been set.".to_string()));
    b.call("executable", "cargo");
    assert_eq!(b.build(), Err("current_dir has not been set.".to_string()));
    b.call("current_dir", "..");
    assert_eq!(
        b.build(),
        Ok(vec![
            FieldValue::Required("cargo"),
            FieldValue::Required(".."),
            FieldValue::Required("sh"),
        ])
    );
}

#[test]
fn a_field_set_twice_keeps_the_last_value() {
    let plan = bare_plan();
    let mut b: Builder<u32> = Builder::new(&plan).unwrap();
    b.set(0, 1).set(1, 2).set(2, 3).set(1, 20);
    assert_eq!(
        b.build(),
        Ok(vec![FieldValue::Required(1), FieldValue::Required(20), FieldValue::Required(3)])
    );
}

#[test]
fn an_optional_field_may_stay_unset() {
    let plan = command_plan();
    let mut b: Builder<&str> = Builder::new(&plan).unwrap();
    b.call("executable", "cargo");
    assert_eq!(
        b.build(),
        Ok(vec![
            FieldValue::Required("cargo"),
            FieldValue::Collection(vec![]),
            FieldValue::Collection(vec![]),
            FieldValue::Optional(None),
        ])
    );
    b.call("current_dir", "..");
    assert_eq!(
        b.build(),
        Ok(vec![
            FieldValue::Required("cargo"),
            FieldValue::Collection(vec![]),
            FieldValue::Collection(vec![]),
            FieldValue::Optional(Some("..")),
        ])
    );
}

#[test]
fn a_repeated_setter_collects_in_call_order() {
    let plan = command_plan();
    let mut b: Builder<&str> = Builder::new(&plan).unwrap();
    b.call("arg", "build").call("env", "A=1").call("arg", "--release").call("executable", "cargo");
    b.call("arg", "-q");
    assert_eq!(
        b.build(),
        Ok(vec![
            FieldValue::Required("cargo"),
            FieldValue::Collection(vec!["build", "--release", "-q"]),
            FieldValue::Collection(vec!["A=1"]),
            FieldValue::Optional(None),
        ])
    );
}

#[test]
fn a_repeated_field_has_no_setter_of_its_own_name() {
    let plan = command_plan();
    assert_eq!(plan.setter_named("arg"), Some(1));
    assert_eq!(plan.setter_named("args"), None);
    assert_eq!(plan.setter_named("env"), Some(2));
    let mut b: Builder<&str> = Builder::new(&plan).unwrap();
    b.call("args", "build");
    assert_eq!(b.slots[1], Slot::Repeated(vec![]));
}

#[test]
fn an_unset_required_field_fails_before_later_ones() {
    let plan = plan_of(vec![
        field("a", wrapped("Optional", plain("u8")), vec![]),
        field("b", plain("u8"), vec![]),
        field("c", wrapped("Collection", plain("u8")), vec![each("push")]),
        field("d", plain("u8"), vec![]),
    ]);
    let mut b: Builder<u8> = Builder::new(&plan).unwrap();
    b.call("push", 1);
    assert_eq!(b.build(), Err("b has not been set.".to_string()));
    b.call("b", 2);
    assert_eq!(b.build(), Err("d has not been set.".to_string()));
    b.call("d", 4);
    assert_eq!(
        b.build(),
        Ok(vec![
            FieldValue::Optional(None),
            FieldValue::Required(2),
            FieldValue::Collection(vec![1]),
            FieldValue::Required(4),
        ])
    );
}

#[test]
fn assembly_can_be_repeated() {
    let plan = command_plan();
    let mut b: Builder<&str> = Builder::new(&plan).unwrap();
    b.call("executable", "cargo").call("arg", "build").call("current_dir", "..");
    let slots_before = format!("{:?}", b.slots);
    let first = b.build();
    let second = b.build();
    assert_eq!(first, second);
    assert_eq!(
        first,
        Ok(vec![
            FieldValue::Required("cargo"),
            FieldValue::Collection(vec!["build"]),
            FieldValue::Collection(vec![]),
            FieldValue::Optional(Some("..")),
        ])
    );
    assert_eq!(format!("{:?}", b.slots), slots_before);
    let mut unset: Builder<&str> = Builder::new(&plan).unwrap();
    assert_eq!(unset.build(), unset.build());
    assert_eq!(unset.build(), Err("executable has not been set.".to_string()));
}

#[test]
fn chained_calls_equal_separate_calls() {
    let plan = command_plan();
    let mut chained: Builder<&str> = Builder::new(&plan).unwrap();
    chained.call("executable", "cargo").call("arg", "build").call("arg", "-q").call("env", "A=1");
    let mut separate: Builder<&str> = Builder::new(&plan).unwrap();
    separate.call("executable", "cargo");
    separate.call("arg", "build");
    separate.call("arg", "-q");
    separate.call("env", "A=1");
    assert_eq!(chained.slots, separate.slots);
    assert_eq!(chained.build(), separate.build());
    assert_eq!(
        chained.call("current_dir", "..").build(),
        Ok(vec![
            FieldValue::Required("cargo"),
            FieldValue::Collection(vec!["build", "-q"]),
            FieldValue::Collection(vec!["A=1"]),
            FieldValue::Optional(Some("..")),
        ])
    );
}

#[test]
fn a_setter_returns_the_builder_it_was_given() {
    let plan = bare_plan();
    let mut b: Builder<u32> = Builder::new(&plan).unwrap();
    let handle = b.set(0, 7);
    handle.slots[1] = Slot::Single(Some(8));
    assert_eq!(b.slots, vec![Slot::Single(Some(7)), Slot::Single(Some(8)), Slot::Single(None)]);
}

#[test]
fn a_position_without_a_setter_changes_nothing() {
    let plan = bare_plan();
    let mut b: Builder<u32> = Builder::new(&plan).unwrap();
    b.set(3, 1).set(usize::MAX, 2);
    assert_eq!(b.slots, vec![Slot::Single(None), Slot::Single(None), Slot::Single(None)]);
}

#[test]
fn a_layout_that_disagrees_with_itself_has_no_builder() {
    let mut shorter = command_plan();
    shorter.setters.pop();
    assert!(!shorter.is_coherent());
    assert!(Builder::<u8>::new(&shorter).is_none());
    let mut renamed = command_plan();
    renamed.assembly[0].field = "program".to_string();
    assert!(!renamed.is_coherent());
    assert!(Builder::<u8>::new(&renamed).is_none());
    let mut mixed = command_plan();
    mixed.init.swap(0, 1);
    assert!(!mixed.is_coherent());
    assert!(Builder::<u8>::new(&mixed).is_none());
    assert!(command_plan().is_coherent());
}

#[test]
fn a_whole_collection_is_one_value() {
    let plan = plan_of(vec![field("env", wrapped("Collection", plain("String")), vec![])]);
    let mut b: Builder<&str> = Builder::new(&plan).unwrap();
    assert_eq!(b.build(), Err("env has not been set.".to_string()));
    b.call("env", "A=1,B=2");
    assert_eq!(b.build(), Ok(vec![FieldValue::Required("A=1,B=2")]));
}
