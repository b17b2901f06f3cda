use builder::parse_type::{classify, detect_option, detect_vec, parse_builder_attribute, Shape};
use builder::record::{Anchor, AttrBody, AttrStyle, Attribute, Diagnostic, Lit, NestedMeta};
use builder::syntax::{
    GenericArgument, Path, PathArguments, PathSegment, QualifiedSelf, TypeExpr,
};

fn segment(name: &str) -> PathSegment {
    PathSegment { ident: name.to_string(), arguments: PathArguments::Absent }
}

fn segment_with(name: &str, arguments: Vec<GenericArgument>) -> PathSegment {
    PathSegment { ident: name.to_string(), arguments: PathArguments::AngleBracketed(arguments) }
}

fn path_type(segments: Vec<PathSegment>) -> TypeExpr {
    TypeExpr::Path { qself: None, path: Path { global: false, segments } }
}

fn plain(name: &str) -> TypeExpr {
    path_type(vec![segment(name)])
}

fn wrapped(name: &str, inner: TypeExpr) -> TypeExpr {
    path_type(vec![segment_with(name, vec![GenericArgument::Type(inner)])])
}

fn qualified(module: &str, name: &str, inner: TypeExpr) -> TypeExpr {
    path_type(vec![
        segment("std"),
        segment(module),
        segment_with(name, vec![GenericArgument::Type(inner)]),
    ])
}

fn name_path(name: &str) -> Path {
    Path { global: false, segments: vec![segment(name)] }
}

fn name_value(key: &str, value: &str) -> NestedMeta {
    NestedMeta::NameValue { path: name_path(key), lit: Lit::Str(value.to_string()) }
}

fn annotation(name: &str, nested: Vec<NestedMeta>, id: usize) -> Attribute {
    Attribute {
        style: AttrStyle::Outer,
        path: name_path(name),
        body: AttrBody::List(nested),
        anchor: Anchor { id },
    }
}

fn expected(id: usize) -> Diagnostic {
    Diagnostic {
        message: "expected `builder(each = \"...\")`".to_string(),
        anchor: Anchor { id },
    }
}

#[test]
fn optional_short_spelling_is_detected() {
    let ty = wrapped("Optional", plain("String"));
    assert_eq!(detect_option(&ty), Some(plain("String")));
    assert_eq!(detect_vec(&ty), None);
    assert_eq!(classify(&ty), Shape::Optional(plain("String")));
}

#[test]
fn optional_full_spelling_is_detected() {
    let ty = qualified("option", "Optional", plain("String"));
    assert_eq!(detect_option(&ty), Some(plain("String")));
    assert_eq!(detect_vec(&ty), None);
    assert_eq!(classify(&ty), Shape::Optional(plain("String")));
}

#[test]
fn both_spellings_of_optional_classify_alike() {
    let inner = wrapped("Collection", plain("u8"));
    let short = classify(&wrapped("Optional", inner.clone()));
    let full = classify(&qualified("option", "Optional", inner.clone()));
    assert_eq!(short, full);
    assert_eq!(short, Shape::Optional(inner));
}

#[test]
fn both_spellings_of_collection_classify_alike() {
    let short = classify(&wrapped("Collection", plain("String")));
    let full = classify(&qualified("vec", "Collection", plain("String")));
    assert_eq!(short, full);
    assert_eq!(short, Shape::Collection(plain("String")));
    assert_eq!(detect_vec(&wrapped("Collection", plain("String"))), Some(plain("String")));
    assert_eq!(detect_option(&wrapped("Collection", plain("String"))), None);
}

#[test]
fn leading_colons_do_not_matter() {
    let ty = TypeExpr::Path {
        qself: None,
        path: Path {
            global: true,
            segments: vec![
                segment("std"),
                segment("vec"),
                segment_with("Collection", vec![GenericArgument::Type(plain("u8"))]),
            ],
        },
    };
    assert_eq!(classify(&ty), Shape::Collection(plain("u8")));
}

#[test]
fn only_the_outer_wrapper_is_taken_off() {
    let inner = wrapped("Optional", plain("u8"));
    let ty = wrapped("Optional", inner.clone());
    assert_eq!(classify(&ty), Shape::Optional(inner));
    let nested = wrapped("Collection", wrapped("Collection", plain("u8")));
    assert_eq!(classify(&nested), Shape::Collection(wrapped("Collection", plain("u8"))));
}

#[test]
fn a_plain_type_is_bare() {
    let ty = plain("String");
    assert_eq!(detect_option(&ty), None);
    assert_eq!(detect_vec(&ty), None);
    assert_eq!(classify(&ty), Shape::Bare(plain("String")));
}

#[test]
fn a_wrong_number_of_segments_is_bare() {
    let two = path_type(vec![
        segment("option"),
        segment_with("Optional", vec![GenericArgument::Type(plain("u8"))]),
    ]);
    assert_eq!(classify(&two), Shape::Bare(two.clone()));
    let four = path_type(vec![
        segment("a"),
        segment("std"),
        segment("option"),
        segment_with("Optional", vec![GenericArgument::Type(plain("u8"))]),
    ]);
    assert_eq!(classify(&four), Shape::Bare(four.clone()));
}

#[test]
fn a_wrong_root_or_module_is_bare() {
    let root = path_type(vec![
        segment("core"),
        segment("option"),
        segment_with("Optional", vec![GenericArgument::Type(plain("u8"))]),
    ]);
    assert_eq!(classify(&root), Shape::Bare(root.clone()));
    let module = qualified("vec", "Optional", plain("u8"));
    assert_eq!(classify(&module), Shape::Bare(module.clone()));
    let crossed = qualified("option", "Collection", plain("u8"));
    assert_eq!(classify(&crossed), Shape::Bare(crossed.clone()));
}

#[test]
fn a_wrapper_without_one_type_argument_is_bare() {
    let none = plain("Optional");
    assert_eq!(classify(&none), Shape::Bare(none.clone()));
    let empty = path_type(vec![segment_with("Optional", vec![])]);
    assert_eq!(classify(&empty), Shape::Bare(empty.clone()));
    let two = path_type(vec![segment_with(
        "Collection",
        vec![GenericArgument::Type(plain("u8")), GenericArgument::Type(plain("A"))],
    )]);
    assert_eq!(classify(&two), Shape::Bare(two.clone()));
    let lifetime =
        path_type(vec![segment_with("Optional", vec![GenericArgument::Other("'a".to_string())])]);
    assert_eq!(classify(&lifetime), Shape::Bare(lifetime.clone()));
    let call = path_type(vec![PathSegment {
        ident: "Optional".to_string(),
        arguments: PathArguments::Parenthesized("(u8)".to_string()),
    }]);
    assert_eq!(classify(&call), Shape::Bare(call.clone()));
}

#[test]
fn a_qualified_self_path_is_bare() {
    let ty = TypeExpr::Path {
        qself: Some(QualifiedSelf { ty: "T".to_string(), position: 0 }),
        path: Path {
            global: false,
            segments: vec![segment_with("Optional", vec![GenericArgument::Type(plain("u8"))])],
        },
    };
    assert_eq!(detect_option(&ty), None);
    assert_eq!(classify(&ty), Shape::Bare(ty.clone()));
}

#[test]
fn a_type_that_is_no_path_is_bare() {
    let ty = TypeExpr::Other("&'static str".to_string());
    assert_eq!(detect_option(&ty), None);
    assert_eq!(detect_vec(&ty), None);
    assert_eq!(classify(&ty), Shape::Bare(ty.clone()));
}

#[test]
fn a_clone_of_a_type_equals_it() {
    let ty = qualified(
        "vec",
        "Collection",
        path_type(vec![segment_with(
            "Cow",
            vec![GenericArgument::Other("'a".to_string()), GenericArgument::Type(plain("str"))],
        )]),
    );
    assert_eq!(ty.clone(), ty);
}

#[test]
fn each_names_the_repeated_setter() {
    let attr = annotation("builder", vec![name_value("each", "arg")], 3);
    assert_eq!(parse_builder_attribute(&attr), Ok(Some("arg".to_string())));
}

#[test]
fn an_inner_annotation_is_passed_over() {
    let mut attr = annotation("builder", vec![name_value("each", "arg")], 0);
    attr.style = AttrStyle::Inner;
    assert_eq!(parse_builder_attribute(&attr), Ok(None));
    let mut broken = annotation("builder", vec![name_value("name", "arg")], 0);
    broken.style = AttrStyle::Inner;
    assert_eq!(parse_builder_attribute(&broken), Ok(None));
}

#[test]
fn another_annotation_is_passed_over() {
    let doc = Attribute {
        style: AttrStyle::Outer,
        path: name_path("doc"),
        body: AttrBody::Other,
        anchor: Anchor { id: 0 },
    };
    assert_eq!(parse_builder_attribute(&doc), Ok(None));
    let serde = annotation("serde", vec![name_value("rename", "x")], 1);
    assert_eq!(parse_builder_attribute(&serde), Ok(None));
}

#[test]
fn a_longer_path_is_passed_over() {
    let attr = Attribute {
        style: AttrStyle::Outer,
        path: Path { global: false, segments: vec![segment("a"), segment("builder")] },
        body: AttrBody::List(vec![name_value("name", "x")]),
        anchor: Anchor { id: 0 },
    };
    assert_eq!(parse_builder_attribute(&attr), Ok(None));
}

#[test]
fn a_path_with_arguments_is_passed_over() {
    let attr = Attribute {
        style: AttrStyle::Outer,
        path: Path {
            global: false,
            segments: vec![segment_with("builder", vec![GenericArgument::Type(plain("u8"))])],
        },
        body: AttrBody::List(vec![name_value("name", "x")]),
        anchor: Anchor { id: 0 },
    };
    assert_eq!(parse_builder_attribute(&attr), Ok(None));
}

#[test]
fn a_wrong_key_is_reported() {
    let attr = annotation("builder", vec![name_value("name", "x")], 7);
    let result = parse_builder_attribute(&attr);
    assert_eq!(result, Err(expected(7)));
    let message = result.unwrap_err().message;
    assert!(message.contains("expected `builder(each = \"...\")`"));
}

#[test]
fn a_misspelt_key_is_reported() {
    let attr = annotation("builder", vec![name_value("eac", "arg")], 2);
    assert_eq!(parse_builder_attribute(&attr), Err(expected(2)));
}

#[test]
fn a_key_of_two_segments_is_reported() {
    let key = Path { global: false, segments: vec![segment("a"), segment("each")] };
    let nested = NestedMeta::NameValue { path: key, lit: Lit::Str("arg".to_string()) };
    let attr = annotation("builder", vec![nested], 4);
    assert_eq!(parse_builder_attribute(&attr), Err(expected(4)));
}

#[test]
fn a_value_that_is_no_string_is_reported() {
    let nested = NestedMeta::NameValue { path: name_path("each"), lit: Lit::Other };
    let attr = annotation("builder", vec![nested], 5);
    assert_eq!(parse_builder_attribute(&attr), Err(expected(5)));
}

#[test]
fn a_list_of_another_length_is_reported() {
    let empty = annotation("builder", vec![], 1);
    assert_eq!(parse_builder_attribute(&empty), Err(expected(1)));
    let two = annotation("builder", vec![name_value("each", "a"), name_value("each", "b")], 2);
    assert_eq!(parse_builder_attribute(&two), Err(expected(2)));
    let other = annotation("builder", vec![NestedMeta::Other], 3);
    assert_eq!(parse_builder_attribute(&other), Err(expected(3)));
}

#[test]
fn a_builder_annotation_without_a_list_is_reported() {
    let attr = Attribute {
        style: AttrStyle::Outer,
        path: name_path("builder"),
        body: AttrBody::Other,
        anchor: Anchor { id: 9 },
    };
    assert_eq!(parse_builder_attribute(&attr), Err(expected(9)));
}
