use confu::{validate, FieldDecl, FieldDescriptor, RecordDecl, Shape, Tag, Violation};

fn field(name: &str, tags: Vec<Tag>) -> FieldDecl {
    FieldDecl { name: name.to_string(), textual: true, tags }
}

fn decl(shape: Shape, tags: Vec<Tag>, fields: Vec<FieldDecl>) -> RecordDecl {
    RecordDecl { name: "Config".to_string(), shape, tags, fields }
}

fn rejected(d: &RecordDecl) -> (Violation, String) {
    match validate(d) {
        Err(e) => (e.violation, e.message),
        Ok(_) => panic!("declaration must be rejected"),
    }
}

#[test]
fn keys_are_derived_from_prefix_and_name() {
    let d = validate(&decl(
        Shape::NamedFields,
        vec![Tag::Prefix("app_".to_string())],
        vec![field("db_user", vec![])],
    ))
    .unwrap();
    assert_eq!(d.prefix, "app_");
    assert_eq!(d.fields[0].env_key, "APP_DB_USER");
    assert_eq!(d.fields[0].arg_key, "app_db_user");
}

#[test]
fn mixed_case_prefix_is_upper_cased() {
    let f = FieldDescriptor::new("My_App_", "Port", None, false, false, false);
    assert_eq!(f.name, "Port");
    assert_eq!(f.env_key, "MY_APP_PORT");
    assert_eq!(f.arg_key, "my_app_port");
}

#[test]
fn missing_prefix_is_empty() {
    let d = validate(&decl(Shape::NamedFields, vec![], vec![field("port", vec![])])).unwrap();
    assert_eq!(d.prefix, "");
    assert_eq!(d.fields[0].env_key, "PORT");
    assert_eq!(d.fields[0].arg_key, "port");
}

#[test]
fn descriptor_carries_tags() {
    let d = validate(&decl(
        Shape::NamedFields,
        vec![Tag::Prefix("APP_".to_string())],
        vec![
            field("a", vec![Tag::Default("x".to_string()), Tag::Protect]),
            field("b", vec![Tag::Require]),
            field("c", vec![Tag::Hide]),
        ],
    ))
    .unwrap();
    assert_eq!(d.name, "Config");
    assert_eq!(d.fields.len(), 3);
    assert_eq!(d.fields[0].default, Some("x".to_string()));
    assert!(d.fields[0].protected && !d.fields[0].required && !d.fields[0].hidden);
    assert!(d.fields[1].required && d.fields[1].default.is_none());
    assert!(d.fields[2].hidden && !d.fields[2].protected);
}

#[test]
fn empty_record_is_rejected() {
    let (v, m) = rejected(&decl(Shape::NamedFields, vec![], vec![]));
    assert_eq!(v, Violation::NotNamedRecord);
    assert_eq!(m, "Config: only records with named fields are supported");
}

#[test]
fn sum_and_unnamed_types_are_rejected() {
    for shape in [Shape::Sum, Shape::UnnamedFields, Shape::Unit] {
        let (v, _) = rejected(&decl(shape, vec![], vec![field("a", vec![])]));
        assert_eq!(v, Violation::NotNamedRecord);
    }
}

#[test]
fn non_textual_field_is_rejected() {
    let mut f = field("port", vec![]);
    f.textual = false;
    let (v, m) = rejected(&decl(Shape::NamedFields, vec![], vec![field("a", vec![]), f]));
    assert_eq!(v, Violation::NonTextualField { field: 1 });
    assert_eq!(m, "only textual fields are supported: Config.port");
}

#[test]
fn require_and_default_are_rejected() {
    let (v, m) = rejected(&decl(
        Shape::NamedFields,
        vec![],
        vec![field("a", vec![Tag::Require, Tag::Default("x".to_string())])],
    ));
    assert_eq!(v, Violation::RequireAndDefault { field: 0 });
    assert_eq!(m, "require and default are mutually exclusive on Config.a");
}

#[test]
fn hide_and_protect_are_rejected() {
    let (v, m) = rejected(&decl(Shape::NamedFields, vec![], vec![field("a", vec![Tag::Protect, Tag::Hide])]));
    assert_eq!(v, Violation::HideAndProtect { field: 0 });
    assert_eq!(m, "hide and protect are mutually exclusive on Config.a");
}

#[test]
fn unknown_field_tag_is_rejected() {
    let (v, m) = rejected(&decl(
        Shape::NamedFields,
        vec![],
        vec![field("a", vec![Tag::Hide, Tag::Other("secret".to_string())])],
    ));
    assert_eq!(v, Violation::UnsupportedTag { field: 0, tag: 1 });
    assert_eq!(m, "unsupported tag secret on Config.a");
}

#[test]
fn prefix_on_a_field_is_rejected() {
    let (v, m) = rejected(&decl(
        Shape::NamedFields,
        vec![],
        vec![field("a", vec![Tag::Prefix("X_".to_string())])],
    ));
    assert_eq!(v, Violation::UnsupportedTag { field: 0, tag: 0 });
    assert_eq!(m, "unsupported tag prefix on Config.a");
}

#[test]
fn repeated_field_tag_is_rejected() {
    let (v, m) = rejected(&decl(
        Shape::NamedFields,
        vec![],
        vec![field("a", vec![Tag::Default("x".to_string()), Tag::Default("y".to_string())])],
    ));
    assert_eq!(v, Violation::DuplicateTag { field: 0, tag: 1 });
    assert_eq!(m, "repeated tag default on Config.a");
}

#[test]
fn unknown_record_tag_is_rejected() {
    let (v, m) = rejected(&decl(Shape::NamedFields, vec![Tag::Hide], vec![field("a", vec![])]));
    assert_eq!(v, Violation::UnsupportedRecordTag { tag: 0 });
    assert_eq!(m, "unsupported tag hide on Config");
}

#[test]
fn repeated_prefix_is_rejected() {
    let (v, m) = rejected(&decl(
        Shape::NamedFields,
        vec![Tag::Prefix("A_".to_string()), Tag::Prefix("B_".to_string())],
        vec![field("a", vec![])],
    ));
    assert_eq!(v, Violation::DuplicateRecordTag { tag: 1 });
    assert_eq!(m, "repeated tag prefix on Config");
}

#[test]
fn first_offending_field_is_reported() {
    let (v, _) = rejected(&decl(
        Shape::NamedFields,
        vec![],
        vec![
            field("ok", vec![Tag::Require]),
            field("bad", vec![Tag::Hide, Tag::Protect]),
            field("worse", vec![Tag::Other("x".to_string())]),
        ],
    ));
    assert_eq!(v, Violation::HideAndProtect { field: 1 });
}
