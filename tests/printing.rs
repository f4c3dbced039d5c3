use confu::printer::{line_of, note_of};
use confu::{
    validate, version_key, BuildInfo, BuildKind, Config, FieldDecl, FieldDescriptor, RecordDecl,
    RecordDescriptor, Shape, Tag,
};

fn field(name: &str, tags: Vec<Tag>) -> FieldDecl {
    FieldDecl { name: name.to_string(), textual: true, tags }
}

fn record(fields: Vec<FieldDecl>) -> RecordDescriptor {
    let decl = RecordDecl {
        name: "Config".to_string(),
        shape: Shape::NamedFields,
        tags: vec![Tag::Prefix("APP_".to_string())],
        fields,
    };
    validate(&decl).unwrap()
}

fn debug_build() -> BuildInfo {
    BuildInfo::capture(false, None)
}

fn bound(fields: Vec<FieldDecl>, args: &[&str], env: &[(&str, &str)]) -> Config {
    let mut a = vec!["prog".to_string()];
    for x in args {
        a.push(x.to_string());
    }
    let e: Vec<(String, String)> = env.iter().map(|(k, v)| (k.to_string(), v.to_string())).collect();
    Config::bind(record(fields), &a, &e).unwrap()
}

#[test]
fn defaults_only_summary() {
    let c = bound(
        vec![
            field("db_user", vec![Tag::Default("postgres".to_string())]),
            field("db_password", vec![Tag::Protect, Tag::Default("postgres".to_string())]),
        ],
        &[],
        &[],
    );
    assert_eq!(
        c.show(&debug_build()),
        vec![
            "  build: debug".to_string(),
            "version: <unspecified>".to_string(),
            "".to_string(),
            "APP_DB_USER/--app_db_user=postgres  (default: \"postgres\")".to_string(),
            "APP_DB_PASSWORD/--app_db_password=xxxxxxx  (default: \"xxxxxxx\")".to_string(),
        ]
    );
}

#[test]
fn hidden_field_gives_no_line() {
    let c = bound(
        vec![field("a", vec![]), field("super_secret", vec![Tag::Hide]), field("b", vec![])],
        &["--app_super_secret=topsecret", "--app_a=1"],
        &[],
    );
    let lines = c.show(&debug_build());
    assert_eq!(lines.len(), 5);
    assert_eq!(lines[3], "APP_A/--app_a=1  ");
    assert_eq!(lines[4], "APP_B/--app_b=  ");
    for l in &lines {
        assert!(!l.contains("super_secret"));
        assert!(!l.contains("SUPER_SECRET"));
        assert!(!l.contains("topsecret"));
    }
}

#[test]
fn protected_value_is_masked() {
    let c = bound(vec![field("token", vec![Tag::Protect])], &["--app_token=hunter2"], &[]);
    let lines = c.show(&debug_build());
    assert_eq!(lines[3], "APP_TOKEN/--app_token=xxxxxxx  ");
    assert!(!lines.iter().any(|l| l.contains("hunter2")));
}

#[test]
fn protected_empty_value_is_still_masked() {
    let c = bound(vec![field("token", vec![Tag::Protect])], &[], &[]);
    assert_eq!(c.show(&debug_build())[3], "APP_TOKEN/--app_token=xxxxxxx  ");
}

#[test]
fn protected_default_is_masked() {
    let c = bound(
        vec![field("pw", vec![Tag::Default("s3cret".to_string()), Tag::Protect])],
        &[],
        &[("APP_PW", "live")],
    );
    let lines = c.show(&debug_build());
    assert_eq!(lines[3], "APP_PW/--app_pw=xxxxxxx  (default: \"xxxxxxx\")");
    assert!(!lines.iter().any(|l| l.contains("s3cret") || l.contains("live")));
}

#[test]
fn required_note() {
    let c = bound(vec![field("telemetry", vec![Tag::Require])], &[], &[("APP_TELEMETRY", "on")]);
    assert_eq!(c.show(&debug_build())[3], "APP_TELEMETRY/--app_telemetry=on  (required)");
}

#[test]
fn printing_twice_gives_same_output() {
    let c = bound(
        vec![
            field("db_user", vec![Tag::Default("postgres".to_string())]),
            field("x", vec![Tag::Hide]),
        ],
        &[],
        &[("APP_DB_USER", "alice")],
    );
    let b = BuildInfo::capture(true, Some("1.2.3".to_string()));
    let first = c.show(&b);
    let second = c.show(&b);
    assert_eq!(first, second);
    assert_eq!(first[0], "  build: release");
    assert_eq!(first[1], "version: 1.2.3");
}

#[test]
fn all_empty_record_prints() {
    let c = bound(vec![field("a", vec![]), field("b", vec![])], &[], &[]);
    assert_eq!(
        c.show(&debug_build()),
        vec![
            "  build: debug".to_string(),
            "version: <unspecified>".to_string(),
            "".to_string(),
            "APP_A/--app_a=  ".to_string(),
            "APP_B/--app_b=  ".to_string(),
        ]
    );
}

#[test]
fn build_info_capture() {
    let d = BuildInfo::capture(false, None);
    assert_eq!(d.kind, BuildKind::Debug);
    assert_eq!(d.version, "<unspecified>");
    let r = BuildInfo::capture(true, Some("".to_string()));
    assert_eq!(r.kind, BuildKind::Release);
    assert_eq!(r.version, "");
}

#[test]
fn version_key_uses_prefix_as_declared() {
    assert_eq!(version_key("APP_"), "APP_VERSION");
    assert_eq!(version_key("app_"), "app_VERSION");
    assert_eq!(version_key(""), "VERSION");
}

#[test]
fn note_and_line_of_a_descriptor() {
    let f = FieldDescriptor::new("APP_", "x", Some("d".to_string()), false, false, false);
    assert_eq!(note_of(&f), "(default: \"d\")");
    assert_eq!(line_of(&f, "v"), "APP_X/--app_x=v  (default: \"d\")");
    let g = FieldDescriptor::new("APP_", "x", None, false, false, false);
    assert_eq!(note_of(&g), "");
}
