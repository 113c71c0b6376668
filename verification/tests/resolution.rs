use gwa::adapters::{plan_create, resolve_invocation, CreatePlan};
use gwa::error::{ConfigError, Reason, ValidationError};
use gwa::field::{Field, FieldValue};
use gwa::record::ConfigurationRecord;
use gwa::resolver::{resolve, resolve_destination};
use gwa::source::{AllDefaults, CliFlags, FieldSource, HostMapping};

fn text(s: &str) -> FieldValue {
    FieldValue::Text(s.to_string())
}

fn mapping(entries: &[(&str, FieldValue)]) -> HostMapping {
    let mut m = HostMapping::new();
    for (key, value) in entries {
        m.insert(key.to_string(), value.clone());
    }
    m
}

fn invalid(field: Field, reason: Reason) -> ConfigError {
    ConfigError::Validation(ValidationError { field, reason })
}

fn full_mapping() -> HostMapping {
    mapping(&[
        ("project_name", text("Shop")),
        ("author_name", text("Ada")),
        ("author_email", text("ada@example.org")),
        ("app_identifier", text("org.example.shop")),
        ("db_name", text("shopdb")),
        ("db_owner_admin", text("boss")),
        ("db_owner_pword", text("s3cret")),
        ("include_server", FieldValue::Flag(false)),
        ("include_frontend", FieldValue::Flag(true)),
        ("include_tauri_desktop", FieldValue::Flag(false)),
        ("deno_package_name", text("@ada/shop")),
        ("destination", text("/tmp/out")),
    ])
}

#[test]
fn fast_track_resolves_my_app() {
    let source = AllDefaults { project_name: "My-App".to_string() };
    let rec = resolve(&source).unwrap();
    assert_eq!(rec.project_name, "My-App");
    assert_eq!(rec.app_identifier, "com.example.myapp");
    assert_eq!(rec.db_name, Some("my_app".to_string()));
    assert_eq!(rec.db_owner_admin, Some("my_app_owner".to_string()));
    assert!(rec.include_server);
    assert!(rec.include_frontend);
    assert!(rec.include_tauri_desktop);
    assert_eq!(rec.author_name, "Test User");
    assert_eq!(rec.author_email, "test@example.com");
    assert_eq!(rec.db_owner_pword, Some("password".to_string()));
    assert_eq!(rec.deno_package_name, "@test/gwa-project");
}

#[test]
fn empty_project_name_is_missing() {
    let m = mapping(&[("project_name", text(""))]);
    assert_eq!(resolve(&m), Err(ConfigError::MissingRequiredField));
    let source = AllDefaults { project_name: String::new() };
    assert_eq!(resolve(&source), Err(ConfigError::MissingRequiredField));
}

#[test]
fn owner_derives_from_explicit_database_name() {
    let m = mapping(&[("project_name", text("demo")), ("db_name", text("custom_db"))]);
    let rec = resolve(&m).unwrap();
    assert_eq!(rec.db_name, Some("custom_db".to_string()));
    assert_eq!(rec.db_owner_admin, Some("custom_db_owner".to_string()));
    assert_eq!(rec.app_identifier, "com.example.demo");
}

#[test]
fn defaults_follow_the_project_name() {
    for name in ["a", "Hello-World", "x-Y-z", "UPPER", "already_snake", "-", "Α-Σ"] {
        let rec = resolve(&AllDefaults { project_name: name.to_string() }).unwrap();
        let lowered = name.to_lowercase();
        assert_eq!(rec.app_identifier, format!("com.example.{}", lowered.replace('-', "")));
        assert_eq!(rec.db_name, Some(lowered.replace('-', "_")));
        assert_eq!(rec.db_owner_admin, Some(format!("{}_owner", lowered.replace('-', "_"))));
    }
}

#[test]
fn missing_project_name_fails_whatever_else_is_there() {
    assert_eq!(resolve(&HostMapping::new()), Err(ConfigError::MissingRequiredField));
    let m = mapping(&[
        ("author_name", text("Ada")),
        ("db_name", text("db")),
        ("include_server", FieldValue::Flag(false)),
    ]);
    assert_eq!(resolve(&m), Err(ConfigError::MissingRequiredField));
    // Not even a value of the wrong kind or a bad address comes first.
    let m = mapping(&[("author_email", text("nobody")), ("include_server", text("yes"))]);
    assert_eq!(resolve(&m), Err(ConfigError::MissingRequiredField));
    let flags = CliFlags { name: None, destination: ".".to_string(), yes: true };
    assert_eq!(resolve(&flags), Err(ConfigError::MissingRequiredField));
}

#[test]
fn explicit_values_win() {
    let rec = resolve(&full_mapping()).unwrap();
    assert_eq!(
        rec,
        ConfigurationRecord {
            project_name: "Shop".to_string(),
            author_name: "Ada".to_string(),
            author_email: "ada@example.org".to_string(),
            app_identifier: "org.example.shop".to_string(),
            db_name: Some("shopdb".to_string()),
            db_owner_admin: Some("boss".to_string()),
            db_owner_pword: Some("s3cret".to_string()),
            include_server: false,
            include_frontend: true,
            include_tauri_desktop: false,
            deno_package_name: "@ada/shop".to_string(),
        }
    );
}

#[test]
fn explicit_empty_text_is_kept_where_nothing_checks_it() {
    let m = mapping(&[
        ("project_name", text("demo")),
        ("author_name", text("")),
        ("db_name", text("")),
        ("db_owner_pword", text("")),
        ("deno_package_name", text("")),
    ]);
    let rec = resolve(&m).unwrap();
    assert_eq!(rec.author_name, "");
    assert_eq!(rec.db_name, Some(String::new()));
    assert_eq!(rec.db_owner_admin, Some("_owner".to_string()));
    assert_eq!(rec.db_owner_pword, Some(String::new()));
    assert_eq!(rec.deno_package_name, "");
    let m = mapping(&[("project_name", text("demo")), ("db_owner_admin", text(""))]);
    assert_eq!(resolve(&m).unwrap().db_owner_admin, Some(String::new()));
}

#[test]
fn explicit_values_are_validated_not_replaced() {
    let m = mapping(&[("project_name", text("demo")), ("author_email", text(""))]);
    assert_eq!(resolve(&m), Err(invalid(Field::AuthorEmail, Reason::MissingAt)));
    let m = mapping(&[("project_name", text("demo")), ("author_email", text("@x"))]);
    assert_eq!(resolve(&m), Err(invalid(Field::AuthorEmail, Reason::EmptyLocalPart)));
    let m = mapping(&[("project_name", text("demo")), ("author_email", text("x@"))]);
    assert_eq!(resolve(&m), Err(invalid(Field::AuthorEmail, Reason::EmptyDomain)));
    let m = mapping(&[("project_name", text("demo")), ("app_identifier", text(""))]);
    assert_eq!(resolve(&m), Err(invalid(Field::AppIdentifier, Reason::Empty)));
}

#[test]
fn the_first_failing_field_is_reported() {
    let m = mapping(&[
        ("project_name", text("demo")),
        ("app_identifier", text("")),
        ("author_email", text("nobody")),
    ]);
    assert_eq!(resolve(&m), Err(invalid(Field::AuthorEmail, Reason::MissingAt)));
    // A value of the wrong kind is found before any validator runs.
    let m = mapping(&[
        ("project_name", text("demo")),
        ("author_email", text("nobody")),
        ("include_frontend", text("yes")),
        ("db_name", FieldValue::Flag(true)),
    ]);
    assert_eq!(resolve(&m), Err(invalid(Field::DbName, Reason::WrongKind)));
}

#[test]
fn values_of_the_wrong_kind_are_turned_down() {
    let m = mapping(&[("project_name", FieldValue::Flag(true))]);
    assert_eq!(resolve(&m), Err(invalid(Field::ProjectName, Reason::WrongKind)));
    let m = mapping(&[("project_name", FieldValue::Other)]);
    assert_eq!(resolve(&m), Err(invalid(Field::ProjectName, Reason::WrongKind)));
    let m = mapping(&[("project_name", text("demo")), ("include_server", text("true"))]);
    assert_eq!(resolve(&m), Err(invalid(Field::IncludeServer, Reason::WrongKind)));
    let m = mapping(&[("project_name", text("demo")), ("include_tauri_desktop", FieldValue::Other)]);
    assert_eq!(resolve(&m), Err(invalid(Field::IncludeTauriDesktop, Reason::WrongKind)));
    let m = mapping(&[("project_name", text("demo")), ("deno_package_name", FieldValue::Flag(false))]);
    assert_eq!(resolve(&m), Err(invalid(Field::DenoPackageName, Reason::WrongKind)));
}

#[test]
fn resolving_twice_gives_the_same_record() {
    let m = full_mapping();
    assert_eq!(resolve(&m), resolve(&m));
    let d = AllDefaults { project_name: "My-App".to_string() };
    assert_eq!(resolve(&d), resolve(&d));
}

#[test]
fn a_resolved_record_resolves_to_itself() {
    let rec = resolve(&AllDefaults { project_name: "My-App".to_string() }).unwrap();
    assert_eq!(resolve(&rec), Ok(rec.clone()));
    let rec = resolve(&full_mapping()).unwrap();
    assert_eq!(resolve(&rec), Ok(rec.clone()));
}

#[test]
fn record_reports_its_values() {
    let rec = resolve(&full_mapping()).unwrap();
    assert_eq!(rec.get(Field::ProjectName), Some(text("Shop")));
    assert_eq!(rec.get(Field::DbName), Some(text("shopdb")));
    assert_eq!(rec.get(Field::IncludeServer), Some(FieldValue::Flag(false)));
    assert_eq!(rec.get(Field::DenoPackageName), Some(text("@ada/shop")));
    assert_eq!(rec.get(Field::Destination), None);
    let mut bare = rec.clone();
    bare.db_name = None;
    assert_eq!(bare.get(Field::DbName), None);
    assert_eq!(bare.get_optional(Field::DbName), None);
}

#[test]
fn record_check_finds_the_first_problem() {
    let mut rec = resolve(&full_mapping()).unwrap();
    assert_eq!(rec.check(), Ok(()));
    rec.app_identifier = String::new();
    assert_eq!(rec.check(), Err(ValidationError { field: Field::AppIdentifier, reason: Reason::Empty }));
    rec.author_email = "x".to_string();
    assert_eq!(rec.check(), Err(ValidationError { field: Field::AuthorEmail, reason: Reason::MissingAt }));
    rec.project_name = String::new();
    assert_eq!(rec.check(), Err(ValidationError { field: Field::ProjectName, reason: Reason::Empty }));
}

#[test]
fn host_mapping_behaves_like_a_dictionary() {
    let mut m = HostMapping::new();
    assert_eq!(m.get("project_name"), None);
    m.insert("project_name".to_string(), text("one"));
    m.insert("other".to_string(), FieldValue::Other);
    m.insert("project_name".to_string(), text("two"));
    assert_eq!(m.get("project_name"), Some(text("two")));
    assert_eq!(m.get("other"), Some(FieldValue::Other));
    assert_eq!(m.get("Project_name"), None);
    assert_eq!(m.get_optional(Field::ProjectName), Some(text("two")));
    assert_eq!(m.get_optional(Field::DbName), None);
    assert_eq!(resolve(&m).unwrap().project_name, "two");
}

#[test]
fn sources_hold_what_they_were_given() {
    let flags = CliFlags { name: Some("app".to_string()), destination: "out".to_string(), yes: false };
    assert_eq!(flags.get_optional(Field::ProjectName), Some(text("app")));
    assert_eq!(flags.get_optional(Field::Destination), Some(text("out")));
    assert_eq!(flags.get_optional(Field::AuthorName), None);
    let d = AllDefaults { project_name: "app".to_string() };
    assert_eq!(d.get_optional(Field::ProjectName), Some(text("app")));
    assert_eq!(d.get_optional(Field::Destination), None);
    assert_eq!(d.get_optional(Field::IncludeServer), None);
}

#[test]
fn destination_defaults_to_the_current_directory() {
    let m = mapping(&[("project_name", text("demo"))]);
    assert_eq!(resolve_destination(&m), Ok(".".to_string()));
    assert_eq!(resolve_destination(&full_mapping()), Ok("/tmp/out".to_string()));
    let m = mapping(&[("destination", text(""))]);
    assert_eq!(resolve_destination(&m), Ok(String::new()));
    let m = mapping(&[("destination", FieldValue::Flag(true))]);
    assert_eq!(resolve_destination(&m), Err(invalid(Field::Destination, Reason::WrongKind)));
}

#[test]
fn host_call_resolves_record_and_destination() {
    let inv = resolve_invocation(&full_mapping()).unwrap();
    assert_eq!(inv.destination, "/tmp/out");
    assert_eq!(inv.record.project_name, "Shop");
    let inv = resolve_invocation(&mapping(&[("project_name", text("demo"))])).unwrap();
    assert_eq!(inv.destination, ".");
    assert_eq!(inv.record.db_name, Some("demo".to_string()));
    assert_eq!(
        resolve_invocation(&mapping(&[("destination", text("out"))])),
        Err(ConfigError::MissingRequiredField)
    );
    assert_eq!(
        resolve_invocation(&mapping(&[("project_name", text("demo")), ("destination", FieldValue::Other)])),
        Err(invalid(Field::Destination, Reason::WrongKind))
    );
}

#[test]
fn command_line_plans_the_fast_track() {
    let flags = CliFlags { name: Some("My-App".to_string()), destination: ".".to_string(), yes: true };
    match plan_create(&flags) {
        Ok(CreatePlan::FastTrack(rec)) => {
            assert_eq!(rec, resolve(&AllDefaults { project_name: "My-App".to_string() }).unwrap());
            assert_eq!(rec.db_name, Some("my_app".to_string()));
        }
        other => panic!("unexpected plan: {:?}", other),
    }
}

#[test]
fn fast_track_needs_a_name() {
    let flags = CliFlags { name: None, destination: ".".to_string(), yes: true };
    assert!(matches!(plan_create(&flags), Err(ConfigError::MissingRequiredField)));
    let flags = CliFlags { name: Some(String::new()), destination: ".".to_string(), yes: true };
    assert!(matches!(plan_create(&flags), Err(ConfigError::MissingRequiredField)));
}

#[test]
fn command_line_plans_the_interactive_flow() {
    let flags = CliFlags { name: Some("app".to_string()), destination: ".".to_string(), yes: false };
    match plan_create(&flags) {
        Ok(CreatePlan::Interactive(flow)) => {
            let prompt = flow.pending().unwrap();
            assert_eq!(prompt.field, Field::ProjectName);
            assert_eq!(prompt.suggestion, Some(text("app")));
        }
        other => panic!("unexpected plan: {:?}", other),
    }
    let flags = CliFlags { name: None, destination: ".".to_string(), yes: false };
    match plan_create(&flags) {
        Ok(CreatePlan::Interactive(flow)) => {
            assert_eq!(flow.pending().unwrap().suggestion, None);
        }
        other => panic!("unexpected plan: {:?}", other),
    }
}
