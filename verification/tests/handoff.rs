use gwa::error::ConfigError;
use gwa::field::FieldValue;
use gwa::handoff::{generation_outcome, template_text, template_request, template_variables};
use gwa::record::ConfigurationRecord;
use gwa::resolver::resolve;
use gwa::source::AllDefaults;

fn pair(k: &str, v: &str) -> (String, String) {
    (k.to_string(), v.to_string())
}

fn my_app() -> ConfigurationRecord {
    resolve(&AllDefaults { project_name: "My-App".to_string() }).unwrap()
}

#[test]
fn stringify_values() {
    assert_eq!(template_text(&Some(FieldValue::Text("abc".to_string()))), "abc");
    assert_eq!(template_text(&Some(FieldValue::Flag(true))), "true");
    assert_eq!(template_text(&Some(FieldValue::Flag(false))), "false");
    assert_eq!(template_text(&None), "");
    assert_eq!(template_text(&Some(FieldValue::Other)), "");
}

#[test]
fn variables_of_a_resolved_record() {
    assert_eq!(
        template_variables(&my_app()),
        vec![
            pair("project_name", "My-App"),
            pair("author_name", "Test User"),
            pair("author_email", "test@example.com"),
            pair("app_identifier", "com.example.myapp"),
            pair("db_name", "my_app"),
            pair("db_owner_admin", "my_app_owner"),
            pair("db_owner_pword", "password"),
            pair("include_server", "true"),
            pair("include_frontend", "true"),
            pair("include_tauri_desktop", "true"),
            pair("deno_package_name", "@test/gwa-project"),
        ]
    );
}

#[test]
fn absent_options_and_booleans_are_stringified() {
    let mut rec = my_app();
    rec.db_name = None;
    rec.db_owner_admin = None;
    rec.db_owner_pword = None;
    rec.include_server = false;
    let vars = template_variables(&rec);
    assert_eq!(vars.len(), 11);
    assert_eq!(vars[4], pair("db_name", ""));
    assert_eq!(vars[5], pair("db_owner_admin", ""));
    assert_eq!(vars[6], pair("db_owner_pword", ""));
    assert_eq!(vars[7], pair("include_server", "false"));
    assert_eq!(vars[8], pair("include_frontend", "true"));
}

#[test]
fn variable_keys_are_distinct() {
    let vars = template_variables(&my_app());
    for i in 0..vars.len() {
        for j in (i + 1)..vars.len() {
            assert_ne!(vars[i].0, vars[j].0);
        }
    }
}

#[test]
fn request_names_the_fixed_template() {
    let req = template_request(&my_app(), "out/dir");
    assert_eq!(req.git, "https://github.com/Yrrrrrf/gwa.git");
    assert_eq!(req.branch, "templatize-dev");
    assert_eq!(req.name, "My-App");
    assert_eq!(req.destination, "out/dir");
    assert!(req.overwrite);
    assert_eq!(
        req.define,
        vec![
            "project_name=My-App",
            "author_name=Test User",
            "author_email=test@example.com",
            "app_identifier=com.example.myapp",
            "db_name=my_app",
            "db_owner_admin=my_app_owner",
            "db_owner_pword=password",
            "include_server=true",
            "include_frontend=true",
            "include_tauri_desktop=true",
            "deno_package_name=@test/gwa-project",
        ]
    );
}

#[test]
fn generator_failure_keeps_its_message() {
    assert_eq!(generation_outcome(Ok("/tmp/My-App".to_string())), Ok("/tmp/My-App".to_string()));
    assert_eq!(
        generation_outcome(Err("could not clone".to_string())),
        Err(ConfigError::GenerationFailed { cause: "could not clone".to_string() })
    );
    assert_eq!(
        generation_outcome(Err(String::new())),
        Err(ConfigError::GenerationFailed { cause: String::new() })
    );
}
