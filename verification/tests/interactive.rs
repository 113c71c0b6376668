use gwa::error::{Reason, ValidationError};
use gwa::field::{Field, FieldValue};
use gwa::interactive::{blank, check_value, FlowState, Prompt, ASKED};
use gwa::resolver::resolve;
use gwa::source::{AllDefaults, HostMapping};

fn text(s: &str) -> FieldValue {
    FieldValue::Text(s.to_string())
}

fn say(s: &str) -> Option<FieldValue> {
    Some(text(s))
}

/// Answers every pending question with nothing, so that what is offered is
/// taken.
fn accept_all(mut flow: FlowState) -> FlowState {
    while flow.pending().is_some() {
        let (next, problem) = flow.answer(None);
        assert_eq!(problem, None);
        flow = next;
    }
    flow
}

#[test]
fn flow_asks_in_the_order_of_resolution() {
    let mut flow = FlowState::start(Some("My-App".to_string()));
    let mut asked = Vec::new();
    while let Some(prompt) = flow.pending() {
        asked.push(prompt.field);
        flow = flow.answer(None).0;
    }
    assert_eq!(
        asked,
        vec![
            Field::ProjectName,
            Field::AuthorName,
            Field::AuthorEmail,
            Field::AppIdentifier,
            Field::DbName,
            Field::DbOwnerAdmin,
            Field::DbOwnerPword,
            Field::IncludeServer,
            Field::IncludeFrontend,
            Field::IncludeTauriDesktop,
        ]
    );
    assert_eq!(asked.len(), ASKED);
}

#[test]
fn accepting_every_suggestion_gives_the_fast_track_record() {
    let flow = accept_all(FlowState::start(Some("My-App".to_string())));
    let rec = flow.finish().unwrap();
    assert_eq!(rec, resolve(&AllDefaults { project_name: "My-App".to_string() }).unwrap());
    assert_eq!(rec.app_identifier, "com.example.myapp");
    assert_eq!(rec.db_owner_admin, Some("my_app_owner".to_string()));
    assert_eq!(rec.deno_package_name, "@test/gwa-project");
}

#[test]
fn suggestions_derive_from_confirmed_values() {
    let flow = FlowState::start(None);
    assert_eq!(flow.pending(), Some(Prompt { field: Field::ProjectName, suggestion: None }));
    let (flow, problem) = flow.answer(say("Big-Shop"));
    assert_eq!(problem, None);
    assert_eq!(flow.pending().unwrap().suggestion, say("Test User"));
    let (flow, _) = flow.answer(say("Ada"));
    assert_eq!(flow.pending().unwrap().suggestion, say("test@example.com"));
    let (flow, _) = flow.answer(say("ada@example.org"));
    assert_eq!(
        flow.pending(),
        Some(Prompt { field: Field::AppIdentifier, suggestion: say("com.example.bigshop") })
    );
    let (flow, _) = flow.answer(None);
    assert_eq!(flow.pending().unwrap().suggestion, say("big_shop"));
    let (flow, _) = flow.answer(say("custom_db"));
    assert_eq!(
        flow.pending(),
        Some(Prompt { field: Field::DbOwnerAdmin, suggestion: say("custom_db_owner") })
    );
    let (flow, _) = flow.answer(None);
    assert_eq!(flow.pending().unwrap().suggestion, say("password"));
    let (flow, _) = flow.answer(say("s3cret"));
    assert_eq!(flow.pending().unwrap().suggestion, Some(FieldValue::Flag(true)));
    let (flow, _) = flow.answer(Some(FieldValue::Flag(false)));
    let (flow, _) = flow.answer(None);
    assert_eq!(flow.finish(), None);
    let (flow, problem) = flow.answer(Some(FieldValue::Flag(false)));
    assert_eq!(problem, None);
    assert_eq!(flow.pending(), None);
    let rec = flow.finish().unwrap();
    assert_eq!(rec.project_name, "Big-Shop");
    assert_eq!(rec.author_name, "Ada");
    assert_eq!(rec.author_email, "ada@example.org");
    assert_eq!(rec.app_identifier, "com.example.bigshop");
    assert_eq!(rec.db_name, Some("custom_db".to_string()));
    assert_eq!(rec.db_owner_admin, Some("custom_db_owner".to_string()));
    assert_eq!(rec.db_owner_pword, Some("s3cret".to_string()));
    assert!(!rec.include_server);
    assert!(rec.include_frontend);
    assert!(!rec.include_tauri_desktop);
}

#[test]
fn a_rejected_answer_asks_again_and_leaves_no_trace() {
    let flow = FlowState::start(Some("demo".to_string()));
    let (flow, _) = flow.answer(None);
    let (flow, _) = flow.answer(None);
    assert_eq!(flow.pending().unwrap().field, Field::AuthorEmail);
    let (flow, problem) = flow.answer(say("not-an-address"));
    assert_eq!(
        problem,
        Some(ValidationError { field: Field::AuthorEmail, reason: Reason::MissingAt })
    );
    assert_eq!(
        flow.pending(),
        Some(Prompt { field: Field::AuthorEmail, suggestion: say("test@example.com") })
    );
    let (flow, problem) = flow.answer(say("ada@example.org"));
    assert_eq!(problem, None);
    assert_eq!(flow.pending().unwrap().field, Field::AppIdentifier);
    let rec = accept_all(flow).finish().unwrap();
    assert_eq!(rec.author_email, "ada@example.org");
    for field in (0..11).map(Field::at) {
        assert_ne!(rec.get(field), say("not-an-address"));
    }
    // The record is the one of a flow in which the bad answer was never given.
    let clean = FlowState::start(Some("demo".to_string()));
    let (clean, _) = clean.answer(None);
    let (clean, _) = clean.answer(None);
    let (clean, _) = clean.answer(say("ada@example.org"));
    assert_eq!(accept_all(clean).finish().unwrap(), rec);
}

#[test]
fn project_name_is_asked_until_one_is_given() {
    let flow = FlowState::start(None);
    let (flow, problem) = flow.answer(None);
    assert_eq!(
        problem,
        Some(ValidationError { field: Field::ProjectName, reason: Reason::Empty })
    );
    let (flow, problem) = flow.answer(say(""));
    assert_eq!(
        problem,
        Some(ValidationError { field: Field::ProjectName, reason: Reason::Empty })
    );
    assert_eq!(flow.pending().unwrap().field, Field::ProjectName);
    let (flow, problem) = flow.answer(Some(FieldValue::Flag(true)));
    assert_eq!(
        problem,
        Some(ValidationError { field: Field::ProjectName, reason: Reason::WrongKind })
    );
    let (flow, problem) = flow.answer(say("app"));
    assert_eq!(problem, None);
    assert_eq!(flow.pending().unwrap().field, Field::AuthorName);
}

#[test]
fn an_empty_answer_takes_the_suggestion() {
    let flow = FlowState::start(Some("given".to_string()));
    let (flow, problem) = flow.answer(say(""));
    assert_eq!(problem, None);
    let rec = accept_all(flow).finish().unwrap();
    assert_eq!(rec.project_name, "given");
    assert_eq!(rec.author_name, "Test User");
}

#[test]
fn an_answer_of_the_wrong_kind_is_turned_down() {
    let mut flow = FlowState::start(Some("demo".to_string()));
    for _ in 0..7 {
        flow = flow.answer(None).0;
    }
    assert_eq!(flow.pending().unwrap().field, Field::IncludeServer);
    let (flow, problem) = flow.answer(say("yes"));
    assert_eq!(
        problem,
        Some(ValidationError { field: Field::IncludeServer, reason: Reason::WrongKind })
    );
    let (flow, problem) = flow.answer(Some(FieldValue::Other));
    assert_eq!(
        problem,
        Some(ValidationError { field: Field::IncludeServer, reason: Reason::WrongKind })
    );
    assert_eq!(flow.pending().unwrap().field, Field::IncludeServer);
}

#[test]
fn a_complete_flow_takes_no_more_answers() {
    let flow = accept_all(FlowState::start(Some("demo".to_string())));
    let rec = flow.finish().unwrap();
    let (flow, problem) = flow.answer(say("more"));
    assert_eq!(problem, None);
    assert_eq!(flow.pending(), None);
    assert_eq!(flow.finish().unwrap(), rec);
}

#[test]
fn flow_and_resolver_agree() {
    let flow = FlowState::start(None);
    let answers = [
        say("Shop"),
        say("Ada"),
        say("ada@example.org"),
        say("org.example.shop"),
        say("shopdb"),
        say("boss"),
        say("s3cret"),
        Some(FieldValue::Flag(false)),
        Some(FieldValue::Flag(true)),
        Some(FieldValue::Flag(false)),
    ];
    let mut flow = flow;
    let mut m = HostMapping::new();
    for (i, a) in answers.iter().enumerate() {
        m.insert(Field::at(i).name().to_string(), a.clone().unwrap());
        flow = flow.answer(a.clone()).0;
    }
    assert_eq!(flow.finish(), Some(resolve(&m).unwrap()));
}

#[test]
fn check_value_looks_at_kind_then_validator() {
    assert_eq!(check_value(Field::AuthorName, &text("")), None);
    assert_eq!(check_value(Field::IncludeServer, &FieldValue::Flag(false)), None);
    assert_eq!(
        check_value(Field::AppIdentifier, &text("")),
        Some(ValidationError { field: Field::AppIdentifier, reason: Reason::Empty })
    );
    assert_eq!(
        check_value(Field::AppIdentifier, &FieldValue::Flag(true)),
        Some(ValidationError { field: Field::AppIdentifier, reason: Reason::WrongKind })
    );
    assert_eq!(
        check_value(Field::IncludeFrontend, &FieldValue::Other),
        Some(ValidationError { field: Field::IncludeFrontend, reason: Reason::WrongKind })
    );
}

#[test]
fn blank_answers() {
    assert!(blank(&None));
    assert!(blank(&say("")));
    assert!(!blank(&say(" ")));
    assert!(!blank(&Some(FieldValue::Flag(false))));
    assert!(!blank(&Some(FieldValue::Other)));
}
