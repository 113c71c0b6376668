//! The derivation rules: what an entry is when the source does not give it.
//!
//! Every default is a function of the project name, and for the database
//! owner of the database name as it was resolved. The project name itself has
//! no default.

use vstd::prelude::*;
use crate::field::{Field, FieldValue, Kind, Value};
use crate::text::{joined, lowercase, replace_char, replaced, strip_char, to_lowercase, without};

verus! {

/// The application identifier that belongs to a lower-cased project name: the
/// name without its hyphens, under `com.example.`.
pub open spec fn app_identifier_of(lowered: Seq<char>) -> Seq<char> {
    "com.example."@ + without(lowered, '-')
}

/// The database name that belongs to a lower-cased project name: each hyphen
/// becomes an underscore.
pub open spec fn db_name_of(lowered: Seq<char>) -> Seq<char> {
    replaced(lowered, '-', '_')
}

/// The default application identifier of a project.
pub open spec fn default_app_identifier(project_name: Seq<char>) -> Seq<char> {
    app_identifier_of(lowercase(project_name))
}

/// The default database name of a project.
pub open spec fn default_db_name(project_name: Seq<char>) -> Seq<char> {
    db_name_of(lowercase(project_name))
}

/// The default owner of a database.
pub open spec fn default_db_owner_admin(db_name: Seq<char>) -> Seq<char> {
    db_name + "_owner"@
}

/// The default of a text entry, given the project name and the resolved
/// database name. The author, the password and the package name are
/// placeholders, fit for trying the generator out and for nothing else.
pub open spec fn default_text(field: Field, project_name: Seq<char>, db_name: Seq<char>) -> Seq<
    char,
> {
    match field {
        Field::AuthorName => "Test User"@,
        Field::AuthorEmail => "test@example.com"@,
        Field::AppIdentifier => default_app_identifier(project_name),
        Field::DbName => default_db_name(project_name),
        Field::DbOwnerAdmin => default_db_owner_admin(db_name),
        Field::DbOwnerPword => "password"@,
        Field::DenoPackageName => "@test/gwa-project"@,
        Field::Destination => "."@,
        _ => Seq::empty(),
    }
}

/// The default of a boolean entry: every part of the project is included.
pub open spec fn default_flag(field: Field) -> bool {
    true
}

/// The default of an entry as a value; the project name has none.
pub open spec fn derived(field: Field, project_name: Seq<char>, db_name: Seq<char>) -> Option<
    Value,
> {
    if field == Field::ProjectName {
        None
    } else {
        match crate::field::kind_of(field) {
            Kind::Text => Some(Value::Text(default_text(field, project_name, db_name))),
            Kind::Flag => Some(Value::Flag(default_flag(field))),
        }
    }
}

/// The application identifier for a project name that is already in lower
/// case.
pub fn app_identifier_from(lowered: &str) -> (r: String)
    ensures
        r@ == app_identifier_of(lowered@),
{
    let bare = strip_char(lowered, '-');
    joined("com.example.", bare.as_str())
}

/// The database name for a project name that is already in lower case.
pub fn db_name_from(lowered: &str) -> (r: String)
    ensures
        r@ == db_name_of(lowered@),
{
    replace_char(lowered, '-', '_')
}

/// Derives the application identifier of a project.
pub fn derive_app_identifier(project_name: &str) -> (r: String)
    ensures
        r@ == default_app_identifier(project_name@),
{
    let lowered = to_lowercase(project_name);
    app_identifier_from(lowered.as_str())
}

/// Derives the database name of a project.
pub fn derive_db_name(project_name: &str) -> (r: String)
    ensures
        r@ == default_db_name(project_name@),
{
    let lowered = to_lowercase(project_name);
    db_name_from(lowered.as_str())
}

/// Derives the owner of a database from the database's resolved name.
pub fn derive_db_owner_admin(db_name: &str) -> (r: String)
    ensures
        r@ == default_db_owner_admin(db_name@),
{
    joined(db_name, "_owner")
}

/// The default of a text entry.
pub fn derive_text(field: Field, project_name: &str, db_name: &str) -> (r: String)
    ensures
        r@ == default_text(field, project_name@, db_name@),
{
    match field {
        Field::AuthorName => "Test User".to_owned(),
        Field::AuthorEmail => "test@example.com".to_owned(),
        Field::AppIdentifier => derive_app_identifier(project_name),
        Field::DbName => derive_db_name(project_name),
        Field::DbOwnerAdmin => derive_db_owner_admin(db_name),
        Field::DbOwnerPword => "password".to_owned(),
        Field::DenoPackageName => "@test/gwa-project".to_owned(),
        Field::Destination => ".".to_owned(),
        _ => String::new(),
    }
}

/// The default of an entry, or `None` for the project name.
pub fn derive_default(field: Field, project_name: &str, db_name: &str) -> (r: Option<
    FieldValue,
>)
    ensures
        r is Some <==> field != Field::ProjectName,
        r matches Some(v) ==> Some(v@) == derived(field, project_name@, db_name@),
{
    match field {
        Field::ProjectName => None,
        _ => match field.kind() {
            Kind::Text => Some(FieldValue::Text(derive_text(field, project_name, db_name))),
            Kind::Flag => Some(FieldValue::Flag(true)),
        },
    }
}

} // verus!
