//! The configuration record: the complete set of parameters of one project.

use vstd::prelude::*;
use crate::error::ValidationError;
use crate::field::{Field, FieldValue, Value};
use crate::source::FieldSource;
use crate::validators::{problem_of, validate};

verus! {

/// The resolved parameters of one project.
///
/// A record is made once per invocation, by resolution or by the interactive
/// flow, and handed on by value; nothing in this library changes one.
#[derive(Clone, Debug, PartialEq, Eq)]
pub struct ConfigurationRecord {
    pub project_name: String,
    pub author_name: String,
    pub author_email: String,
    pub app_identifier: String,
    pub db_name: Option<String>,
    pub db_owner_admin: Option<String>,
    pub db_owner_pword: Option<String>,
    pub include_server: bool,
    pub include_frontend: bool,
    pub include_tauri_desktop: bool,
    pub deno_package_name: String,
}

/// The mathematical content of a `ConfigurationRecord`.
pub struct Record {
    pub project_name: Seq<char>,
    pub author_name: Seq<char>,
    pub author_email: Seq<char>,
    pub app_identifier: Seq<char>,
    pub db_name: Option<Seq<char>>,
    pub db_owner_admin: Option<Seq<char>>,
    pub db_owner_pword: Option<Seq<char>>,
    pub include_server: bool,
    pub include_frontend: bool,
    pub include_tauri_desktop: bool,
    pub deno_package_name: Seq<char>,
}

/// The characters of an optional string.
pub open spec fn text_view(s: Option<String>) -> Option<Seq<char>> {
    match s {
        Some(t) => Some(t@),
        None => None,
    }
}

impl View for ConfigurationRecord {
    type V = Record;

    open spec fn view(&self) -> Record {
        Record {
            project_name: self.project_name@,
            author_name: self.author_name@,
            author_email: self.author_email@,
            app_identifier: self.app_identifier@,
            db_name: text_view(self.db_name),
            db_owner_admin: text_view(self.db_owner_admin),
            db_owner_pword: text_view(self.db_owner_pword),
            include_server: self.include_server,
            include_frontend: self.include_frontend,
            include_tauri_desktop: self.include_tauri_desktop,
            deno_package_name: self.deno_package_name@,
        }
    }
}

/// An optional text as an optional value.
pub open spec fn as_text(s: Option<Seq<char>>) -> Option<Value> {
    match s {
        Some(t) => Some(Value::Text(t)),
        None => None,
    }
}

/// What a record holds for an entry: nothing for the destination, which is
/// no field of the record, and nothing for a database entry that is absent.
pub open spec fn value_in(rec: Record, field: Field) -> Option<Value> {
    match field {
        Field::ProjectName => Some(Value::Text(rec.project_name)),
        Field::AuthorName => Some(Value::Text(rec.author_name)),
        Field::AuthorEmail => Some(Value::Text(rec.author_email)),
        Field::AppIdentifier => Some(Value::Text(rec.app_identifier)),
        Field::DbName => as_text(rec.db_name),
        Field::DbOwnerAdmin => as_text(rec.db_owner_admin),
        Field::DbOwnerPword => as_text(rec.db_owner_pword),
        Field::IncludeServer => Some(Value::Flag(rec.include_server)),
        Field::IncludeFrontend => Some(Value::Flag(rec.include_frontend)),
        Field::IncludeTauriDesktop => Some(Value::Flag(rec.include_tauri_desktop)),
        Field::DenoPackageName => Some(Value::Text(rec.deno_package_name)),
        Field::Destination => None,
    }
}

/// The first field of a record, in the order of resolution, that its
/// validator turns down, with the reason.
pub open spec fn record_problem(rec: Record) -> Option<ValidationError> {
    if problem_of(Field::ProjectName, rec.project_name) is Some {
        Some(
            ValidationError {
                field: Field::ProjectName,
                reason: problem_of(Field::ProjectName, rec.project_name)->0,
            },
        )
    } else if problem_of(Field::AuthorEmail, rec.author_email) is Some {
        Some(
            ValidationError {
                field: Field::AuthorEmail,
                reason: problem_of(Field::AuthorEmail, rec.author_email)->0,
            },
        )
    } else if problem_of(Field::AppIdentifier, rec.app_identifier) is Some {
        Some(
            ValidationError {
                field: Field::AppIdentifier,
                reason: problem_of(Field::AppIdentifier, rec.app_identifier)->0,
            },
        )
    } else {
        None
    }
}

/// A record that every validator accepts.
pub open spec fn valid_record(rec: Record) -> bool {
    record_problem(rec) is None
}

/// A copy of an optional string.
fn copy_text(s: &Option<String>) -> (r: Option<FieldValue>)
    ensures
        r is Some <==> s is Some,
        r matches Some(v) ==> v@ == Value::Text(s->0@),
{
    match s {
        Some(t) => Some(FieldValue::Text(t.clone())),
        None => None,
    }
}

impl ConfigurationRecord {
    /// Whether every validator accepts this record.
    pub open spec fn valid(&self) -> bool {
        valid_record(self@)
    }

    /// The validator pass: runs each field through its validator, in the
    /// order of resolution, and reports the first that is turned down.
    pub fn check(&self) -> (r: Result<(), ValidationError>)
        ensures
            match r {
                Ok(_) => record_problem(self@) is None,
                Err(e) => record_problem(self@) == Some(e),
            },
    {
        match validate(Field::ProjectName, self.project_name.as_str()) {
            Err(e) => { return Err(e); },
            Ok(_) => {},
        }
        match validate(Field::AuthorEmail, self.author_email.as_str()) {
            Err(e) => { return Err(e); },
            Ok(_) => {},
        }
        match validate(Field::AppIdentifier, self.app_identifier.as_str()) {
            Err(e) => { return Err(e); },
            Ok(_) => {},
        }
        Ok(())
    }

    /// The value that this record holds for an entry.
    pub fn get(&self, field: Field) -> (r: Option<FieldValue>)
        ensures
            r is Some <==> value_in(self@, field) is Some,
            r matches Some(v) ==> Some(v@) == value_in(self@, field),
    {
        match field {
            Field::ProjectName => Some(FieldValue::Text(self.project_name.clone())),
            Field::AuthorName => Some(FieldValue::Text(self.author_name.clone())),
            Field::AuthorEmail => Some(FieldValue::Text(self.author_email.clone())),
            Field::AppIdentifier => Some(FieldValue::Text(self.app_identifier.clone())),
            Field::DbName => copy_text(&self.db_name),
            Field::DbOwnerAdmin => copy_text(&self.db_owner_admin),
            Field::DbOwnerPword => copy_text(&self.db_owner_pword),
            Field::IncludeServer => Some(FieldValue::Flag(self.include_server)),
            Field::IncludeFrontend => Some(FieldValue::Flag(self.include_frontend)),
            Field::IncludeTauriDesktop => Some(FieldValue::Flag(self.include_tauri_desktop)),
            Field::DenoPackageName => Some(FieldValue::Text(self.deno_package_name.clone())),
            Field::Destination => None,
        }
    }
}

/// The source in which every field of a record is explicit.
pub open spec fn source_of(rec: Record) -> Map<Field, Value> {
    Map::new(|f: Field| value_in(rec, f) is Some, |f: Field| value_in(rec, f)->0)
}

/// A record is itself a source: one that holds every field it has.
impl FieldSource for ConfigurationRecord {
    open spec fn explicit(&self) -> Map<Field, Value> {
        source_of(self@)
    }

    fn get_optional(&self, field: Field) -> (r: Option<FieldValue>) {
        self.get(field)
    }
}

} // verus!
