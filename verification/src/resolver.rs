//! Resolution: from a source of explicit values to a complete record.
//!
//! Every surface resolves through `resolve`. What it returns is the spec
//! function `resolved` of the entries that the source holds.

use vstd::prelude::*;
use crate::defaults::{default_flag, default_text, derive_text, derived};
use crate::error::{ConfigError, Failure, Reason, ValidationError};
use crate::field::{fits, in_record, kind_of, Field, FieldValue, Kind, Value};
use crate::record::{record_problem, source_of, value_in, ConfigurationRecord, Record};
use crate::source::FieldSource;
use crate::text::{lowercase, replaced, without};
use crate::validators::{first_at, problem_of};

verus! {

/// The source holds no usable project name: none at all, or an empty text.
pub open spec fn name_missing(m: Map<Field, Value>) -> bool {
    ||| !m.contains_key(Field::ProjectName)
    ||| (m[Field::ProjectName] matches Value::Text(s) && s.len() == 0)
}

/// The source holds a value for `field` that is not of the field's kind.
pub open spec fn misfit(m: Map<Field, Value>, field: Field) -> bool {
    m.contains_key(field) && !fits(field, m[field])
}

/// The first field of the record, in the order of resolution, for which the
/// source holds a value of the wrong kind.
pub open spec fn first_misfit(m: Map<Field, Value>) -> Option<Field> {
    if misfit(m, Field::ProjectName) {
        Some(Field::ProjectName)
    } else if misfit(m, Field::AuthorName) {
        Some(Field::AuthorName)
    } else if misfit(m, Field::AuthorEmail) {
        Some(Field::AuthorEmail)
    } else if misfit(m, Field::AppIdentifier) {
        Some(Field::AppIdentifier)
    } else if misfit(m, Field::DbName) {
        Some(Field::DbName)
    } else if misfit(m, Field::DbOwnerAdmin) {
        Some(Field::DbOwnerAdmin)
    } else if misfit(m, Field::DbOwnerPword) {
        Some(Field::DbOwnerPword)
    } else if misfit(m, Field::IncludeServer) {
        Some(Field::IncludeServer)
    } else if misfit(m, Field::IncludeFrontend) {
        Some(Field::IncludeFrontend)
    } else if misfit(m, Field::IncludeTauriDesktop) {
        Some(Field::IncludeTauriDesktop)
    } else if misfit(m, Field::DenoPackageName) {
        Some(Field::DenoPackageName)
    } else {
        None
    }
}

/// The explicit text of an entry, or `default` where the source holds none.
pub open spec fn text_or(m: Map<Field, Value>, field: Field, default: Seq<char>) -> Seq<char> {
    if m.contains_key(field) {
        m[field]->Text_0
    } else {
        default
    }
}

/// The explicit boolean of an entry, or `default` where the source holds
/// none.
pub open spec fn flag_or(m: Map<Field, Value>, field: Field, default: bool) -> bool {
    if m.contains_key(field) {
        m[field]->Flag_0
    } else {
        default
    }
}

/// The text that an entry resolves to, given the project name and the
/// resolved database name.
pub open spec fn text_for(
    m: Map<Field, Value>,
    field: Field,
    project_name: Seq<char>,
    db_name: Seq<char>,
) -> Seq<char> {
    text_or(m, field, default_text(field, project_name, db_name))
}

/// The record that a source stands for, before the validators have seen it:
/// each field is the explicit value where there is one, else its default.
/// The database name is settled first, for the default of its owner depends
/// on it.
pub open spec fn candidate(m: Map<Field, Value>) -> Record {
    let project_name = m[Field::ProjectName]->Text_0;
    let db_name = text_for(m, Field::DbName, project_name, Seq::empty());
    Record {
        project_name,
        author_name: text_for(m, Field::AuthorName, project_name, db_name),
        author_email: text_for(m, Field::AuthorEmail, project_name, db_name),
        app_identifier: text_for(m, Field::AppIdentifier, project_name, db_name),
        db_name: Some(db_name),
        db_owner_admin: Some(text_for(m, Field::DbOwnerAdmin, project_name, db_name)),
        db_owner_pword: Some(text_for(m, Field::DbOwnerPword, project_name, db_name)),
        include_server: flag_or(m, Field::IncludeServer, default_flag(Field::IncludeServer)),
        include_frontend: flag_or(m, Field::IncludeFrontend, default_flag(Field::IncludeFrontend)),
        include_tauri_desktop: flag_or(
            m,
            Field::IncludeTauriDesktop,
            default_flag(Field::IncludeTauriDesktop),
        ),
        deno_package_name: text_for(m, Field::DenoPackageName, project_name, db_name),
    }
}

/// What resolution makes of the entries of a source.
///
/// A missing or empty project name fails before anything else is looked at.
/// Then a value of the wrong kind fails, the first in the order of
/// resolution. Then the candidate record goes through the validators, and
/// the first that is turned down fails. No partial record comes back.
pub open spec fn resolved(m: Map<Field, Value>) -> Result<Record, Failure> {
    if name_missing(m) {
        Err(Failure::MissingRequiredField)
    } else if first_misfit(m) is Some {
        Err(
            Failure::Validation(
                ValidationError { field: first_misfit(m)->0, reason: Reason::WrongKind },
            ),
        )
    } else if record_problem(candidate(m)) is Some {
        Err(Failure::Validation(record_problem(candidate(m))->0))
    } else {
        Ok(candidate(m))
    }
}

/// The destination that a source stands for: its explicit text, else the
/// current directory.
pub open spec fn destination_of(m: Map<Field, Value>) -> Result<Seq<char>, Failure> {
    if misfit(m, Field::Destination) {
        Err(
            Failure::Validation(
                ValidationError { field: Field::Destination, reason: Reason::WrongKind },
            ),
        )
    } else {
        Ok(text_for(m, Field::Destination, Seq::empty(), Seq::empty()))
    }
}

/// The view of the outcome of a resolution.
pub open spec fn outcome_view(r: Result<ConfigurationRecord, ConfigError>) -> Result<
    Record,
    Failure,
> {
    match r {
        Ok(rec) => Ok(rec@),
        Err(e) => Err(e@),
    }
}

/// The view of a text or a failure.
pub open spec fn text_outcome_view(r: Result<String, ConfigError>) -> Result<Seq<char>, Failure> {
    match r {
        Ok(s) => Ok(s@),
        Err(e) => Err(e@),
    }
}

/// Fetches a text entry: the explicit text, or the default.
fn text_entry<S: FieldSource>(source: &S, field: Field, project_name: &str, db_name: &str) -> (r:
    Result<String, ValidationError>)
    requires
        kind_of(field) == Kind::Text,
    ensures
        match r {
            Ok(s) => !misfit(source.explicit(), field) && s@ == text_for(
                source.explicit(),
                field,
                project_name@,
                db_name@,
            ),
            Err(e) => misfit(source.explicit(), field) && e == (ValidationError {
                field,
                reason: Reason::WrongKind,
            }),
        },
{
    match source.get_optional(field) {
        None => Ok(derive_text(field, project_name, db_name)),
        Some(FieldValue::Text(s)) => Ok(s),
        Some(_) => Err(ValidationError { field, reason: Reason::WrongKind }),
    }
}

/// Fetches a boolean entry: the explicit value, or the default.
fn flag_entry<S: FieldSource>(source: &S, field: Field) -> (r: Result<bool, ValidationError>)
    requires
        kind_of(field) == Kind::Flag,
    ensures
        match r {
            Ok(b) => !misfit(source.explicit(), field) && b == flag_or(
                source.explicit(),
                field,
                default_flag(field),
            ),
            Err(e) => misfit(source.explicit(), field) && e == (ValidationError {
                field,
                reason: Reason::WrongKind,
            }),
        },
{
    match source.get_optional(field) {
        None => Ok(true),
        Some(FieldValue::Flag(b)) => Ok(b),
        Some(_) => Err(ValidationError { field, reason: Reason::WrongKind }),
    }
}

/// Resolves a source into a complete record.
///
/// The project name must be there. Every other field is the explicit value
/// where the source holds one, else its default, and the record is returned
/// only if every validator accepts it.
pub fn resolve<S: FieldSource>(source: &S) -> (r: Result<ConfigurationRecord, ConfigError>)
    ensures
        outcome_view(r) == resolved(source.explicit()),
{
    let project_name = match source.get_optional(Field::ProjectName) {
        None => { return Err(ConfigError::MissingRequiredField); },
        Some(FieldValue::Text(s)) => {
            if s.as_str().is_empty() {
                return Err(ConfigError::MissingRequiredField);
            }
            s
        },
        Some(_) => {
            return Err(
                ConfigError::Validation(
                    ValidationError { field: Field::ProjectName, reason: Reason::WrongKind },
                ),
            );
        },
    };
    let name = project_name.as_str();
    let author_name = match text_entry(source, Field::AuthorName, name, "") {
        Ok(s) => s,
        Err(e) => { return Err(ConfigError::Validation(e)); },
    };
    let author_email = match text_entry(source, Field::AuthorEmail, name, "") {
        Ok(s) => s,
        Err(e) => { return Err(ConfigError::Validation(e)); },
    };
    let app_identifier = match text_entry(source, Field::AppIdentifier, name, "") {
        Ok(s) => s,
        Err(e) => { return Err(ConfigError::Validation(e)); },
    };
    let db_name = match text_entry(source, Field::DbName, name, "") {
        Ok(s) => s,
        Err(e) => { return Err(ConfigError::Validation(e)); },
    };
    let db_owner_admin = match text_entry(source, Field::DbOwnerAdmin, name, db_name.as_str()) {
        Ok(s) => s,
        Err(e) => { return Err(ConfigError::Validation(e)); },
    };
    let db_owner_pword = match text_entry(source, Field::DbOwnerPword, name, "") {
        Ok(s) => s,
        Err(e) => { return Err(ConfigError::Validation(e)); },
    };
    let include_server = match flag_entry(source, Field::IncludeServer) {
        Ok(b) => b,
        Err(e) => { return Err(ConfigError::Validation(e)); },
    };
    let include_frontend = match flag_entry(source, Field::IncludeFrontend) {
        Ok(b) => b,
        Err(e) => { return Err(ConfigError::Validation(e)); },
    };
    let include_tauri_desktop = match flag_entry(source, Field::IncludeTauriDesktop) {
        Ok(b) => b,
        Err(e) => { return Err(ConfigError::Validation(e)); },
    };
    let deno_package_name = match text_entry(source, Field::DenoPackageName, name, "") {
        Ok(s) => s,
        Err(e) => { return Err(ConfigError::Validation(e)); },
    };
    let record = ConfigurationRecord {
        project_name,
        author_name,
        author_email,
        app_identifier,
        db_name: Some(db_name),
        db_owner_admin: Some(db_owner_admin),
        db_owner_pword: Some(db_owner_pword),
        include_server,
        include_frontend,
        include_tauri_desktop,
        deno_package_name,
    };
    match record.check() {
        Ok(_) => Ok(record),
        Err(e) => Err(ConfigError::Validation(e)),
    }
}

/// Resolves the destination of a source: its explicit text, else `"."`.
pub fn resolve_destination<S: FieldSource>(source: &S) -> (r: Result<String, ConfigError>)
    ensures
        text_outcome_view(r) == destination_of(source.explicit()),
{
    match text_entry(source, Field::Destination, "", "") {
        Ok(s) => Ok(s),
        Err(e) => Err(ConfigError::Validation(e)),
    }
}

/// The source that holds a project name and nothing else.
pub open spec fn only_name(name: Seq<char>) -> Map<Field, Value> {
    Map::<Field, Value>::empty().insert(Field::ProjectName, Value::Text(name))
}

/// The validators accept every default: the placeholder address is well
/// shaped, and a derived application identifier is never empty.
pub proof fn lemma_defaults_pass(project_name: Seq<char>, db_name: Seq<char>)
    ensures
        problem_of(
            Field::AuthorEmail,
            default_text(Field::AuthorEmail, project_name, db_name),
        ) is None,
        problem_of(
            Field::AppIdentifier,
            default_text(Field::AppIdentifier, project_name, db_name),
        ) is None,
{
    reveal_strlit("test@example.com");
    reveal_strlit("com.example.");
    let mail = "test@example.com"@;
    assert(mail[4] == '@');
    assert(mail.contains('@'));
    assert(!first_at(mail, 0));
    assert(!first_at(mail, mail.len() - 1));
}

/// A source that holds a project name and nothing else resolves, whatever
/// the name, as long as it is not empty. The application identifier is the
/// lower-cased name without hyphens under `com.example.`, the database name
/// the lower-cased name with an underscore for each hyphen, its owner that
/// name followed by `_owner`; every part of the project is included.
///
/// The name is lower-cased before the hyphens go. Where the other order
/// gives the same text, the identifier is that text under `com.example.`
/// too.
pub proof fn lemma_name_alone_resolves(name: Seq<char>)
    requires
        name.len() > 0,
    ensures
        resolved(only_name(name)) is Ok,
        ({
            let rec = resolved(only_name(name))->Ok_0;
            let lowered = lowercase(name);
            &&& rec.project_name == name
            &&& rec.app_identifier == "com.example."@ + without(lowered, '-')
            &&& rec.db_name == Some(replaced(lowered, '-', '_'))
            &&& rec.db_owner_admin == Some(rec.db_name->0 + "_owner"@)
            &&& rec.include_server
            &&& rec.include_frontend
            &&& rec.include_tauri_desktop
            &&& lowercase(without(name, '-')) == without(lowered, '-') ==> rec.app_identifier
                == "com.example."@ + lowercase(without(name, '-'))
        }),
{
    let m = only_name(name);
    let rec = candidate(m);
    lemma_defaults_pass(name, rec.db_name->0);
}

/// A field that the source does not hold takes its default, derived from
/// the resolved project name and, for the owner of the database, from the
/// resolved database name.
pub proof fn lemma_absent_takes_default(m: Map<Field, Value>, field: Field)
    requires
        resolved(m) is Ok,
        in_record(field),
        !m.contains_key(field),
    ensures
        ({
            let rec = resolved(m)->Ok_0;
            value_in(rec, field) == derived(field, rec.project_name, rec.db_name->0)
        }),
{
}

/// Two sources that hold the same entries resolve alike: the outcome
/// depends on nothing but the entries.
pub proof fn lemma_same_entries_same_outcome(a: Map<Field, Value>, b: Map<Field, Value>)
    requires
        a =~= b,
    ensures
        resolved(a) == resolved(b),
{
}

/// Resolution is idempotent: a record that came out of a resolution, read
/// as a source in which every field is explicit, resolves to itself.
pub proof fn lemma_resolution_idempotent(m: Map<Field, Value>)
    requires
        resolved(m) is Ok,
    ensures
        resolved(source_of(resolved(m)->Ok_0)) == resolved(m),
{
    let rec = resolved(m)->Ok_0;
    let again = source_of(rec);
    assert(first_misfit(again) is None);
    let back = candidate(again);
    assert(back.project_name =~= rec.project_name);
    assert(back == rec);
}

/// Without a project name resolution fails with `MissingRequiredField`,
/// whatever else the source holds; an empty name counts as none.
pub proof fn lemma_missing_name_fails(m: Map<Field, Value>)
    requires
        !m.contains_key(Field::ProjectName) || m[Field::ProjectName] == Value::Text(
            Seq::<char>::empty(),
        ),
    ensures
        resolved(m) == Err::<Record, Failure>(Failure::MissingRequiredField),
{
}

/// An explicit value wins over the default: where resolution succeeds, each
/// field that the source holds comes out exactly as the source gave it.
pub proof fn lemma_explicit_wins(m: Map<Field, Value>, field: Field)
    requires
        resolved(m) is Ok,
        in_record(field),
        m.contains_key(field),
    ensures
        value_in(resolved(m)->Ok_0, field) == Some(m[field]),
{
    assert(!misfit(m, field));
}

/// A field without a validator takes any text, the empty one too: whether
/// resolution succeeds does not depend on what the source holds for it.
pub proof fn lemma_unchecked_field_takes_any_text(
    m: Map<Field, Value>,
    field: Field,
    text: Seq<char>,
)
    requires
        field == Field::AuthorName || field == Field::DbName || field == Field::DbOwnerAdmin
            || field == Field::DbOwnerPword || field == Field::DenoPackageName,
    ensures
        resolved(m.insert(field, Value::Text(text))) is Ok <==> resolved(m.remove(field)) is Ok,
        resolved(m.insert(field, Value::Text(text))) is Ok ==> value_in(
            resolved(m.insert(field, Value::Text(text)))->Ok_0,
            field,
        ) == Some(Value::Text(text)),
{
    let with = m.insert(field, Value::Text(text));
    let bare = m.remove(field);
    assert(name_missing(with) == name_missing(bare));
    assert forall|f: Field| f != field implies misfit(with, f) == misfit(bare, f) by {}
    assert(!misfit(with, field));
    assert(!misfit(bare, field));
    assert(first_misfit(with) == first_misfit(bare));
}

} // verus!
