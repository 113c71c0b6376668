//! The entries that an input source may hold, and the values they take.

use vstd::prelude::*;

verus! {

/// An entry of an input source.
///
/// The first eleven are the fields of a configuration record, in the order in
/// which they are resolved. `Destination` is the directory the project is
/// written to: every entry surface carries it, the record does not.
#[derive(Clone, Copy, Debug, PartialEq, Eq, Hash, Structural)]
pub enum Field {
    ProjectName,
    AuthorName,
    AuthorEmail,
    AppIdentifier,
    DbName,
    DbOwnerAdmin,
    DbOwnerPword,
    IncludeServer,
    IncludeFrontend,
    IncludeTauriDesktop,
    DenoPackageName,
    Destination,
}

/// What kind of value an entry takes.
#[derive(Clone, Copy, Debug, PartialEq, Eq, Structural)]
pub enum Kind {
    Text,
    Flag,
}

/// A loosely typed value, as a host mapping or a prompt hands it over.
#[derive(Clone, Debug, PartialEq, Eq)]
pub enum FieldValue {
    Text(String),
    Flag(bool),
    /// Anything that is neither a text nor a boolean.
    Other,
}

/// The mathematical content of a `FieldValue`.
pub enum Value {
    Text(Seq<char>),
    Flag(bool),
    Other,
}

impl View for FieldValue {
    type V = Value;

    open spec fn view(&self) -> Value {
        match self {
            FieldValue::Text(s) => Value::Text(s@),
            FieldValue::Flag(b) => Value::Flag(*b),
            FieldValue::Other => Value::Other,
        }
    }
}

/// The key under which an entry is known to every surface.
pub open spec fn name_of(field: Field) -> Seq<char> {
    match field {
        Field::ProjectName => "project_name"@,
        Field::AuthorName => "author_name"@,
        Field::AuthorEmail => "author_email"@,
        Field::AppIdentifier => "app_identifier"@,
        Field::DbName => "db_name"@,
        Field::DbOwnerAdmin => "db_owner_admin"@,
        Field::DbOwnerPword => "db_owner_pword"@,
        Field::IncludeServer => "include_server"@,
        Field::IncludeFrontend => "include_frontend"@,
        Field::IncludeTauriDesktop => "include_tauri_desktop"@,
        Field::DenoPackageName => "deno_package_name"@,
        Field::Destination => "destination"@,
    }
}

/// The kind of value that an entry takes.
pub open spec fn kind_of(field: Field) -> Kind {
    match field {
        Field::IncludeServer | Field::IncludeFrontend | Field::IncludeTauriDesktop => Kind::Flag,
        _ => Kind::Text,
    }
}

/// Whether the entry is a field of the configuration record.
pub open spec fn in_record(field: Field) -> bool {
    field != Field::Destination
}

/// Whether a value is of the kind that the entry takes.
pub open spec fn fits(field: Field, value: Value) -> bool {
    match kind_of(field) {
        Kind::Text => value is Text,
        Kind::Flag => value is Flag,
    }
}

/// The place of an entry in the order of resolution; the destination comes
/// last.
pub open spec fn position(field: Field) -> int {
    match field {
        Field::ProjectName => 0,
        Field::AuthorName => 1,
        Field::AuthorEmail => 2,
        Field::AppIdentifier => 3,
        Field::DbName => 4,
        Field::DbOwnerAdmin => 5,
        Field::DbOwnerPword => 6,
        Field::IncludeServer => 7,
        Field::IncludeFrontend => 8,
        Field::IncludeTauriDesktop => 9,
        Field::DenoPackageName => 10,
        Field::Destination => 11,
    }
}

/// The entry at a place of the order of resolution.
pub open spec fn field_at(i: int) -> Field {
    if i <= 0 {
        Field::ProjectName
    } else if i == 1 {
        Field::AuthorName
    } else if i == 2 {
        Field::AuthorEmail
    } else if i == 3 {
        Field::AppIdentifier
    } else if i == 4 {
        Field::DbName
    } else if i == 5 {
        Field::DbOwnerAdmin
    } else if i == 6 {
        Field::DbOwnerPword
    } else if i == 7 {
        Field::IncludeServer
    } else if i == 8 {
        Field::IncludeFrontend
    } else if i == 9 {
        Field::IncludeTauriDesktop
    } else if i == 10 {
        Field::DenoPackageName
    } else {
        Field::Destination
    }
}

/// The number of fields of a configuration record.
pub const RECORD_FIELDS: usize = 11;

impl Field {
    /// The entry at place `i` of the order of resolution; the destination
    /// for every place past the record's fields.
    pub fn at(i: usize) -> (r: Field)
        ensures
            r == field_at(i as int),
            i < RECORD_FIELDS ==> in_record(r) && position(r) == i,
    {
        if i == 0 {
            Field::ProjectName
        } else if i == 1 {
            Field::AuthorName
        } else if i == 2 {
            Field::AuthorEmail
        } else if i == 3 {
            Field::AppIdentifier
        } else if i == 4 {
            Field::DbName
        } else if i == 5 {
            Field::DbOwnerAdmin
        } else if i == 6 {
            Field::DbOwnerPword
        } else if i == 7 {
            Field::IncludeServer
        } else if i == 8 {
            Field::IncludeFrontend
        } else if i == 9 {
            Field::IncludeTauriDesktop
        } else if i == 10 {
            Field::DenoPackageName
        } else {
            Field::Destination
        }
    }

    /// The key of this entry.
    pub fn name(self) -> (r: &'static str)
        ensures
            r@ == name_of(self),
    {
        match self {
            Field::ProjectName => "project_name",
            Field::AuthorName => "author_name",
            Field::AuthorEmail => "author_email",
            Field::AppIdentifier => "app_identifier",
            Field::DbName => "db_name",
            Field::DbOwnerAdmin => "db_owner_admin",
            Field::DbOwnerPword => "db_owner_pword",
            Field::IncludeServer => "include_server",
            Field::IncludeFrontend => "include_frontend",
            Field::IncludeTauriDesktop => "include_tauri_desktop",
            Field::DenoPackageName => "deno_package_name",
            Field::Destination => "destination",
        }
    }

    /// The kind of value this entry takes.
    pub fn kind(self) -> (r: Kind)
        ensures
            r == kind_of(self),
    {
        match self {
            Field::IncludeServer | Field::IncludeFrontend | Field::IncludeTauriDesktop => Kind::Flag,
            _ => Kind::Text,
        }
    }
}

impl FieldValue {
    /// A value with the same content.
    pub fn duplicate(&self) -> (r: FieldValue)
        ensures
            r@ == self@,
    {
        match self {
            FieldValue::Text(s) => FieldValue::Text(s.clone()),
            FieldValue::Flag(b) => FieldValue::Flag(*b),
            FieldValue::Other => FieldValue::Other,
        }
    }
}

/// No two entries share a key.
pub proof fn lemma_names_distinct(a: Field, b: Field)
    ensures
        name_of(a) == name_of(b) ==> a == b,
{
    reveal_strlit("project_name");
    reveal_strlit("author_name");
    reveal_strlit("author_email");
    reveal_strlit("app_identifier");
    reveal_strlit("db_name");
    reveal_strlit("db_owner_admin");
    reveal_strlit("db_owner_pword");
    reveal_strlit("include_server");
    reveal_strlit("include_frontend");
    reveal_strlit("include_tauri_desktop");
    reveal_strlit("deno_package_name");
    reveal_strlit("destination");
    if a != b {
        assert(name_of(a).len() != name_of(b).len() || name_of(a)[0] != name_of(b)[0] || name_of(
            a,
        )[9] != name_of(b)[9]);
    }
}

} // verus!
