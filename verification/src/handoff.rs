//! The handoff to the template generator: a record flattened into the
//! variables of the template, and the request that carries them.
//!
//! The generator itself, which fetches the template and writes the project,
//! is called by whoever holds the request.

use vstd::prelude::*;
use crate::error::{ConfigError, Failure};
use crate::field::{field_at, name_of, Field, FieldValue, Value, RECORD_FIELDS};
use crate::record::{value_in, ConfigurationRecord, Record};
use crate::resolver::text_outcome_view;
use crate::source::value_view;
use crate::text::joined;

verus! {

/// A value as the text that the template sees: a text as it is, a boolean
/// as `true` or `false`, and a value that is absent as the empty text.
pub open spec fn stringified(value: Option<Value>) -> Seq<char> {
    match value {
        Some(Value::Text(s)) => s,
        Some(Value::Flag(b)) => if b {
            "true"@
        } else {
            "false"@
        },
        _ => Seq::empty(),
    }
}

/// The variable that a record gives for one of its fields: the field's key
/// and the stringified value.
pub open spec fn variable(rec: Record, field: Field) -> (Seq<char>, Seq<char>) {
    (name_of(field), stringified(value_in(rec, field)))
}

/// The variables of a record: one for each of its fields, in the order of
/// resolution.
pub open spec fn variables(rec: Record) -> Seq<(Seq<char>, Seq<char>)> {
    Seq::new(RECORD_FIELDS as nat, |i: int| variable(rec, field_at(i)))
}

/// A variable as the generator takes it: key, `=`, value.
pub open spec fn definition(pair: (Seq<char>, Seq<char>)) -> Seq<char> {
    pair.0 + "="@ + pair.1
}

/// What the generator is asked to do.
#[derive(Clone, Debug, PartialEq, Eq)]
pub struct TemplateRequest {
    /// The repository that holds the template.
    pub git: String,
    /// The branch of that repository.
    pub branch: String,
    /// The name of the project.
    pub name: String,
    /// The directory to write to.
    pub destination: String,
    /// The variables, each as key, `=`, value.
    pub define: Vec<String>,
    /// Whether files that exist may be written over.
    pub overwrite: bool,
}

/// The mathematical content of a `TemplateRequest`.
pub struct Request {
    pub git: Seq<char>,
    pub branch: Seq<char>,
    pub name: Seq<char>,
    pub destination: Seq<char>,
    pub define: Seq<Seq<char>>,
    pub overwrite: bool,
}

/// The characters of each string of a list.
pub open spec fn texts_view(texts: Seq<String>) -> Seq<Seq<char>> {
    Seq::new(texts.len(), |i: int| texts[i]@)
}

/// The characters of each pair of a list.
pub open spec fn pairs_view(pairs: Seq<(String, String)>) -> Seq<(Seq<char>, Seq<char>)> {
    Seq::new(pairs.len(), |i: int| (pairs[i].0@, pairs[i].1@))
}

impl View for TemplateRequest {
    type V = Request;

    open spec fn view(&self) -> Request {
        Request {
            git: self.git@,
            branch: self.branch@,
            name: self.name@,
            destination: self.destination@,
            define: texts_view(self.define@),
            overwrite: self.overwrite,
        }
    }
}

/// The request for a record and a destination: the fixed template, the
/// record's variables, and leave to write over what is there.
pub open spec fn request_for(rec: Record, destination: Seq<char>) -> Request {
    Request {
        git: "https://github.com/Yrrrrrf/gwa.git"@,
        branch: "templatize-dev"@,
        name: rec.project_name,
        destination,
        define: Seq::new(RECORD_FIELDS as nat, |i: int| definition(variables(rec)[i])),
        overwrite: true,
    }
}

/// What the caller is told once the generator has run: the path it wrote
/// to, or its failure with the generator's own message.
pub open spec fn outcome_of(result: Result<Seq<char>, Seq<char>>) -> Result<Seq<char>, Failure> {
    match result {
        Ok(path) => Ok(path),
        Err(cause) => Err(Failure::GenerationFailed { cause }),
    }
}

/// The view of what the generator returned.
pub open spec fn generated_view(result: Result<String, String>) -> Result<Seq<char>, Seq<char>> {
    match result {
        Ok(path) => Ok(path@),
        Err(cause) => Err(cause@),
    }
}

/// Turns a value into the text that the template sees.
pub fn template_text(value: &Option<FieldValue>) -> (r: String)
    ensures
        r@ == stringified(value_view(*value)),
{
    match value {
        Some(FieldValue::Text(s)) => s.clone(),
        Some(FieldValue::Flag(b)) => if *b {
            "true".to_owned()
        } else {
            "false".to_owned()
        },
        _ => String::new(),
    }
}

/// Flattens a record into the variables of the template.
pub fn template_variables(record: &ConfigurationRecord) -> (r: Vec<(String, String)>)
    ensures
        pairs_view(r@) == variables(record@),
{
    let mut out: Vec<(String, String)> = Vec::new();
    let mut i: usize = 0;
    while i < RECORD_FIELDS
        invariant
            i <= RECORD_FIELDS,
            out@.len() == i,
            forall|j: int| 0 <= j < i ==> (#[trigger] out@[j]).0@ == variable(record@, field_at(j)).0,
            forall|j: int| 0 <= j < i ==> (#[trigger] out@[j]).1@ == variable(record@, field_at(j)).1,
        decreases RECORD_FIELDS - i,
    {
        let field = Field::at(i);
        let value = record.get(field);
        out.push((field.name().to_owned(), template_text(&value)));
        i = i + 1;
    }
    assert(pairs_view(out@) =~= variables(record@));
    out
}

/// Builds the request that hands a record to the template generator.
pub fn template_request(record: &ConfigurationRecord, destination: &str) -> (r: TemplateRequest)
    ensures
        r@ == request_for(record@, destination@),
{
    let pairs = template_variables(record);
    assert(pairs@.len() == pairs_view(pairs@).len());
    let mut define: Vec<String> = Vec::new();
    let mut i: usize = 0;
    while i < pairs.len()
        invariant
            i <= pairs@.len(),
            pairs@.len() == RECORD_FIELDS,
            pairs_view(pairs@) == variables(record@),
            define@.len() == i,
            forall|j: int| 0 <= j < i ==> (#[trigger] define@[j])@ == definition(variables(record@)[j]),
        decreases pairs@.len() - i,
    {
        let head = joined(pairs[i].0.as_str(), "=");
        let whole = joined(head.as_str(), pairs[i].1.as_str());
        proof {
            assert(pairs_view(pairs@)[i as int] == (pairs@[i as int].0@, pairs@[i as int].1@));
        }
        define.push(whole);
        i = i + 1;
    }
    let r = TemplateRequest {
        git: "https://github.com/Yrrrrrf/gwa.git".to_owned(),
        branch: "templatize-dev".to_owned(),
        name: record.project_name.clone(),
        destination: destination.to_owned(),
        define,
        overwrite: true,
    };
    assert(r@.define =~= request_for(record@, destination@).define);
    r
}

/// Maps what the generator returned to what the caller is told. A failure
/// keeps the generator's message word for word.
pub fn generation_outcome(result: Result<String, String>) -> (r: Result<String, ConfigError>)
    ensures
        text_outcome_view(r) == outcome_of(generated_view(result)),
{
    match result {
        Ok(path) => Ok(path),
        Err(cause) => Err(ConfigError::GenerationFailed { cause }),
    }
}

/// No two variables of a record share a key.
pub proof fn lemma_variable_keys_distinct(rec: Record, i: int, j: int)
    requires
        0 <= i < j < RECORD_FIELDS,
    ensures
        variables(rec)[i].0 != variables(rec)[j].0,
{
    crate::field::lemma_names_distinct(field_at(i), field_at(j));
}

} // verus!
