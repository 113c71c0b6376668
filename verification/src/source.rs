//! Where explicit values come from: the command line, a host mapping, or
//! nowhere but the project name.

use vstd::prelude::*;
use crate::field::{name_of, Field, FieldValue, Value};
use crate::text::same_text;

verus! {

/// What a source holds for an entry, if anything.
pub open spec fn lookup(explicit: Map<Field, Value>, field: Field) -> Option<Value> {
    if explicit.contains_key(field) {
        Some(explicit[field])
    } else {
        None
    }
}

/// The view of an optional value.
pub open spec fn value_view(v: Option<FieldValue>) -> Option<Value> {
    match v {
        Some(x) => Some(x@),
        None => None,
    }
}

/// A source of explicit values. Resolution reads a source through this one
/// method and through nothing else, so every entry surface is treated alike.
pub trait FieldSource {
    /// The entries that the source holds, each with its value.
    spec fn explicit(&self) -> Map<Field, Value>;

    /// The value that the source holds for `field`, or `None` where it holds
    /// none.
    fn get_optional(&self, field: Field) -> (r: Option<FieldValue>)
        ensures
            value_view(r) == lookup(self.explicit(), field),
    ;
}

/// What the command line gives: an optional project name, a destination and
/// the fast-track switch.
#[derive(Clone, Debug, PartialEq, Eq)]
pub struct CliFlags {
    pub name: Option<String>,
    pub destination: String,
    pub yes: bool,
}

impl FieldSource for CliFlags {
    open spec fn explicit(&self) -> Map<Field, Value> {
        let base = Map::<Field, Value>::empty().insert(
            Field::Destination,
            Value::Text(self.destination@),
        );
        match self.name {
            Some(n) => base.insert(Field::ProjectName, Value::Text(n@)),
            None => base,
        }
    }

    fn get_optional(&self, field: Field) -> (r: Option<FieldValue>) {
        match field {
            Field::ProjectName => match &self.name {
                Some(n) => Some(FieldValue::Text(n.clone())),
                None => None,
            },
            Field::Destination => Some(FieldValue::Text(self.destination.clone())),
            _ => None,
        }
    }
}

/// The source of the fast track: a project name, and a default for all the
/// rest.
#[derive(Clone, Debug, PartialEq, Eq)]
pub struct AllDefaults {
    pub project_name: String,
}

impl FieldSource for AllDefaults {
    open spec fn explicit(&self) -> Map<Field, Value> {
        Map::<Field, Value>::empty().insert(Field::ProjectName, Value::Text(self.project_name@))
    }

    fn get_optional(&self, field: Field) -> (r: Option<FieldValue>) {
        match field {
            Field::ProjectName => Some(FieldValue::Text(self.project_name.clone())),
            _ => None,
        }
    }
}

/// The mapping that a list of entries stands for: a later entry replaces an
/// earlier one with the same key.
pub open spec fn mapping_of(entries: Seq<(String, FieldValue)>) -> Map<Seq<char>, Value>
    decreases entries.len(),
{
    if entries.len() == 0 {
        Map::empty()
    } else {
        mapping_of(entries.drop_last()).insert(entries.last().0@, entries.last().1@)
    }
}

/// A loosely typed mapping from keys to values, as a host hands it over.
#[derive(Clone, Debug)]
pub struct HostMapping {
    entries: Vec<(String, FieldValue)>,
}

impl View for HostMapping {
    type V = Map<Seq<char>, Value>;

    closed spec fn view(&self) -> Map<Seq<char>, Value> {
        mapping_of(self.entries@)
    }
}

impl HostMapping {
    /// A mapping without entries.
    pub fn new() -> (r: HostMapping)
        ensures
            r@ == Map::<Seq<char>, Value>::empty(),
    {
        HostMapping { entries: Vec::new() }
    }

    /// Sets the value of `key`, replacing the one it had.
    pub fn insert(&mut self, key: String, value: FieldValue)
        ensures
            final(self)@ == old(self)@.insert(key@, value@),
    {
        let ghost before = self.entries@;
        self.entries.push((key, value));
        proof {
            assert(self.entries@.drop_last() =~= before);
        }
    }

    /// The value of `key`, or `None` where the mapping has no such key.
    pub fn get(&self, key: &str) -> (r: Option<FieldValue>)
        ensures
            r is Some <==> self@.contains_key(key@),
            r matches Some(v) ==> v@ == self@[key@],
    {
        let mut found: Option<FieldValue> = None;
        let n = self.entries.len();
        let mut i: usize = 0;
        while i < n
            invariant
                n == self.entries@.len(),
                i <= n,
                found is Some <==> mapping_of(self.entries@.take(i as int)).contains_key(key@),
                found matches Some(v) ==> v@ == mapping_of(self.entries@.take(i as int))[key@],
            decreases n - i,
        {
            proof {
                let next = self.entries@.take(i + 1);
                assert(next.drop_last() =~= self.entries@.take(i as int));
                assert(next.last() == self.entries@[i as int]);
            }
            if same_text(self.entries[i].0.as_str(), key) {
                found = Some(self.entries[i].1.duplicate());
            }
            i = i + 1;
        }
        proof {
            assert(self.entries@.take(n as int) =~= self.entries@);
        }
        found
    }
}

impl FieldSource for HostMapping {
    open spec fn explicit(&self) -> Map<Field, Value> {
        Map::new(|f: Field| self@.contains_key(name_of(f)), |f: Field| self@[name_of(f)])
    }

    fn get_optional(&self, field: Field) -> (r: Option<FieldValue>) {
        self.get(field.name())
    }
}

} // verus!
