//! What the two entry surfaces do before the handoff: the command line picks
//! the fast track or the interactive flow, the host call resolves its
//! mapping. Both resolve through the one resolver.

use vstd::prelude::*;
use crate::error::{ConfigError, Failure};
use crate::field::{Field, Value};
use crate::interactive::{Flow, FlowState};
use crate::record::{text_view, ConfigurationRecord, Record};
use crate::resolver::{destination_of, only_name, resolve, resolve_destination, resolved};
use crate::source::{AllDefaults, CliFlags, FieldSource};

verus! {

/// A resolved record together with the directory it is to be written to.
#[derive(Clone, Debug, PartialEq, Eq)]
pub struct Invocation {
    pub record: ConfigurationRecord,
    pub destination: String,
}

/// What an invocation comes to for the entries of a source: the resolved
/// record and the resolved destination, or the first failure; the record is
/// resolved first.
pub open spec fn invoked(m: Map<Field, Value>) -> Result<(Record, Seq<char>), Failure> {
    match resolved(m) {
        Err(e) => Err(e),
        Ok(rec) => match destination_of(m) {
            Err(e) => Err(e),
            Ok(destination) => Ok((rec, destination)),
        },
    }
}

/// The view of a resolved invocation or its failure.
pub open spec fn invocation_view(r: Result<Invocation, ConfigError>) -> Result<
    (Record, Seq<char>),
    Failure,
> {
    match r {
        Ok(inv) => Ok((inv.record@, inv.destination@)),
        Err(e) => Err(e@),
    }
}

/// Resolves a source into a record and a destination, without asking
/// anything: a field that the source does not hold takes its default. This
/// is the whole of a host call up to the handoff.
pub fn resolve_invocation<S: FieldSource>(source: &S) -> (r: Result<Invocation, ConfigError>)
    ensures
        invocation_view(r) == invoked(source.explicit()),
{
    let record = match resolve(source) {
        Ok(rec) => rec,
        Err(e) => { return Err(e); },
    };
    match resolve_destination(source) {
        Ok(destination) => Ok(Invocation { record, destination }),
        Err(e) => Err(e),
    }
}

/// How the command line goes about a `create`.
#[derive(Debug)]
pub enum CreatePlan {
    /// The fast track: the record is resolved already.
    FastTrack(ConfigurationRecord),
    /// The interactive flow, at its first question.
    Interactive(FlowState),
}

/// The mathematical content of a `CreatePlan`.
pub enum Plan {
    FastTrack(Record),
    Interactive(Flow),
}

impl View for CreatePlan {
    type V = Plan;

    open spec fn view(&self) -> Plan {
        match self {
            CreatePlan::FastTrack(rec) => Plan::FastTrack(rec@),
            CreatePlan::Interactive(flow) => Plan::Interactive(flow@),
        }
    }
}

/// What the command line does with a name and the fast-track switch. With
/// the switch, the name alone is resolved, and a missing name is a failure.
/// Without it, the flow starts, offering the name if there is one.
pub open spec fn planned(name: Option<Seq<char>>, yes: bool) -> Result<Plan, Failure> {
    if yes {
        match name {
            None => Err(Failure::MissingRequiredField),
            Some(n) => match resolved(only_name(n)) {
                Ok(rec) => Ok(Plan::FastTrack(rec)),
                Err(e) => Err(e),
            },
        }
    } else {
        Ok(Plan::Interactive(Flow { hint: name, confirmed: Seq::empty() }))
    }
}

/// The view of a plan or its failure.
pub open spec fn plan_view(r: Result<CreatePlan, ConfigError>) -> Result<Plan, Failure> {
    match r {
        Ok(p) => Ok(p@),
        Err(e) => Err(e@),
    }
}

/// Decides how a `create` on the command line proceeds.
pub fn plan_create(flags: &CliFlags) -> (r: Result<CreatePlan, ConfigError>)
    ensures
        plan_view(r) == planned(text_view(flags.name), flags.yes),
{
    if flags.yes {
        match &flags.name {
            None => Err(ConfigError::MissingRequiredField),
            Some(n) => {
                let source = AllDefaults { project_name: n.clone() };
                match resolve(&source) {
                    Ok(rec) => Ok(CreatePlan::FastTrack(rec)),
                    Err(e) => Err(e),
                }
            },
        }
    } else {
        let hint = match &flags.name {
            Some(n) => Some(n.clone()),
            None => None,
        };
        Ok(CreatePlan::Interactive(FlowState::start(hint)))
    }
}

/// On the fast track a name that is not empty is all it takes: the plan is
/// the record that the name alone resolves to.
pub proof fn lemma_fast_track_needs_only_a_name(name: Seq<char>)
    requires
        name.len() > 0,
    ensures
        planned(Some(name), true) is Ok,
        planned(Some(name), true)->Ok_0 == Plan::FastTrack(resolved(only_name(name))->Ok_0),
{
    crate::resolver::lemma_name_alone_resolves(name);
}

} // verus!
