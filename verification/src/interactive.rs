//! The interactive flow: one question per field, in a fixed order.
//!
//! The flow decides; it never reads or prints. Its caller shows what
//! `pending` returns, reads the user's answer and hands it to `answer`, until
//! nothing is pending and `finish` gives the record.

use vstd::prelude::*;
use crate::defaults::{default_text, derive_default, derived};
use crate::error::{Failure, Reason, ValidationError};
use crate::field::{field_at, fits, position, Field, FieldValue, Kind, Value};
use crate::record::{as_text, text_view, valid_record, ConfigurationRecord, Record};
use crate::source::value_view;
use crate::resolver::{candidate, first_misfit, resolved};
use crate::validators::{problem_of, validate};

verus! {

/// The number of fields that the flow asks for.
pub const ASKED: usize = 10;

/// The field of the `i`-th question. The questions follow the order of
/// resolution, so the database name is settled before its owner is asked
/// for. The package name of the host surface is not asked for.
pub open spec fn asked(i: int) -> Field {
    field_at(i)
}

/// The state of a flow: the name given on the command line, if any, and the
/// values confirmed so far, one for each question answered.
pub struct Flow {
    pub hint: Option<Seq<char>>,
    pub confirmed: Seq<Value>,
}

/// What is wrong with a value as an answer for a field: it is of the wrong
/// kind, or the field's validator turns it down.
pub open spec fn objection(field: Field, value: Value) -> Option<Reason> {
    if !fits(field, value) {
        Some(Reason::WrongKind)
    } else if value is Text {
        problem_of(field, value->Text_0)
    } else {
        None
    }
}

/// Every confirmed value passed the check of its field.
pub open spec fn flow_wf(flow: Flow) -> bool {
    &&& flow.confirmed.len() <= ASKED
    &&& forall|i: int|
        0 <= i < flow.confirmed.len() ==> objection(asked(i), #[trigger] flow.confirmed[i])
            is None
}

/// Every question has been answered.
pub open spec fn complete(flow: Flow) -> bool {
    flow.confirmed.len() >= ASKED
}

/// The field of the pending question.
pub open spec fn current(flow: Flow) -> Field {
    asked(flow.confirmed.len() as int)
}

/// The confirmed database name, or the empty text before it is confirmed.
pub open spec fn db_name_so_far(flow: Flow) -> Seq<char> {
    if flow.confirmed.len() > 4 {
        flow.confirmed[4]->Text_0
    } else {
        Seq::empty()
    }
}

/// The value offered for the pending question: the default derived from
/// what is confirmed already. For the project name it is the name given on
/// the command line, and nothing where none was given.
pub open spec fn suggestion(flow: Flow) -> Option<Value> {
    if current(flow) == Field::ProjectName {
        as_text(flow.hint)
    } else {
        derived(current(flow), flow.confirmed[0]->Text_0, db_name_so_far(flow))
    }
}

/// An answer that stands for "take what is offered": no answer, or an empty
/// text.
pub open spec fn is_blank(answer: Option<Value>) -> bool {
    match answer {
        None => true,
        Some(Value::Text(s)) => s.len() == 0,
        Some(_) => false,
    }
}

/// The value that an answer stands for: the answer itself, or what is
/// offered where the answer is blank. A blank answer with nothing offered
/// stands for the empty text.
pub open spec fn taken(flow: Flow, answer: Option<Value>) -> Value {
    if is_blank(answer) {
        match suggestion(flow) {
            Some(v) => v,
            None => Value::Text(Seq::empty()),
        }
    } else {
        answer->0
    }
}

/// Why the pending question turns an answer down, if it does.
pub open spec fn rejection(flow: Flow, answer: Option<Value>) -> Option<ValidationError> {
    if complete(flow) {
        None
    } else {
        match objection(current(flow), taken(flow, answer)) {
            Some(reason) => Some(ValidationError { field: current(flow), reason }),
            None => None,
        }
    }
}

/// The state after an answer. An answer that is turned down leaves the
/// state as it was, so the same question is asked again; any other is
/// confirmed, and the flow moves on to the next question.
pub open spec fn after(flow: Flow, answer: Option<Value>) -> Flow {
    if complete(flow) || rejection(flow, answer) is Some {
        flow
    } else {
        Flow { hint: flow.hint, confirmed: flow.confirmed.push(taken(flow, answer)) }
    }
}

/// The state after a series of answers.
pub open spec fn after_all(flow: Flow, answers: Seq<Option<Value>>) -> Flow
    decreases answers.len(),
{
    if answers.len() == 0 {
        flow
    } else {
        after_all(after(flow, answers[0]), answers.drop_first())
    }
}

/// The record that a complete flow has gathered. The package name of the
/// host surface takes its default.
pub open spec fn assembled(flow: Flow) -> Record {
    let c = flow.confirmed;
    Record {
        project_name: c[0]->Text_0,
        author_name: c[1]->Text_0,
        author_email: c[2]->Text_0,
        app_identifier: c[3]->Text_0,
        db_name: Some(c[4]->Text_0),
        db_owner_admin: Some(c[5]->Text_0),
        db_owner_pword: Some(c[6]->Text_0),
        include_server: c[7]->Flag_0,
        include_frontend: c[8]->Flag_0,
        include_tauri_desktop: c[9]->Flag_0,
        deno_package_name: default_text(Field::DenoPackageName, c[0]->Text_0, c[4]->Text_0),
    }
}

/// The confirmed values of a flow as the entries of a source.
pub open spec fn entries_of(flow: Flow) -> Map<Field, Value> {
    Map::new(
        |f: Field| position(f) < flow.confirmed.len(),
        |f: Field| flow.confirmed[position(f)],
    )
}

/// The views of a list of values.
pub open spec fn values_view(values: Seq<FieldValue>) -> Seq<Value> {
    Seq::new(values.len(), |i: int| values[i]@)
}

/// What is offered and asked for at one step of the flow.
#[derive(Clone, Debug, PartialEq, Eq)]
pub struct Prompt {
    pub field: Field,
    pub suggestion: Option<FieldValue>,
}

/// The running state of an interactive flow.
#[derive(Debug)]
pub struct FlowState {
    hint: Option<String>,
    confirmed: Vec<FieldValue>,
}

impl View for FlowState {
    type V = Flow;

    closed spec fn view(&self) -> Flow {
        Flow { hint: text_view(self.hint), confirmed: values_view(self.confirmed@) }
    }
}

/// Checks a loosely typed value as a value of `field`: its kind first, then,
/// for a text, the field's validator.
pub fn check_value(field: Field, value: &FieldValue) -> (r: Option<ValidationError>)
    ensures
        r is Some <==> objection(field, value@) is Some,
        r matches Some(e) ==> e.field == field && Some(e.reason) == objection(field, value@),
{
    let wrong = Some(ValidationError { field, reason: Reason::WrongKind });
    match value {
        FieldValue::Text(s) => match field.kind() {
            Kind::Text => match validate(field, s.as_str()) {
                Ok(_) => None,
                Err(e) => Some(e),
            },
            Kind::Flag => wrong,
        },
        FieldValue::Flag(_) => match field.kind() {
            Kind::Flag => None,
            Kind::Text => wrong,
        },
        FieldValue::Other => wrong,
    }
}

/// Whether an answer stands for "take what is offered".
pub fn blank(answer: &Option<FieldValue>) -> (r: bool)
    ensures
        r == is_blank(value_view(*answer)),
{
    match answer {
        None => true,
        Some(FieldValue::Text(s)) => s.as_str().is_empty(),
        Some(_) => false,
    }
}

impl FlowState {
    #[verifier::type_invariant]
    spec fn well_formed(self) -> bool {
        flow_wf(self@)
    }

    /// A flow in which nothing is confirmed yet. `hint` is the project name
    /// given on the command line, offered at the first question.
    pub fn start(hint: Option<String>) -> (r: FlowState)
        ensures
            r@ == (Flow { hint: text_view(hint), confirmed: Seq::empty() }),
            flow_wf(r@),
    {
        let r = FlowState { hint, confirmed: Vec::new() };
        assert(r@.confirmed =~= Seq::<Value>::empty());
        r
    }

    /// The text confirmed at question `i`, or the empty text before that.
    fn text_at(&self, i: usize) -> (r: &str)
        ensures
            i < self@.confirmed.len() && self@.confirmed[i as int] is Text ==> r@
                == self@.confirmed[i as int]->Text_0,
            i >= self@.confirmed.len() ==> r@ == Seq::<char>::empty(),
    {
        if i < self.confirmed.len() {
            match &self.confirmed[i] {
                FieldValue::Text(s) => s.as_str(),
                _ => "",
            }
        } else {
            proof {
                reveal_strlit("");
                assert(""@ =~= Seq::<char>::empty());
            }
            ""
        }
    }

    /// The boolean confirmed at question `i`.
    fn flag_at(&self, i: usize) -> (r: bool)
        ensures
            i < self@.confirmed.len() && self@.confirmed[i as int] is Flag ==> r
                == self@.confirmed[i as int]->Flag_0,
    {
        if i < self.confirmed.len() {
            match &self.confirmed[i] {
                FieldValue::Flag(b) => *b,
                _ => true,
            }
        } else {
            true
        }
    }

    /// The value offered for the pending question.
    fn offered(&self) -> (r: Option<FieldValue>)
        ensures
            !complete(self@) ==> value_view(r) == suggestion(self@),
    {
        proof {
            use_type_invariant(self);
        }
        let n = self.confirmed.len();
        if n == 0 {
            match &self.hint {
                Some(h) => Some(FieldValue::Text(h.clone())),
                None => None,
            }
        } else {
            assert(objection(asked(0), self@.confirmed[0]) is None);
            if n > 4 {
                assert(objection(asked(4), self@.confirmed[4]) is None);
            }
            derive_default(Field::at(n), self.text_at(0), self.text_at(4))
        }
    }

    /// What to ask next: the pending field and the value offered for it, or
    /// `None` once every question is answered.
    pub fn pending(&self) -> (r: Option<Prompt>)
        ensures
            r is None <==> complete(self@),
            r matches Some(p) ==> p.field == current(self@) && value_view(p.suggestion)
                == suggestion(self@),
    {
        let n = self.confirmed.len();
        if n >= ASKED {
            None
        } else {
            Some(Prompt { field: Field::at(n), suggestion: self.offered() })
        }
    }

    /// Takes the user's answer to the pending question.
    ///
    /// A blank answer stands for the value offered. The value is checked; if
    /// it is turned down, the state is returned as it was, with the reason,
    /// and the same question is pending again. Otherwise the value is
    /// confirmed and the next question is pending. Once the flow is complete
    /// an answer changes nothing.
    pub fn answer(self, input: Option<FieldValue>) -> (r: (FlowState, Option<ValidationError>))
        ensures
            r.0@ == after(self@, value_view(input)),
            r.1 == rejection(self@, value_view(input)),
            flow_wf(r.0@),
    {
        proof {
            use_type_invariant(&self);
        }
        let n = self.confirmed.len();
        if n >= ASKED {
            return (self, None);
        }
        let field = Field::at(n);
        let value = if blank(&input) {
            match self.offered() {
                Some(v) => v,
                None => FieldValue::Text(String::new()),
            }
        } else {
            match input {
                Some(v) => v,
                None => FieldValue::Other,
            }
        };
        assert(value@ == taken(self@, value_view(input)));
        match check_value(field, &value) {
            Some(e) => (self, Some(e)),
            None => {
                let ghost before = self@;
                let FlowState { hint, confirmed } = self;
                let mut confirmed = confirmed;
                confirmed.push(value);
                proof {
                    let now = values_view(confirmed@);
                    assert(now =~= before.confirmed.push(value@));
                    assert forall|i: int| 0 <= i < now.len() implies objection(
                        asked(i),
                        #[trigger] now[i],
                    ) is None by {
                        if i < before.confirmed.len() {
                            assert(now[i] == before.confirmed[i]);
                        }
                    }
                }
                let next = FlowState { hint, confirmed };
                (next, None)
            },
        }
    }

    /// The record of a complete flow, after a last pass through the
    /// validators; `None` while a question is pending.
    pub fn finish(&self) -> (r: Option<ConfigurationRecord>)
        ensures
            r is Some <==> complete(self@),
            r matches Some(rec) ==> rec@ == assembled(self@) && valid_record(rec@),
    {
        proof {
            use_type_invariant(self);
        }
        if self.confirmed.len() < ASKED {
            return None;
        }
        proof {
            let c = self@.confirmed;
            assert(objection(asked(0), c[0]) is None);
            assert(objection(asked(1), c[1]) is None);
            assert(objection(asked(2), c[2]) is None);
            assert(objection(asked(3), c[3]) is None);
            assert(objection(asked(4), c[4]) is None);
            assert(objection(asked(5), c[5]) is None);
            assert(objection(asked(6), c[6]) is None);
            assert(objection(asked(7), c[7]) is None);
            assert(objection(asked(8), c[8]) is None);
            assert(objection(asked(9), c[9]) is None);
        }
        let project_name = self.text_at(0).to_owned();
        let db_name = self.text_at(4).to_owned();
        let deno_package_name = crate::defaults::derive_text(
            Field::DenoPackageName,
            project_name.as_str(),
            db_name.as_str(),
        );
        let record = ConfigurationRecord {
            project_name,
            author_name: self.text_at(1).to_owned(),
            author_email: self.text_at(2).to_owned(),
            app_identifier: self.text_at(3).to_owned(),
            db_name: Some(db_name),
            db_owner_admin: Some(self.text_at(5).to_owned()),
            db_owner_pword: Some(self.text_at(6).to_owned()),
            include_server: self.flag_at(7),
            include_frontend: self.flag_at(8),
            include_tauri_desktop: self.flag_at(9),
            deno_package_name,
        };
        match record.check() {
            Ok(_) => Some(record),
            Err(_) => None,
        }
    }
}

/// An answer that is turned down leaves no trace. The state stays as it
/// was; the next answer, if it is taken, is confirmed for the same field;
/// and whatever answers follow, the flow ends where it would have ended had
/// the answer that was turned down never been given.
pub proof fn lemma_rejected_answer_leaves_no_trace(
    flow: Flow,
    bad: Option<Value>,
    good: Option<Value>,
    rest: Seq<Option<Value>>,
)
    requires
        !complete(flow),
        rejection(flow, bad) is Some,
        rejection(flow, good) is None,
    ensures
        after(flow, bad) == flow,
        after(after(flow, bad), good).confirmed == flow.confirmed.push(taken(flow, good)),
        after(after(flow, bad), good).confirmed.last() == taken(flow, good),
        after_all(flow, seq![bad, good] + rest) == after_all(flow, seq![good] + rest),
{
    let long = seq![bad, good] + rest;
    let short = seq![good] + rest;
    assert(long[0] == bad);
    assert(long.drop_first() =~= short);
}

/// The flow keeps what it checks: after any answer every confirmed value
/// still passes the check of its field.
pub proof fn lemma_answers_keep_flow_well_formed(flow: Flow, answer: Option<Value>)
    requires
        flow_wf(flow),
    ensures
        flow_wf(after(flow, answer)),
{
    let next = after(flow, answer);
    assert forall|i: int| 0 <= i < next.confirmed.len() implies objection(
        asked(i),
        #[trigger] next.confirmed[i],
    ) is None by {
        if i < flow.confirmed.len() {
            assert(next.confirmed[i] == flow.confirmed[i]);
        }
    }
}

/// The flow and the resolver agree: the record of a complete flow is the
/// record that resolution gives for a source that holds the confirmed
/// values. So the last pass through the validators never fails.
pub proof fn lemma_flow_agrees_with_resolution(flow: Flow)
    requires
        flow_wf(flow),
        complete(flow),
    ensures
        resolved(entries_of(flow)) == Ok::<Record, Failure>(assembled(flow)),
        valid_record(assembled(flow)),
{
    let c = flow.confirmed;
    let m = entries_of(flow);
    assert(objection(asked(0), c[0]) is None);
    assert(objection(asked(1), c[1]) is None);
    assert(objection(asked(2), c[2]) is None);
    assert(objection(asked(3), c[3]) is None);
    assert(objection(asked(4), c[4]) is None);
    assert(objection(asked(5), c[5]) is None);
    assert(objection(asked(6), c[6]) is None);
    assert(objection(asked(7), c[7]) is None);
    assert(objection(asked(8), c[8]) is None);
    assert(objection(asked(9), c[9]) is None);
    assert(!m.contains_key(Field::DenoPackageName));
    assert(m[Field::ProjectName] == c[0]);
    assert(first_misfit(m) is None);
    assert(candidate(m) == assembled(flow));
}

} // verus!
