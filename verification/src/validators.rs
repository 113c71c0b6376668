//! Acceptability checks, one per kind of text.
//!
//! A validator never changes a value: it hands the text back as it is or says
//! why it is turned down. Case and separators are the business of the
//! derivation rules, not of these checks.

use vstd::prelude::*;
use crate::error::{Reason, ValidationError};
use crate::field::Field;

verus! {

/// What is wrong with a project name: it must have at least one character.
pub open spec fn project_name_problem(s: Seq<char>) -> Option<Reason> {
    if s.len() == 0 {
        Some(Reason::Empty)
    } else {
        None
    }
}

/// What is wrong with an application identifier. Any text with at least one
/// character is taken; no reverse-domain grammar is asked for.
pub open spec fn identifier_problem(s: Seq<char>) -> Option<Reason> {
    if s.len() == 0 {
        Some(Reason::Empty)
    } else {
        None
    }
}

/// `i` is the position of the first `@` of `s`.
pub open spec fn first_at(s: Seq<char>, i: int) -> bool {
    &&& 0 <= i < s.len()
    &&& s[i] == '@'
    &&& forall|j: int| 0 <= j < i ==> s[j] != '@'
}

/// What is wrong with the shape of an e-mail address. The local part is what
/// stands before the first `@`, the domain all that follows it; both must have
/// at least one character.
pub open spec fn email_problem(s: Seq<char>) -> Option<Reason> {
    if !s.contains('@') {
        Some(Reason::MissingAt)
    } else if first_at(s, 0) {
        Some(Reason::EmptyLocalPart)
    } else if first_at(s, s.len() - 1) {
        Some(Reason::EmptyDomain)
    } else {
        None
    }
}

/// What is wrong with `s` as a value of `field`. Only the project name, the
/// author's e-mail address and the application identifier are checked.
pub open spec fn problem_of(field: Field, s: Seq<char>) -> Option<Reason> {
    match field {
        Field::ProjectName => project_name_problem(s),
        Field::AuthorEmail => email_problem(s),
        Field::AppIdentifier => identifier_problem(s),
        _ => None,
    }
}

/// What a validator returns for `s` as a value of `field`.
pub open spec fn verdict(field: Field, s: Seq<char>) -> Result<Seq<char>, ValidationError> {
    match problem_of(field, s) {
        Some(reason) => Err(ValidationError { field, reason }),
        None => Ok(s),
    }
}

/// The view of a validator's result.
pub open spec fn verdict_view(r: Result<String, ValidationError>) -> Result<
    Seq<char>,
    ValidationError,
> {
    match r {
        Ok(v) => Ok(v@),
        Err(e) => Err(e),
    }
}

/// Checks a project name.
pub fn validate_project_name(raw: &str) -> (r: Result<String, ValidationError>)
    ensures
        verdict_view(r) == verdict(Field::ProjectName, raw@),
{
    if raw.is_empty() {
        Err(ValidationError { field: Field::ProjectName, reason: Reason::Empty })
    } else {
        Ok(raw.to_owned())
    }
}

/// Checks an application identifier.
pub fn validate_identifier(raw: &str) -> (r: Result<String, ValidationError>)
    ensures
        verdict_view(r) == verdict(Field::AppIdentifier, raw@),
{
    if raw.is_empty() {
        Err(ValidationError { field: Field::AppIdentifier, reason: Reason::Empty })
    } else {
        Ok(raw.to_owned())
    }
}

/// Checks the shape of an e-mail address. Whether mail can be delivered to it
/// is not looked at.
pub fn validate_email(raw: &str) -> (r: Result<String, ValidationError>)
    ensures
        verdict_view(r) == verdict(Field::AuthorEmail, raw@),
{
    let mut any = false;
    let mut starts_with_at = false;
    let mut seen = false;
    let mut seen_before = false;
    let mut last_is_at = false;
    for c in it: raw.chars()
        invariant
            it.seq() == raw@,
            any == (it.index() > 0),
            seen == raw@.take(it.index()).contains('@'),
            any ==> starts_with_at == (raw@[0] == '@'),
            any ==> last_is_at == (raw@[it.index() - 1] == '@'),
            any ==> seen_before == raw@.take(it.index() - 1).contains('@'),
    {
        proof {
            let done = raw@.take(it.index());
            let next = raw@.take(it.index() + 1);
            assert(next =~= done.push(c));
            assert(next.contains('@') == (done.contains('@') || c == '@')) by {
                if done.contains('@') {
                    let k = choose|k: int| 0 <= k < done.len() && done[k] == '@';
                    assert(next[k] == '@');
                }
                if c == '@' {
                    assert(next[it.index()] == '@');
                }
            }
        }
        if !any {
            starts_with_at = c == '@';
        }
        seen_before = seen;
        last_is_at = c == '@';
        if c == '@' {
            seen = true;
        }
        any = true;
    }
    proof {
        let s = raw@;
        assert(s.take(s.len() as int) =~= s);
        if any {
            assert(s.take(s.len() - 1) =~= s.drop_last());
            assert(first_at(s, s.len() - 1) == (last_is_at && !seen_before)) by {
                if seen_before {
                    let k = choose|k: int| 0 <= k < s.drop_last().len() && s.drop_last()[k] == '@';
                    assert(s[k] == '@');
                }
                if last_is_at && !seen_before {
                    assert forall|j: int| 0 <= j < s.len() - 1 implies s[j] != '@' by {
                        if s[j] == '@' {
                            assert(s.drop_last()[j] == '@');
                        }
                    }
                }
            }
        }
    }
    if !seen {
        Err(ValidationError { field: Field::AuthorEmail, reason: Reason::MissingAt })
    } else if starts_with_at {
        Err(ValidationError { field: Field::AuthorEmail, reason: Reason::EmptyLocalPart })
    } else if last_is_at && !seen_before {
        Err(ValidationError { field: Field::AuthorEmail, reason: Reason::EmptyDomain })
    } else {
        Ok(raw.to_owned())
    }
}

/// Checks `raw` as a value of `field`, with the validator of that field; a
/// field without one takes any text.
pub fn validate(field: Field, raw: &str) -> (r: Result<String, ValidationError>)
    ensures
        verdict_view(r) == verdict(field, raw@),
{
    match field {
        Field::ProjectName => validate_project_name(raw),
        Field::AuthorEmail => validate_email(raw),
        Field::AppIdentifier => validate_identifier(raw),
        _ => Ok(raw.to_owned()),
    }
}

/// An address is well shaped exactly when its first `@` has text on both
/// sides.
pub proof fn lemma_email_shape(s: Seq<char>)
    ensures
        email_problem(s) is None <==> exists|i: int| first_at(s, i) && 0 < i < s.len() - 1,
{
    if email_problem(s) is None {
        let k = choose|k: int| 0 <= k < s.len() && s[k] == '@';
        let i = lemma_first_at_exists(s, k);
        assert(first_at(s, i) && 0 < i < s.len() - 1);
    } else if exists|i: int| first_at(s, i) && 0 < i < s.len() - 1 {
        let i = choose|i: int| first_at(s, i) && 0 < i < s.len() - 1;
        assert(s.contains('@'));
    }
}

/// A text that holds an `@` at `k` has a first `@` at or before `k`.
proof fn lemma_first_at_exists(s: Seq<char>, k: int) -> (i: int)
    requires
        0 <= k < s.len(),
        s[k] == '@',
    ensures
        first_at(s, i),
        i <= k,
    decreases k,
{
    if exists|j: int| 0 <= j < k && s[j] == '@' {
        let j = choose|j: int| 0 <= j < k && s[j] == '@';
        lemma_first_at_exists(s, j)
    } else {
        k
    }
}

} // verus!
