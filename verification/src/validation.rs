//! The validation vocabulary: field-level violations, the rule predicates
//! each input contract composes, and the verified helpers that evaluate a
//! rule and record its violation. Validation is total: every rule of a
//! contract is evaluated, and the violations come out in the order the
//! rules are declared.
use vstd::prelude::*;
use vstd::string::StrSliceExecFns;

use crate::text::str_eq;

verus! {

/// One violated rule: the field it is tagged to and its human-readable
/// message.
#[derive(Debug, Clone, Copy)]
pub struct Violation {
    pub field: &'static str,
    pub message: &'static str,
}

/// The (field, message) text pairs of a violation sequence.
pub open spec fn views_of(vs: Seq<Violation>) -> Seq<(Seq<char>, Seq<char>)> {
    vs.map_values(|v: Violation| (v.field@, v.message@))
}

/// Whether the characters form a syntactically valid email address, as the
/// HTML5 definition of a valid email address has it.
pub uninterp spec fn is_email(s: Seq<char>) -> bool;

/// Relies on validator::validate_email: whether the string is a valid email
/// address under the HTML5 definition; the result depends on the characters
/// alone.
#[verifier::external_body]
fn email_syntax_ok(s: &str) -> (r: bool)
    ensures
        r == is_email(s@),
{
    validator::validate_email(s)
}

/// A minimum-length rule: violated when the value has fewer than `min`
/// characters.
pub open spec fn min_len_rule(
    field: Seq<char>,
    value: Seq<char>,
    min: nat,
    message: Seq<char>,
) -> Seq<(Seq<char>, Seq<char>)> {
    if value.len() < min {
        seq![(field, message)]
    } else {
        Seq::<(Seq<char>, Seq<char>)>::empty()
    }
}

/// An email-syntax rule: violated when the value is not a valid email
/// address.
pub open spec fn email_syntax_rule(
    field: Seq<char>,
    value: Seq<char>,
    message: Seq<char>,
) -> Seq<(Seq<char>, Seq<char>)> {
    if !is_email(value) {
        seq![(field, message)]
    } else {
        Seq::<(Seq<char>, Seq<char>)>::empty()
    }
}

/// A confirmation rule: violated when the value differs, character for
/// character, from the field it confirms.
pub open spec fn must_match_rule(
    field: Seq<char>,
    value: Seq<char>,
    other: Seq<char>,
    message: Seq<char>,
) -> Seq<(Seq<char>, Seq<char>)> {
    if value != other {
        seq![(field, message)]
    } else {
        Seq::<(Seq<char>, Seq<char>)>::empty()
    }
}

/// A range rule on an optional number: absence is valid; a present value is
/// violated when it lies outside `min ..= max`.
pub open spec fn range_rule(
    field: Seq<char>,
    value: Option<usize>,
    min: usize,
    max: usize,
    message: Seq<char>,
) -> Seq<(Seq<char>, Seq<char>)> {
    if value is Some && !(min <= value->0 && value->0 <= max) {
        seq![(field, message)]
    } else {
        Seq::<(Seq<char>, Seq<char>)>::empty()
    }
}

/// Evaluates a minimum-length rule and records its violation.
pub fn push_min_len(
    vs: &mut Vec<Violation>,
    value: &str,
    min: usize,
    field: &'static str,
    message: &'static str,
)
    ensures
        views_of(final(vs)@) == views_of(old(vs)@) + min_len_rule(
            field@,
            value@,
            min as nat,
            message@,
        ),
{
    let n = value.unicode_len();
    if n < min {
        vs.push(Violation { field, message });
    }
    proof {
        assert(views_of(vs@) =~= views_of(old(vs)@) + min_len_rule(
            field@,
            value@,
            min as nat,
            message@,
        ));
    }
}

/// Evaluates an email-syntax rule and records its violation.
pub fn push_email_syntax(
    vs: &mut Vec<Violation>,
    value: &str,
    field: &'static str,
    message: &'static str,
)
    ensures
        views_of(final(vs)@) == views_of(old(vs)@) + email_syntax_rule(field@, value@, message@),
{
    if !email_syntax_ok(value) {
        vs.push(Violation { field, message });
    }
    proof {
        assert(views_of(vs@) =~= views_of(old(vs)@) + email_syntax_rule(field@, value@, message@));
    }
}

/// Evaluates a confirmation rule and records its violation.
pub fn push_must_match(
    vs: &mut Vec<Violation>,
    value: &str,
    other: &str,
    field: &'static str,
    message: &'static str,
)
    ensures
        views_of(final(vs)@) == views_of(old(vs)@) + must_match_rule(
            field@,
            value@,
            other@,
            message@,
        ),
{
    if !str_eq(value, other) {
        vs.push(Violation { field, message });
    }
    proof {
        assert(views_of(vs@) =~= views_of(old(vs)@) + must_match_rule(
            field@,
            value@,
            other@,
            message@,
        ));
    }
}

/// Evaluates a range rule on an optional number and records its violation.
pub fn push_range(
    vs: &mut Vec<Violation>,
    value: &Option<usize>,
    min: usize,
    max: usize,
    field: &'static str,
    message: &'static str,
)
    ensures
        views_of(final(vs)@) == views_of(old(vs)@) + range_rule(
            field@,
            *value,
            min,
            max,
            message@,
        ),
{
    if let Some(v) = value {
        if *v < min || *v > max {
            vs.push(Violation { field, message });
        }
    }
    proof {
        assert(views_of(vs@) =~= views_of(old(vs)@) + range_rule(
            field@,
            *value,
            min,
            max,
            message@,
        ));
    }
}

} // verus!
