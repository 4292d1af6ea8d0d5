//! The field rules that requests are held to before any work is done.

use vstd::prelude::*;
use vstd::string::*;

use validator::ValidateUrl;

verus! {

/// Which kind of rule a field broke.
#[derive(Debug, Clone, Copy, PartialEq, Eq, Structural)]
pub enum Rule {
    /// Too few or too many characters (or, for a list, items).
    Length,
    /// A number outside its allowed range.
    Range,
    /// Not a URL.
    Url,
}

/// A field that broke a rule.
#[derive(Debug, Clone, Copy)]
pub struct FieldError {
    pub field: &'static str,
    pub rule: Rule,
}

/// A field error over plain text: (field name, rule).
pub open spec fn field_error_text(e: FieldError) -> (Seq<char>, Rule) {
    (e.field@, e.rule)
}

/// The outcome of validating against the broken rules `violations`: success
/// when none is broken, otherwise exactly those errors, in field order.
pub open spec fn validation_outcome(
    r: Result<(), Vec<FieldError>>,
    violations: Seq<(Seq<char>, Rule)>,
) -> bool {
    match r {
        Ok(_) => violations.len() == 0,
        Err(errors) => violations.len() > 0 && errors@.map_values(|e: FieldError| field_error_text(e))
            == violations,
    }
}

/// Whether a text has between `min` and `max` characters (no upper bound
/// when `max` is absent).
pub open spec fn length_within(text: Seq<char>, min: nat, max: Option<nat>) -> bool {
    min <= text.len() && match max {
        Some(m) => text.len() <= m,
        None => true,
    }
}

/// Whether an optional text is absent or has between `min` and `max` characters.
pub open spec fn optional_length_within(text: Option<Seq<char>>, min: nat, max: Option<nat>) -> bool {
    match text {
        Some(t) => length_within(t, min, max),
        None => true,
    }
}

/// Whether a text parses as a URL.
pub uninterp spec fn url_parses(text: Seq<char>) -> bool;

/// `validator::ValidateUrl::validate_url` on a string slice, which answers
/// whether `url::Url::parse` accepts it. Claimed: the answer is the one that
/// `url_parses` names; what the URL grammar accepts is left unsaid.
#[verifier::external_body]
pub(crate) fn is_url(text: &str) -> (r: bool)
    ensures
        r == url_parses(text@),
{
    text.validate_url()
}

/// The one broken rule of a field, or none.
pub open spec fn broken(ok: bool, field: Seq<char>, rule: Rule) -> Seq<(Seq<char>, Rule)> {
    if ok {
        Seq::empty()
    } else {
        seq![(field, rule)]
    }
}

/// Whether an outcome refuses the request with `field` having broken `rule`.
pub open spec fn refused_for(r: Result<(), Vec<FieldError>>, field: Seq<char>, rule: Rule) -> bool {
    match r {
        Ok(_) => false,
        Err(errors) => errors@.map_values(|e: FieldError| field_error_text(e)).contains((field, rule)),
    }
}

/// A validation outcome succeeds exactly when no rule is broken, and reports
/// a field as breaking a rule exactly when it does.
pub proof fn lemma_outcome_reports_violations(
    r: Result<(), Vec<FieldError>>,
    violations: Seq<(Seq<char>, Rule)>,
    field: Seq<char>,
    rule: Rule,
)
    requires
        validation_outcome(r, violations),
    ensures
        r is Ok <==> violations.len() == 0,
        refused_for(r, field, rule) <==> violations.contains((field, rule)),
{
}

/// A field's broken rule is listed exactly when the field breaks it.
pub broadcast proof fn lemma_broken_lists_only_its_rule(
    ok: bool,
    field: Seq<char>,
    rule: Rule,
    x: (Seq<char>, Rule),
)
    ensures
        #[trigger] broken(ok, field, rule).contains(x) <==> (!ok && x == (field, rule)),
{
    if !ok {
        assert(broken(ok, field, rule)[0] == (field, rule));
    }
}

/// Whether `text` has between `min` and `max` characters.
pub fn check_length(text: &str, min: usize, max: Option<usize>) -> (r: bool)
    ensures
        r == length_within(
            text@,
            min as nat,
            match max {
                Some(m) => Some(m as nat),
                None => None,
            },
        ),
{
    let n: usize = text.unicode_len();
    min <= n && match max {
        Some(m) => n <= m,
        None => true,
    }
}

/// Whether `text` is absent or has between `min` and `max` characters.
pub fn check_optional_length(text: &Option<String>, min: usize, max: Option<usize>) -> (r: bool)
    ensures
        r == optional_length_within(
            match text {
                Some(t) => Some(t@),
                None => None,
            },
            min as nat,
            match max {
                Some(m) => Some(m as nat),
                None => None,
            },
        ),
{
    match text {
        Some(t) => check_length(t.as_str(), min, max),
        None => true,
    }
}

/// Records that `field` broke `rule` unless `ok`.
pub fn note(errors: &mut Vec<FieldError>, ok: bool, field: &'static str, rule: Rule)
    ensures
        final(errors)@.map_values(|e: FieldError| field_error_text(e)) == old(errors)@.map_values(
            |e: FieldError| field_error_text(e),
        ) + broken(ok, field@, rule),
{
    let ghost before = errors@.map_values(|e: FieldError| field_error_text(e));
    if !ok {
        errors.push(FieldError { field, rule });
        assert(errors@.map_values(|e: FieldError| field_error_text(e)) =~= before + seq![(field@, rule)]);
    } else {
        assert(before + Seq::<(Seq<char>, Rule)>::empty() =~= before);
    }
}

/// Success when no rule is broken, otherwise the errors.
pub fn finish(errors: Vec<FieldError>) -> (r: Result<(), Vec<FieldError>>)
    ensures
        validation_outcome(r, errors@.map_values(|e: FieldError| field_error_text(e))),
{
    if errors.len() == 0 {
        Ok(())
    } else {
        Err(errors)
    }
}

} // verus!
