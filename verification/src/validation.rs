//! Composable structural validation rules.
//!
//! Each rule is a pure function of a field value (and any sibling values
//! the rule needs) returning success or a message describing the
//! violation. The caller places the message at the field's path and
//! aggregates all messages of a document into one report.

use vstd::prelude::*;

use crate::definition::common::{NonNegativeNumber, ValidatedNonNegativeNumber};
use crate::definition::events::EventKind;
use crate::error::Report;
use crate::numbers::{
    dec_digits,
    parse_i64,
    parsed_i64,
    render_bool,
    render_i64,
    render_usize,
    rendered_bool,
    rendered_i64,
};
use crate::uri::{uri_parts, Uri};

verus! {

/// The path of a field inside its parent: dot-joined unless the parent
/// path is empty.
pub open spec fn child(path: Seq<char>, name: Seq<char>) -> Seq<char> {
    if path.len() == 0 {
        name
    } else {
        path + "."@ + name
    }
}

/// Joins a parent path and a field name with a dot.
pub fn child_path(path: &str, name: &str) -> (r: String)
    ensures
        r@ == child(path@, name@),
{
    if path.unicode_len() == 0 {
        name.to_owned()
    } else {
        path.to_owned().concat(".").concat(name)
    }
}

/// The path of one element of a sequence-valued field.
pub open spec fn indexed(path: Seq<char>, i: int) -> Seq<char> {
    path + "["@ + dec_digits(i) + "]"@
}

/// Joins a field path and an element index with brackets.
pub fn indexed_path(path: &str, i: usize) -> (r: String)
    ensures
        r@ == indexed(path@, i as int),
{
    path.to_owned().concat("[").concat(render_usize(i).as_str()).concat("]")
}

/// The violations one rule outcome contributes at a path: nothing on
/// success, one entry carrying the rule's message on failure.
pub open spec fn outcome_vio(path: Seq<char>, r: Result<(), String>) -> Seq<
    (Seq<char>, Seq<char>),
> {
    match r {
        Ok(_) => Seq::<(Seq<char>, Seq<char>)>::empty(),
        Err(m) => seq![(path, m@)],
    }
}

/// Records one rule outcome in the report.
pub fn apply_rule(report: &mut Report, path: String, outcome: Result<(), String>)
    ensures
        final(report)@ == old(report)@ + outcome_vio(path@, outcome),
{
    match outcome {
        Ok(_) => {
            proof {
                assert(report@ =~= report@ + outcome_vio(path@, Ok(())));
            }
        },
        Err(m) => {
            report.push(path, m);
        },
    }
}

/// A definition that can be validated structurally: it knows the exact
/// sequence of violations it contributes under a given path, and its
/// validation appends exactly those violations to the report.
pub trait Validated: Sized {
    /// The violations of this definition, located under `path`.
    spec fn violations(&self, path: Seq<char>) -> Seq<(Seq<char>, Seq<char>)>;

    /// Validates this definition, adding its violations to the report.
    fn validate_into(&self, path: &str, report: &mut Report)
        ensures
            final(report)@ == old(report)@ + self.violations(path@),
    ;
}

/// The violations of an optional nested definition: the nested
/// definition's violations when present, nothing when absent.
pub open spec fn option_vio<T: Validated>(path: Seq<char>, o: Option<T>) -> Seq<
    (Seq<char>, Seq<char>),
> {
    match o {
        Some(v) => v.violations(path),
        None => Seq::<(Seq<char>, Seq<char>)>::empty(),
    }
}

/// Validates an optional nested definition.
pub fn check_option<T: Validated>(report: &mut Report, path: String, o: &Option<T>)
    ensures
        final(report)@ == old(report)@ + option_vio(path@, *o),
{
    match o {
        Some(v) => {
            v.validate_into(path.as_str(), report);
        },
        None => {
            proof {
                assert(report@ =~= report@ + option_vio(path@, *o));
            }
        },
    }
}

/// The violations of a sequence-valued field: each element's violations
/// at its indexed path, in element order.
pub open spec fn seq_vio<T: Validated>(path: Seq<char>, elems: Seq<T>) -> Seq<
    (Seq<char>, Seq<char>),
>
    decreases elems.len(),
{
    if elems.len() == 0 {
        Seq::<(Seq<char>, Seq<char>)>::empty()
    } else {
        seq_vio(path, elems.drop_last()) + elems.last().violations(
            indexed(path, elems.len() - 1),
        )
    }
}

/// Whether a definition raises no violation, wherever it stands in a
/// document.
pub open spec fn violation_free<T: Validated>(x: T) -> bool {
    forall|p: Seq<char>| (#[trigger] x.violations(p)).len() == 0
}

/// A sequence of violation-free definitions raises no violation.
pub proof fn lemma_seq_vio_empty<T: Validated>(path: Seq<char>, elems: Seq<T>)
    requires
        forall|i: int| 0 <= i < elems.len() ==> violation_free(#[trigger] elems[i]),
    ensures
        seq_vio(path, elems).len() == 0,
    decreases elems.len(),
{
    if elems.len() > 0 {
        assert forall|i: int|
            0 <= i < elems.drop_last().len() implies violation_free(
            #[trigger] elems.drop_last()[i],
        ) by {
            assert(elems.drop_last()[i] == elems[i]);
        }
        lemma_seq_vio_empty(path, elems.drop_last());
        assert(violation_free(elems[elems.len() - 1]));
        assert(elems.last().violations(indexed(path, elems.len() - 1)).len() == 0);
    }
}

/// Validates every element of a sequence-valued field.
pub fn check_seq<T: Validated>(report: &mut Report, path: &str, elems: &Vec<T>)
    ensures
        final(report)@ == old(report)@ + seq_vio(path@, elems@),
{
    let ghost base = report@;
    let n = elems.len();
    let mut i: usize = 0;
    proof {
        assert(elems@.take(0) =~= Seq::<T>::empty());
        assert(base =~= base + seq_vio(path@, elems@.take(0)));
    }
    while i < n
        invariant
            0 <= i <= n,
            n == elems@.len(),
            report@ == base + seq_vio(path@, elems@.take(i as int)),
        decreases n - i,
    {
        let ghost pre = report@;
        elems[i].validate_into(indexed_path(path, i).as_str(), report);
        proof {
            assert(elems@.take(i as int + 1).drop_last() =~= elems@.take(i as int));
            assert(elems@.take(i as int + 1).last() == elems@[i as int]);
            vstd::seq_lib::lemma_concat_associative(
                base,
                seq_vio(path@, elems@.take(i as int)),
                elems@[i as int].violations(indexed(path@, i as int)),
            );
        }
        i += 1;
    }
    proof {
        assert(elems@.take(n as int) =~= elems@);
    }
}

/// A document type that can be validated as a whole: success exactly
/// when the document has no violation, and otherwise an aggregated
/// report carrying every violation at once.
pub trait ValidateDefinition: Sized {
    /// The violations of this document, located from its root.
    spec fn doc_violations(&self) -> Seq<(Seq<char>, Seq<char>)>;

    /// Validates this document.
    ///
    /// Returns success exactly when the document has no violation, and
    /// otherwise a validation-failure error aggregating all violations.
    fn validate_definition(&self) -> (r: Result<(), crate::error::Error>)
        ensures
            match r {
                Ok(_) => self.doc_violations().len() == 0,
                Err(e) => (e matches crate::error::Error::ValidationFailed { report } && report@
                    == self.doc_violations()) && self.doc_violations().len() > 0,
            },
    ;
}

/// The violations of an optional sequence field whose elements dive.
pub open spec fn opt_seq_vio<T: Validated>(path: Seq<char>, o: Option<Vec<T>>) -> Seq<
    (Seq<char>, Seq<char>),
> {
    match o {
        Some(v) => seq_vio(path, v@),
        None => Seq::<(Seq<char>, Seq<char>)>::empty(),
    }
}

/// Validates every element of an optional sequence field.
pub fn check_opt_seq<T: Validated>(report: &mut Report, path: String, o: &Option<Vec<T>>)
    ensures
        final(report)@ == old(report)@ + opt_seq_vio(path@, *o),
{
    match o {
        Some(v) => {
            check_seq(report, path.as_str(), v);
        },
        None => {
            proof {
                assert(report@ =~= report@ + opt_seq_vio(path@, *o));
            }
        },
    }
}

/// The violations of an optional sequence field that must not be empty
/// and whose elements dive.
pub open spec fn opt_seq_with_len_vio<T: Validated>(path: Seq<char>, o: Option<Vec<T>>) -> Seq<
    (Seq<char>, Seq<char>),
> {
    match o {
        Some(v) => seq_min_len_vio(path, v@.len()) + seq_vio(path, v@),
        None => Seq::<(Seq<char>, Seq<char>)>::empty(),
    }
}

/// Validates an optional sequence field that must not be empty, then
/// validates each element.
pub fn check_opt_seq_with_len<T: Validated>(report: &mut Report, path: String, o: &Option<Vec<T>>)
    ensures
        final(report)@ == old(report)@ + opt_seq_with_len_vio(path@, *o),
{
    match o {
        Some(v) => {
            let ghost base = report@;
            check_seq_min_len(report, path.clone(), v.len());
            check_seq(report, path.as_str(), v);
            proof {
                vstd::seq_lib::lemma_concat_associative(
                    base,
                    seq_min_len_vio(path@, v@.len()),
                    seq_vio(path@, v@),
                );
            }
        },
        None => {
            proof {
                assert(report@ =~= report@ + opt_seq_with_len_vio(path@, *o));
            }
        },
    }
}

/// The violations of an optional sequence field that, when present,
/// must not be empty.
pub open spec fn opt_vec_min_len_vio<T>(path: Seq<char>, o: Option<Vec<T>>) -> Seq<
    (Seq<char>, Seq<char>),
> {
    match o {
        Some(v) => seq_min_len_vio(path, v@.len()),
        None => Seq::<(Seq<char>, Seq<char>)>::empty(),
    }
}

/// Records a length-at-least-one check of an optional sequence field.
pub fn check_opt_vec_min_len<T>(report: &mut Report, path: String, o: &Option<Vec<T>>)
    ensures
        final(report)@ == old(report)@ + opt_vec_min_len_vio(path@, *o),
{
    match o {
        Some(v) => {
            check_seq_min_len(report, path, v.len());
        },
        None => {
            proof {
                assert(report@ =~= report@ + opt_vec_min_len_vio(path@, *o));
            }
        },
    }
}

/// The message reported for a field that must not be empty.
pub open spec fn msg_min_len() -> Seq<char> {
    "length must be >= 1"@
}

/// The violations of a string field that must not be empty.
pub open spec fn min_len_vio(path: Seq<char>, s: Seq<char>) -> Seq<(Seq<char>, Seq<char>)> {
    if s.len() == 0 {
        seq![(path, msg_min_len())]
    } else {
        Seq::<(Seq<char>, Seq<char>)>::empty()
    }
}

/// The violations of an optional string field that, when present, must
/// not be empty.
pub open spec fn opt_min_len_vio(path: Seq<char>, o: Option<String>) -> Seq<
    (Seq<char>, Seq<char>),
> {
    match o {
        Some(s) => min_len_vio(path, s@),
        None => Seq::<(Seq<char>, Seq<char>)>::empty(),
    }
}

/// The violations of a sequence field that must not be empty.
pub open spec fn seq_min_len_vio(path: Seq<char>, len: nat) -> Seq<(Seq<char>, Seq<char>)> {
    if len == 0 {
        seq![(path, msg_min_len())]
    } else {
        Seq::<(Seq<char>, Seq<char>)>::empty()
    }
}

/// Records a length-at-least-one check of a string field.
pub fn check_min_len(report: &mut Report, path: String, value: &str)
    ensures
        final(report)@ == old(report)@ + min_len_vio(path@, value@),
{
    if value.unicode_len() == 0 {
        report.push(path, "length must be >= 1".to_owned());
    } else {
        proof {
            assert(report@ =~= report@ + min_len_vio(path@, value@));
        }
    }
}

/// Records a length-at-least-one check of an optional string field.
pub fn check_opt_min_len(report: &mut Report, path: String, value: &Option<String>)
    ensures
        final(report)@ == old(report)@ + opt_min_len_vio(path@, *value),
{
    match value {
        Some(s) => check_min_len(report, path, s.as_str()),
        None => {
            proof {
                assert(report@ =~= report@ + opt_min_len_vio(path@, *value));
            }
        },
    }
}

/// Records a length-at-least-one check of a sequence field.
pub fn check_seq_min_len(report: &mut Report, path: String, len: usize)
    ensures
        final(report)@ == old(report)@ + seq_min_len_vio(path@, len as nat),
{
    if len == 0 {
        report.push(path, "length must be >= 1".to_owned());
    } else {
        proof {
            assert(report@ =~= report@ + seq_min_len_vio(path@, len as nat));
        }
    }
}

/// The message reported for a string that does not parse as a URL.
pub open spec fn msg_not_url() -> Seq<char> {
    "not a valid url"@
}

/// The violations of a string field that must parse as a URL.
pub open spec fn url_vio(path: Seq<char>, s: Seq<char>) -> Seq<(Seq<char>, Seq<char>)> {
    if uri_parts(s) is None {
        seq![(path, msg_not_url())]
    } else {
        Seq::<(Seq<char>, Seq<char>)>::empty()
    }
}

/// URL-validity: the string must parse as an absolute URI.
pub fn must_be_url(value: &str) -> (r: Result<(), String>)
    ensures
        r is Ok <==> uri_parts(value@) is Some,
        r matches Err(m) ==> m@ == msg_not_url(),
{
    match Uri::parse(value) {
        Ok(_) => Ok(()),
        Err(_) => Err("not a valid url".to_owned()),
    }
}

/// Records a URL-validity check of a string field.
pub fn check_url(report: &mut Report, path: String, value: &str)
    ensures
        final(report)@ == old(report)@ + url_vio(path@, value@),
{
    let ghost p = path@;
    let outcome = must_be_url(value);
    proof {
        assert(outcome_vio(p, outcome) =~= url_vio(p, value@));
    }
    apply_rule(report, path, outcome);
}

/// The message reported when neither of two alternative fields is set.
pub open spec fn msg_one_of_two(name_one: Seq<char>, name_two: Seq<char>) -> Seq<char> {
    "at least one of `"@ + name_one + "` or `"@ + name_two + "` must be set"@
}

/// At-least-one-of-two-fields-set: fails, naming both fields, unless at
/// least one of the two candidate fields is present.
pub fn one_must_be_set<T, U>(
    field_name_one: &str,
    field_name_two: &str,
    field_one: &Option<T>,
    field_two: &Option<U>,
) -> (r: Result<(), String>)
    ensures
        r is Ok <==> (field_one is Some || field_two is Some),
        r matches Err(m) ==> m@ == msg_one_of_two(field_name_one@, field_name_two@),
{
    if field_one.is_none() && field_two.is_none() {
        Err(
            "at least one of `".to_owned()
                .concat(field_name_one)
                .concat("` or `")
                .concat(field_name_two)
                .concat("` must be set"),
        )
    } else {
        Ok(())
    }
}

/// The message reported when none of three alternative fields is set.
pub open spec fn msg_one_of_three(
    name_one: Seq<char>,
    name_two: Seq<char>,
    name_three: Seq<char>,
) -> Seq<char> {
    "at least one of `"@ + name_one + "`, `"@ + name_two + "` or `"@ + name_three
        + "` must be set"@
}

/// At-least-one-of-three-fields-set: fails, naming all three fields,
/// unless at least one of the three candidate fields is present.
pub fn one_of_three_must_be_set<T, U, V>(
    field_name_one: &str,
    field_name_two: &str,
    field_name_three: &str,
    field_one: &Option<T>,
    field_two: &Option<U>,
    field_three: &Option<V>,
) -> (r: Result<(), String>)
    ensures
        r is Ok <==> (field_one is Some || field_two is Some || field_three is Some),
        r matches Err(m) ==> m@ == msg_one_of_three(
            field_name_one@,
            field_name_two@,
            field_name_three@,
        ),
{
    if field_one.is_none() && field_two.is_none() && field_three.is_none() {
        Err(
            "at least one of `".to_owned()
                .concat(field_name_one)
                .concat("`, `")
                .concat(field_name_two)
                .concat("` or `")
                .concat(field_name_three)
                .concat("` must be set"),
        )
    } else {
        Ok(())
    }
}

/// Whether some earlier element of `vs` equals `vs[j]`.
pub open spec fn has_earlier_equal(vs: Seq<String>, j: int) -> bool {
    exists|i: int| 0 <= i < j && #[trigger] vs[i]@ == vs[j]@
}

/// Whether `vs[j]` is the first duplicate in scan order: it repeats an
/// earlier element, and no element before it does.
pub open spec fn is_first_duplicate(vs: Seq<String>, j: int) -> bool {
    &&& 0 <= j < vs.len()
    &&& has_earlier_equal(vs, j)
    &&& forall|k: int| 0 <= k < j ==> !has_earlier_equal(vs, k)
}

/// The message reported for a duplicate value.
pub open spec fn msg_duplicate(value: Seq<char>) -> Seq<char> {
    "values must be unique, but found duplicate item `"@ + value + "`"@
}

/// Uniqueness: fails on the first duplicate found in scan order, echoing
/// the duplicate's value; duplicates are detected by equality.
pub fn unique_values(values: &Vec<String>) -> (r: Result<(), String>)
    ensures
        r is Ok <==> (forall|j: int| 0 <= j < values@.len() ==> !has_earlier_equal(values@, j)),
        r matches Err(m) ==> exists|j: int|
            #[trigger] is_first_duplicate(values@, j) && m@ == msg_duplicate(values@[j]@),
{
    let n = values.len();
    let mut j: usize = 0;
    while j < n
        invariant
            n == values@.len(),
            0 <= j <= n,
            forall|k: int| 0 <= k < j ==> !has_earlier_equal(values@, k),
        decreases n - j,
    {
        let mut i: usize = 0;
        while i < j
            invariant
                n == values@.len(),
                0 <= i <= j < n,
                forall|k: int| 0 <= k < j ==> !has_earlier_equal(values@, k),
                forall|k: int| 0 <= k < i ==> values@[k]@ != values@[j as int]@,
            decreases j - i,
        {
            if values[i] == values[j] {
                let m = "values must be unique, but found duplicate item `".to_owned()
                    .concat(values[j].as_str())
                    .concat("`");
                proof {
                    assert(is_first_duplicate(values@, j as int));
                }
                return Err(m);
            }
            i += 1;
        }
        j += 1;
    }
    Ok(())
}

/// The message reported when a string fails to parse as a number.
pub open spec fn msg_not_a_number(value: Seq<char>) -> Seq<char> {
    "expected a number, found '"@ + value + "'"@
}

/// String-is-a-number: an empty string is treated as a valid zero
/// sentinel; any other string must parse as an integer, and the literal
/// invalid string is echoed in the failure message.
pub fn must_be_a_number(value: &str) -> (r: Result<(), String>)
    ensures
        r is Ok <==> (value@.len() == 0 || parsed_i64(value@) is Some),
        r matches Err(m) ==> m@ == msg_not_a_number(value@),
{
    if value.unicode_len() == 0 {
        return Ok(());
    }
    match parse_i64(value) {
        Some(_) => Ok(()),
        None => Err("expected a number, found '".to_owned().concat(value).concat("'")),
    }
}

/// The message reported for a negative number.
pub open spec fn msg_negative(value: int) -> Seq<char> {
    "expected number zero or above, got "@ + rendered_i64(value)
}

/// Non-negative: the value must be at least zero; the failure message
/// echoes the rendered value.
pub fn must_be_zero_or_greater(value: &i64) -> (r: Result<(), String>)
    ensures
        r is Ok <==> *value >= 0,
        r matches Err(m) ==> m@ == msg_negative(*value as int),
{
    if *value >= 0 {
        Ok(())
    } else {
        Err("expected number zero or above, got ".to_owned().concat(render_i64(*value).as_str()))
    }
}

/// The message reported when a value differs from the expected constant.
pub open spec fn msg_must_be(expected: bool, got: bool) -> Seq<char> {
    "expected '"@ + rendered_bool(expected) + "', got '"@ + rendered_bool(got) + "'"@
}

/// Exact-match: the value must equal a single expected constant.
pub fn must_be(expected: bool, value: &bool) -> (r: Result<(), String>)
    ensures
        r is Ok <==> *value == expected,
        r matches Err(m) ==> m@ == msg_must_be(expected, *value),
{
    if *value == expected {
        Ok(())
    } else {
        Err(
            "expected '".to_owned()
                .concat(render_bool(expected).as_str())
                .concat("', got '")
                .concat(render_bool(*value).as_str())
                .concat("'"),
        )
    }
}

/// The message reported when a number is not the required multiple,
/// echoing the parsed numeric value.
pub open spec fn msg_not_multiple(value: int, multiple: int) -> Seq<char> {
    "expected "@ + rendered_i64(value) + " to be a multiple of "@ + rendered_i64(multiple)
}

/// The message reported when the multiple-of rule cannot read a number:
/// the raw text, then the conversion failure's rendering.
pub open spec fn msg_invalid_number(value: Seq<char>) -> Seq<char> {
    "expected valid number, got '"@ + value + "': invalid number: "@ + value
}

/// Multiple-of: converts the numeric-or-numeric-string value to its
/// numeric form and fails unless the remainder by `multiple` is exactly
/// zero; a value that denotes no number fails with its text echoed.
pub fn must_be_multiple_of(multiple: i64, value: &NonNegativeNumber) -> (r: Result<(), String>)
    requires
        0 < multiple,
    ensures
        match value.numeric_value() {
            Some(v) => {
                &&& (r is Ok <==> v % (multiple as int) == 0)
                &&& (r matches Err(m) ==> m@ == msg_not_multiple(v, multiple as int))
            },
            None => r matches Err(m) && m@ == msg_invalid_number(value.rendered()),
        },
{
    let parsed: Option<i64> = match value {
        NonNegativeNumber::Number(n) => Some(*n),
        NonNegativeNumber::Text(s) => parse_i64(s.as_str()),
    };
    match parsed {
        Some(v) => {
            let valid = ValidatedNonNegativeNumber(v);
            let vv: i128 = valid.value() as i128;
            let mag: i128 = if vv < 0 {
                -vv
            } else {
                vv
            };
            let rem: i128 = mag % (multiple as i128);
            proof {
                lemma_mod_zero_symmetric(v as int, multiple as int);
            }
            if rem == 0 {
                Ok(())
            } else {
                Err(
                    "expected ".to_owned()
                        .concat(render_i64(v).as_str())
                        .concat(" to be a multiple of ")
                        .concat(render_i64(multiple).as_str()),
                )
            }
        },
        None => {
            let text: String = match value {
                NonNegativeNumber::Number(n) => render_i64(*n),
                NonNegativeNumber::Text(s) => s.clone(),
            };
            Err(
                "expected valid number, got '".to_owned()
                    .concat(text.as_str())
                    .concat("': invalid number: ")
                    .concat(text.as_str()),
            )
        },
    }
}

/// A number divides zero-symmetrically: a value and its negation leave
/// remainder zero for exactly the same divisors.
proof fn lemma_mod_zero_symmetric(v: int, m: int)
    requires
        0 < m,
    ensures
        (-v) % m == 0 <==> v % m == 0,
{
    vstd::arithmetic::div_mod::lemma_fundamental_div_mod(v, m);
    vstd::arithmetic::div_mod::lemma_fundamental_div_mod(-v, m);
    if v % m == 0 {
        vstd::arithmetic::mul::lemma_mul_unary_negation(m, v / m);
        assert(-v == m * (-(v / m)));
        vstd::arithmetic::div_mod::lemma_mod_multiples_basic(-(v / m), m);
    }
    if (-v) % m == 0 {
        vstd::arithmetic::mul::lemma_mul_unary_negation(m, (-v) / m);
        assert(v == m * (-((-v) / m)));
        vstd::arithmetic::div_mod::lemma_mod_multiples_basic(-((-v) / m), m);
    }
}

/// Optional multiple-of: an absent value is automatically valid; a
/// present value is checked as by [`must_be_multiple_of`].
pub fn must_be_optional_multiple_of(multiple: i64, value: &Option<NonNegativeNumber>) -> (r:
    Result<(), String>)
    requires
        0 < multiple,
    ensures
        match value {
            Some(v) => match v.numeric_value() {
                Some(n) => {
                    &&& (r is Ok <==> n % (multiple as int) == 0)
                    &&& (r matches Err(m) ==> m@ == msg_not_multiple(n, multiple as int))
                },
                None => r matches Err(m) && m@ == msg_invalid_number(v.rendered()),
            },
            None => r is Ok,
        },
{
    match value {
        Some(v) => must_be_multiple_of(multiple, v),
        None => Ok(()),
    }
}

/// Conditional transition/end requirement: a state not used for
/// compensation must carry a transition or an end definition. The
/// reported message is empty, as the rule's position already locates it.
pub fn if_not_used_for_compensation_then_must_have_transition_or_end<T, U>(
    transition: &Option<T>,
    end: &Option<U>,
    used_for_compensation: bool,
) -> (r: Result<(), String>)
    ensures
        r is Ok <==> (used_for_compensation || transition is Some || end is Some),
        r matches Err(m) ==> m@ == Seq::<char>::empty(),
{
    if !used_for_compensation && transition.is_none() && end.is_none() {
        let m = "".to_owned();
        proof {
            reveal_strlit("");
            assert(m@ =~= Seq::<char>::empty());
        }
        Err(m)
    } else {
        Ok(())
    }
}

/// The violations of a pair of alternative fields of which at least one
/// must be set.
pub open spec fn one_of_two_vio(
    path: Seq<char>,
    name_one: Seq<char>,
    name_two: Seq<char>,
    set_one: bool,
    set_two: bool,
) -> Seq<(Seq<char>, Seq<char>)> {
    if !set_one && !set_two {
        seq![(path, msg_one_of_two(name_one, name_two))]
    } else {
        Seq::<(Seq<char>, Seq<char>)>::empty()
    }
}

/// Records an at-least-one-of-two-fields check.
pub fn check_one_of_two<T, U>(
    report: &mut Report,
    path: String,
    name_one: &str,
    name_two: &str,
    field_one: &Option<T>,
    field_two: &Option<U>,
)
    ensures
        final(report)@ == old(report)@ + one_of_two_vio(
            path@,
            name_one@,
            name_two@,
            field_one is Some,
            field_two is Some,
        ),
{
    let ghost p = path@;
    let outcome = one_must_be_set(name_one, name_two, field_one, field_two);
    proof {
        assert(outcome_vio(p, outcome) =~= one_of_two_vio(
            p,
            name_one@,
            name_two@,
            field_one is Some,
            field_two is Some,
        ));
    }
    apply_rule(report, path, outcome);
}

/// The violations of a triple of alternative fields of which at least
/// one must be set.
pub open spec fn one_of_three_vio(
    path: Seq<char>,
    name_one: Seq<char>,
    name_two: Seq<char>,
    name_three: Seq<char>,
    set_one: bool,
    set_two: bool,
    set_three: bool,
) -> Seq<(Seq<char>, Seq<char>)> {
    if !set_one && !set_two && !set_three {
        seq![(path, msg_one_of_three(name_one, name_two, name_three))]
    } else {
        Seq::<(Seq<char>, Seq<char>)>::empty()
    }
}

/// Records an at-least-one-of-three-fields check.
pub fn check_one_of_three<T, U, V>(
    report: &mut Report,
    path: String,
    name_one: &str,
    name_two: &str,
    name_three: &str,
    field_one: &Option<T>,
    field_two: &Option<U>,
    field_three: &Option<V>,
)
    ensures
        final(report)@ == old(report)@ + one_of_three_vio(
            path@,
            name_one@,
            name_two@,
            name_three@,
            field_one is Some,
            field_two is Some,
            field_three is Some,
        ),
{
    let ghost p = path@;
    let outcome = one_of_three_must_be_set(
        name_one,
        name_two,
        name_three,
        field_one,
        field_two,
        field_three,
    );
    proof {
        assert(outcome_vio(p, outcome) =~= one_of_three_vio(
            p,
            name_one@,
            name_two@,
            name_three@,
            field_one is Some,
            field_two is Some,
            field_three is Some,
        ));
    }
    apply_rule(report, path, outcome);
}

/// The index of the first duplicate in scan order.
pub open spec fn first_dup_index(vs: Seq<String>) -> int {
    choose|j: int| is_first_duplicate(vs, j)
}

/// At most one index can be the first duplicate.
pub proof fn lemma_first_dup_unique(vs: Seq<String>, j1: int, j2: int)
    requires
        is_first_duplicate(vs, j1),
        is_first_duplicate(vs, j2),
    ensures
        j1 == j2,
{
    if j1 < j2 {
        assert(!has_earlier_equal(vs, j1));
    }
    if j2 < j1 {
        assert(!has_earlier_equal(vs, j2));
    }
}

/// The violations of a sequence field whose values must be unique: one
/// entry echoing the first duplicate, when there is any.
pub open spec fn unique_vio(path: Seq<char>, vs: Seq<String>) -> Seq<(Seq<char>, Seq<char>)> {
    if exists|j: int| is_first_duplicate(vs, j) {
        seq![(path, msg_duplicate(vs[first_dup_index(vs)]@))]
    } else {
        Seq::<(Seq<char>, Seq<char>)>::empty()
    }
}

/// Records a uniqueness check of a sequence of values.
pub fn check_unique(report: &mut Report, path: String, values: &Vec<String>)
    ensures
        final(report)@ == old(report)@ + unique_vio(path@, values@),
{
    let ghost p = path@;
    let outcome = unique_values(values);
    proof {
        if outcome is Ok {
            assert(forall|j: int| !is_first_duplicate(values@, j));
        } else {
            let m = outcome->Err_0;
            let j = choose|j: int|
                #[trigger] is_first_duplicate(values@, j) && m@ == msg_duplicate(values@[j]@);
            lemma_first_dup_unique(values@, j, first_dup_index(values@));
        }
        assert(outcome_vio(p, outcome) =~= unique_vio(p, values@));
    }
    apply_rule(report, path, outcome);
}

/// The violations of a string field that must denote a number when it is
/// not empty.
pub open spec fn not_number_vio(path: Seq<char>, s: Seq<char>) -> Seq<(Seq<char>, Seq<char>)> {
    if s.len() > 0 && parsed_i64(s) is None {
        seq![(path, msg_not_a_number(s))]
    } else {
        Seq::<(Seq<char>, Seq<char>)>::empty()
    }
}

/// Records a string-is-a-number check.
pub fn check_is_number(report: &mut Report, path: String, value: &str)
    ensures
        final(report)@ == old(report)@ + not_number_vio(path@, value@),
{
    let ghost p = path@;
    let outcome = must_be_a_number(value);
    proof {
        assert(outcome_vio(p, outcome) =~= not_number_vio(p, value@));
    }
    apply_rule(report, path, outcome);
}

/// The violations of a numeric field that must not be negative.
pub open spec fn negative_vio(path: Seq<char>, v: int) -> Seq<(Seq<char>, Seq<char>)> {
    if v < 0 {
        seq![(path, msg_negative(v))]
    } else {
        Seq::<(Seq<char>, Seq<char>)>::empty()
    }
}

/// Records a non-negativity check.
pub fn check_non_negative(report: &mut Report, path: String, value: &i64)
    ensures
        final(report)@ == old(report)@ + negative_vio(path@, *value as int),
{
    let ghost p = path@;
    let outcome = must_be_zero_or_greater(value);
    proof {
        assert(outcome_vio(p, outcome) =~= negative_vio(p, *value as int));
    }
    apply_rule(report, path, outcome);
}

/// The violations of a boolean field that is only valid as `true`.
pub open spec fn must_be_true_vio(path: Seq<char>, b: bool) -> Seq<(Seq<char>, Seq<char>)> {
    if !b {
        seq![(path, msg_must_be(true, b))]
    } else {
        Seq::<(Seq<char>, Seq<char>)>::empty()
    }
}

/// Records an exact-match-with-`true` check.
pub fn check_must_be_true(report: &mut Report, path: String, value: &bool)
    ensures
        final(report)@ == old(report)@ + must_be_true_vio(path@, *value),
{
    let ghost p = path@;
    let outcome = must_be(true, value);
    proof {
        assert(outcome_vio(p, outcome) =~= must_be_true_vio(p, *value));
    }
    apply_rule(report, path, outcome);
}

/// The violations of a numeric-or-numeric-string field that must be a
/// multiple of a constant.
pub open spec fn multiple_of_vio(path: Seq<char>, multiple: int, v: NonNegativeNumber) -> Seq<
    (Seq<char>, Seq<char>),
> {
    match v.numeric_value() {
        Some(n) => if n % multiple != 0 {
            seq![(path, msg_not_multiple(n, multiple))]
        } else {
            Seq::<(Seq<char>, Seq<char>)>::empty()
        },
        None => seq![(path, msg_invalid_number(v.rendered()))],
    }
}

/// The violations of an optional multiple-of field: absent is valid.
pub open spec fn opt_multiple_of_vio(
    path: Seq<char>,
    multiple: int,
    o: Option<NonNegativeNumber>,
) -> Seq<(Seq<char>, Seq<char>)> {
    match o {
        Some(v) => multiple_of_vio(path, multiple, v),
        None => Seq::<(Seq<char>, Seq<char>)>::empty(),
    }
}

/// Records an optional multiple-of check.
pub fn check_opt_multiple_of(
    report: &mut Report,
    path: String,
    multiple: i64,
    value: &Option<NonNegativeNumber>,
)
    requires
        0 < multiple,
    ensures
        final(report)@ == old(report)@ + opt_multiple_of_vio(path@, multiple as int, *value),
{
    let ghost p = path@;
    let outcome = must_be_optional_multiple_of(multiple, value);
    proof {
        assert(outcome_vio(p, outcome) =~= opt_multiple_of_vio(p, multiple as int, *value));
    }
    apply_rule(report, path, outcome);
}

/// The violations of a compensation flag: a state not used for
/// compensation must carry a transition or an end definition.
pub open spec fn compensation_vio(
    path: Seq<char>,
    used_for_compensation: bool,
    has_transition: bool,
    has_end: bool,
) -> Seq<(Seq<char>, Seq<char>)> {
    if !used_for_compensation && !has_transition && !has_end {
        seq![(path, Seq::<char>::empty())]
    } else {
        Seq::<(Seq<char>, Seq<char>)>::empty()
    }
}

/// Records a compensation transition/end check.
pub fn check_compensation<T, U>(
    report: &mut Report,
    path: String,
    transition: &Option<T>,
    end: &Option<U>,
    used_for_compensation: bool,
)
    ensures
        final(report)@ == old(report)@ + compensation_vio(
            path@,
            used_for_compensation,
            transition is Some,
            end is Some,
        ),
{
    let ghost p = path@;
    let outcome = if_not_used_for_compensation_then_must_have_transition_or_end(
        transition,
        end,
        used_for_compensation,
    );
    proof {
        assert(outcome_vio(p, outcome) =~= compensation_vio(
            p,
            used_for_compensation,
            transition is Some,
            end is Some,
        ));
    }
    apply_rule(report, path, outcome);
}

/// The violations of an event source field: mandatory exactly for
/// consumed events.
pub open spec fn consumed_source_vio(path: Seq<char>, kind: EventKind, has_source: bool) -> Seq<
    (Seq<char>, Seq<char>),
> {
    if kind == EventKind::Consumed && !has_source {
        seq![(path, msg_source_mandatory())]
    } else {
        Seq::<(Seq<char>, Seq<char>)>::empty()
    }
}

/// Records a source-mandatory-for-consumed-events check.
pub fn check_consumed_source(
    report: &mut Report,
    path: String,
    kind: EventKind,
    source: &Option<String>,
)
    ensures
        final(report)@ == old(report)@ + consumed_source_vio(path@, kind, source is Some),
{
    let ghost p = path@;
    let outcome = mandatory_for_consumed_events(kind, source);
    proof {
        assert(outcome_vio(p, outcome) =~= consumed_source_vio(p, kind, source is Some));
    }
    apply_rule(report, path, outcome);
}

/// The message reported for a consumed event without a source.
pub open spec fn msg_source_mandatory() -> Seq<char> {
    "event source is mandatory for consumed events"@
}

/// Conditional-mandatory-by-discriminant: an event's source field is
/// mandatory exactly when the event's kind is consumed.
pub fn mandatory_for_consumed_events(kind: EventKind, source: &Option<String>) -> (r: Result<
    (),
    String,
>)
    ensures
        r is Ok <==> !(kind == EventKind::Consumed && source is None),
        r matches Err(m) ==> m@ == msg_source_mandatory(),
{
    if kind == EventKind::Consumed && source.is_none() {
        Err("event source is mandatory for consumed events".to_owned())
    } else {
        Ok(())
    }
}

} // verus!
