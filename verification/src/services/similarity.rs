//! The similarity of two texts and of two persons.
//!
//! Every result is an exact fraction of whole numbers. A text similarity is a
//! count of parts of which [`BLEND_WHOLE`] make up one; the three measures
//! that are blended for two differing texts are given by the caller, each as
//! a [`Proportion`].

use vstd::prelude::*;
use crate::models::person::Person;
use crate::models::person::PersonView;
use crate::services::proportion::Proportion;
use crate::services::proportion::WHOLE;
use crate::services::weights::Field;
use crate::services::weights::FieldWeights;
use crate::services::weights::standard_weights;

verus! {

/// The number of parts that make up a text similarity of one: three times
/// [`WHOLE`], so that the mean of three proportions is a whole number of
/// parts.
pub const BLEND_WHOLE: u64 = 27_021_597_764_222_976;

/// A fraction of two whole numbers, `num / den`.
#[derive(Clone, Copy, Debug, PartialEq, Eq)]
pub struct Ratio {
    pub num: u128,
    pub den: u128,
}

/// The three measures of how alike two texts are, each between zero and one.
#[derive(Clone, Copy, Debug)]
pub struct StringMetrics {
    pub jaro_winkler: Proportion,
    pub damerau_levenshtein: Proportion,
    pub sorensen_dice: Proportion,
}

impl StringMetrics {
    /// No measure exceeds one.
    pub open spec fn valid(self) -> bool {
        &&& self.jaro_winkler@ <= WHOLE
        &&& self.damerau_levenshtein@ <= WHOLE
        &&& self.sorensen_dice@ <= WHOLE
    }

    /// The three measures added up: three times their mean.
    pub open spec fn total(self) -> nat {
        self.jaro_winkler@ + self.damerau_levenshtein@ + self.sorensen_dice@
    }
}

/// The measures for each of the four text fields of a pair of persons. Those
/// of a field that is absent on either side, empty on either side, or equal
/// on both are not looked at.
#[derive(Clone, Copy, Debug)]
pub struct PersonMetrics {
    pub given_name: StringMetrics,
    pub family_name: StringMetrics,
    pub primary_phone: StringMetrics,
    pub primary_email: StringMetrics,
}

impl PersonMetrics {
    /// The measures of every field are valid.
    pub open spec fn valid(self) -> bool {
        &&& self.given_name.valid()
        &&& self.family_name.valid()
        &&& self.primary_phone.valid()
        &&& self.primary_email.valid()
    }
}

/// How two texts stand to each other before any measure is taken.
#[derive(Clone, Copy, Debug, PartialEq, Eq, Structural)]
pub enum StringMatch {
    /// At least one of the two is empty.
    Blank,
    /// Neither is empty and they are the same text.
    Identical,
    /// Neither is empty and they differ.
    Different,
}

/// How `a` and `b` stand to each other.
pub open spec fn string_match(a: Seq<char>, b: Seq<char>) -> StringMatch {
    if a.len() == 0 || b.len() == 0 {
        StringMatch::Blank
    } else if a == b {
        StringMatch::Identical
    } else {
        StringMatch::Different
    }
}

/// The similarity of `a` and `b` in parts of [`BLEND_WHOLE`]: nothing where
/// either is empty, one where they are equal, and else the mean of the three
/// measures.
pub open spec fn string_similarity(a: Seq<char>, b: Seq<char>, metrics: StringMetrics) -> nat {
    match string_match(a, b) {
        StringMatch::Blank => 0,
        StringMatch::Identical => BLEND_WHOLE as nat,
        StringMatch::Different => metrics.total(),
    }
}

/// `std`'s equality of string slices: the two hold the same characters.
pub assume_specification[ <str as PartialEq>::eq ](a: &str, b: &str) -> (same: bool)
    ensures
        same == (a@ == b@),
;

/// Tells how two texts stand to each other.
pub fn compare_strings(a: &str, b: &str) -> (m: StringMatch)
    ensures
        m == string_match(a@, b@),
{
    if a.is_empty() || b.is_empty() {
        StringMatch::Blank
    } else if *a == *b {
        StringMatch::Identical
    } else {
        StringMatch::Different
    }
}

/// Blends the three measures with equal weight: their mean, as the fraction
/// of their sum over [`BLEND_WHOLE`].
pub fn blend(metrics: &StringMetrics) -> (r: Ratio)
    ensures
        metrics.valid(),
        r.num == metrics.total(),
        r.den == BLEND_WHOLE,
        r.num <= r.den,
{
    let j: u64 = metrics.jaro_winkler.parts();
    let d: u64 = metrics.damerau_levenshtein.parts();
    let s: u64 = metrics.sorensen_dice.parts();
    Ratio { num: j as u128 + d as u128 + s as u128, den: BLEND_WHOLE as u128 }
}

/// The similarity of the two texts of `input`, given the three measures of
/// that pair.
///
/// Where either text is empty the result is zero, where the two are equal it
/// is one, and otherwise it is the mean of the three measures. The comparison
/// is exact, character by character: capital and small letters differ.
pub fn similarity_of_strings(input: (&str, &str), metrics: &StringMetrics) -> (r: Ratio)
    ensures
        r.num == string_similarity(input.0@, input.1@, *metrics),
        r.den == BLEND_WHOLE,
        r.num <= r.den,
        input.0@.len() == 0 || input.1@.len() == 0 ==> r.num == 0,
        input.0@.len() > 0 && input.0@ == input.1@ ==> r.num == r.den,
{
    let (a, b) = input;
    match compare_strings(a, b) {
        StringMatch::Blank => Ratio { num: 0, den: BLEND_WHOLE as u128 },
        StringMatch::Identical => Ratio { num: BLEND_WHOLE as u128, den: BLEND_WHOLE as u128 },
        StringMatch::Different => blend(metrics),
    }
}

/// The similarity of a text field in parts of [`BLEND_WHOLE`], where both
/// sides hold it.
pub open spec fn text_similarity(
    a: Option<Seq<char>>,
    b: Option<Seq<char>>,
    metrics: StringMetrics,
) -> Option<nat> {
    if a is Some && b is Some {
        Some(string_similarity(a->0, b->0, metrics))
    } else {
        None
    }
}

/// The similarity of a number field in parts of [`BLEND_WHOLE`], where both
/// sides hold it: one where the numbers are equal, else nothing.
pub open spec fn number_similarity(a: Option<int>, b: Option<int>) -> Option<nat> {
    if a is Some && b is Some {
        Some(
            if a->0 == b->0 {
                BLEND_WHOLE as nat
            } else {
                0
            },
        )
    } else {
        None
    }
}

/// The similarity of `field` between `a` and `b` in parts of
/// [`BLEND_WHOLE`], or `None` where either side lacks the field.
pub open spec fn field_similarity(
    field: Field,
    a: PersonView,
    b: PersonView,
    metrics: PersonMetrics,
) -> Option<nat> {
    match field {
        Field::GivenName => text_similarity(a.given_name, b.given_name, metrics.given_name),
        Field::FamilyName => text_similarity(a.family_name, b.family_name, metrics.family_name),
        Field::BirthDateYear => number_similarity(a.birth_date_year, b.birth_date_year),
        Field::BirthDateMonth => number_similarity(a.birth_date_month, b.birth_date_month),
        Field::BirthDateMonthDay => number_similarity(
            a.birth_date_month_day,
            b.birth_date_month_day,
        ),
        Field::PrimaryPhone => text_similarity(
            a.primary_phone,
            b.primary_phone,
            metrics.primary_phone,
        ),
        Field::PrimaryEmail => text_similarity(
            a.primary_email,
            b.primary_email,
            metrics.primary_email,
        ),
    }
}

/// Whether both `a` and `b` hold `field`.
pub open spec fn comparable(field: Field, a: PersonView, b: PersonView) -> bool {
    match field {
        Field::GivenName => a.given_name is Some && b.given_name is Some,
        Field::FamilyName => a.family_name is Some && b.family_name is Some,
        Field::BirthDateYear => a.birth_date_year is Some && b.birth_date_year is Some,
        Field::BirthDateMonth => a.birth_date_month is Some && b.birth_date_month is Some,
        Field::BirthDateMonthDay => a.birth_date_month_day is Some && b.birth_date_month_day
            is Some,
        Field::PrimaryPhone => a.primary_phone is Some && b.primary_phone is Some,
        Field::PrimaryEmail => a.primary_email is Some && b.primary_email is Some,
    }
}

/// What a field adds to the applicable maximum: its weight where both sides
/// hold it, else nothing.
pub open spec fn applicable_share(weight: nat, present: bool) -> nat {
    if present {
        weight
    } else {
        0
    }
}

/// What a field adds to the accumulated score: its weight times its
/// similarity where it was compared, else nothing.
pub open spec fn accumulated_share(weight: nat, similarity: Option<nat>) -> nat {
    match similarity {
        Some(parts) => weight * parts,
        None => 0,
    }
}

/// The applicable maximum: the weights of the fields that both `a` and `b`
/// hold, added up.
pub open spec fn applicable_maximum(weights: FieldWeights, a: PersonView, b: PersonView) -> nat {
    applicable_share(weights.weight(Field::GivenName), comparable(Field::GivenName, a, b))
        + applicable_share(weights.weight(Field::FamilyName), comparable(Field::FamilyName, a, b))
        + applicable_share(
        weights.weight(Field::BirthDateYear),
        comparable(Field::BirthDateYear, a, b),
    ) + applicable_share(
        weights.weight(Field::BirthDateMonth),
        comparable(Field::BirthDateMonth, a, b),
    ) + applicable_share(
        weights.weight(Field::BirthDateMonthDay),
        comparable(Field::BirthDateMonthDay, a, b),
    ) + applicable_share(
        weights.weight(Field::PrimaryPhone),
        comparable(Field::PrimaryPhone, a, b),
    ) + applicable_share(
        weights.weight(Field::PrimaryEmail),
        comparable(Field::PrimaryEmail, a, b),
    )
}

/// The accumulated score: over the fields that both `a` and `b` hold, the
/// weight times the similarity of the field, added up. Its unit is a weight
/// unit divided by [`BLEND_WHOLE`].
pub open spec fn accumulated(
    weights: FieldWeights,
    a: PersonView,
    b: PersonView,
    metrics: PersonMetrics,
) -> nat {
    accumulated_share(
        weights.weight(Field::GivenName),
        field_similarity(Field::GivenName, a, b, metrics),
    ) + accumulated_share(
        weights.weight(Field::FamilyName),
        field_similarity(Field::FamilyName, a, b, metrics),
    ) + accumulated_share(
        weights.weight(Field::BirthDateYear),
        field_similarity(Field::BirthDateYear, a, b, metrics),
    ) + accumulated_share(
        weights.weight(Field::BirthDateMonth),
        field_similarity(Field::BirthDateMonth, a, b, metrics),
    ) + accumulated_share(
        weights.weight(Field::BirthDateMonthDay),
        field_similarity(Field::BirthDateMonthDay, a, b, metrics),
    ) + accumulated_share(
        weights.weight(Field::PrimaryPhone),
        field_similarity(Field::PrimaryPhone, a, b, metrics),
    ) + accumulated_share(
        weights.weight(Field::PrimaryEmail),
        field_similarity(Field::PrimaryEmail, a, b, metrics),
    )
}

/// The numerator of the similarity of two persons: twice the accumulated
/// score.
pub open spec fn score_num(
    weights: FieldWeights,
    a: PersonView,
    b: PersonView,
    metrics: PersonMetrics,
) -> nat {
    2 * accumulated(weights, a, b, metrics)
}

/// The denominator of the similarity of two persons: the applicable maximum
/// plus the global maximum, in the unit of the accumulated score. The
/// fraction of the two is the accumulated score divided by the mean of the
/// applicable and the global maximum.
pub open spec fn score_den(
    weights: FieldWeights,
    a: PersonView,
    b: PersonView,
    metrics: PersonMetrics,
) -> nat {
    (applicable_maximum(weights, a, b) + weights.global_maximum()) * (BLEND_WHOLE as nat)
}

/// The running sums of a comparison.
struct Tally {
    applicable: u64,
    accumulated: u128,
}

impl Tally {
    /// The sums stay far below what their types hold, and the accumulated
    /// score is at most the applicable maximum.
    spec fn within(self, fields: nat) -> bool {
        &&& self.applicable <= fields * u32::MAX
        &&& self.accumulated <= self.applicable * BLEND_WHOLE
    }

    /// Adds one field to the sums.
    fn add(self, weight: u32, similarity: Option<u64>, Ghost(fields): Ghost<nat>) -> (r: Tally)
        requires
            self.within(fields),
            fields < 7,
            similarity is Some ==> similarity->0 <= BLEND_WHOLE,
        ensures
            r.within(fields + 1),
            r.applicable == self.applicable + applicable_share(
                weight as nat,
                similarity is Some,
            ),
            r.accumulated == self.accumulated + accumulated_share(
                weight as nat,
                nat_of(similarity),
            ),
    {
        match similarity {
            Some(parts) => {
                proof {
                    lemma_share_bounds(weight as nat, parts as nat);
                    lemma_tally_bounds(self.applicable as nat, fields);
                    assert((self.applicable + weight) * BLEND_WHOLE == self.applicable
                        * BLEND_WHOLE + weight * BLEND_WHOLE) by (nonlinear_arith);
                }
                Tally {
                    applicable: self.applicable + weight as u64,
                    accumulated: self.accumulated + weight as u128 * parts as u128,
                }
            },
            None => self,
        }
    }
}

/// An optional count as an optional natural number.
pub open spec fn nat_of(count: Option<u64>) -> Option<nat> {
    match count {
        Some(c) => Some(c as nat),
        None => None,
    }
}

/// A weighted similarity is at most the weight times one.
proof fn lemma_share_bounds(weight: nat, parts: nat)
    requires
        weight <= u32::MAX,
        parts <= BLEND_WHOLE,
    ensures
        weight * parts <= weight * BLEND_WHOLE,
        weight * BLEND_WHOLE <= u32::MAX * BLEND_WHOLE,
{
    assert(weight * parts <= weight * BLEND_WHOLE) by (nonlinear_arith)
        requires
            parts <= BLEND_WHOLE,
    ;
    assert(weight * BLEND_WHOLE <= u32::MAX * BLEND_WHOLE) by (nonlinear_arith)
        requires
            weight <= u32::MAX,
    ;
}

/// The sums of at most seven fields are small.
proof fn lemma_tally_bounds(applicable: nat, fields: nat)
    requires
        applicable <= fields * u32::MAX,
        fields <= 7,
    ensures
        applicable <= 7 * u32::MAX,
        applicable * BLEND_WHOLE <= 7 * u32::MAX * BLEND_WHOLE,
{
    assert(fields * u32::MAX <= 7 * u32::MAX) by (nonlinear_arith)
        requires
            fields <= 7,
    ;
    assert(applicable * BLEND_WHOLE <= 7 * u32::MAX * BLEND_WHOLE) by (nonlinear_arith)
        requires
            applicable <= 7 * u32::MAX,
    ;
}

/// Compares a text field: `None` where either side lacks it.
fn compare_text(a: &Option<String>, b: &Option<String>, metrics: &StringMetrics) -> (r: Option<
    u64,
>)
    ensures
        nat_of(r) == text_similarity(
            crate::models::person::text_of(*a),
            crate::models::person::text_of(*b),
            *metrics,
        ),
        r is Some ==> r->0 <= BLEND_WHOLE,
{
    match (a, b) {
        (Some(x), Some(y)) => {
            let ratio = similarity_of_strings((x.as_str(), y.as_str()), metrics);
            Some(ratio.num as u64)
        },
        _ => None,
    }
}

/// Compares a year: `None` where either side lacks it.
fn compare_year(a: Option<i32>, b: Option<i32>) -> (r: Option<u64>)
    ensures
        nat_of(r) == number_similarity(
            crate::models::person::year_of(a),
            crate::models::person::year_of(b),
        ),
        r is Some ==> r->0 <= BLEND_WHOLE,
{
    match (a, b) {
        (Some(x), Some(y)) => Some(
            if x == y {
                BLEND_WHOLE
            } else {
                0
            },
        ),
        _ => None,
    }
}

/// Compares a month or a day: `None` where either side lacks it.
fn compare_day(a: Option<i8>, b: Option<i8>) -> (r: Option<u64>)
    ensures
        nat_of(r) == number_similarity(
            crate::models::person::day_of(a),
            crate::models::person::day_of(b),
        ),
        r is Some ==> r->0 <= BLEND_WHOLE,
{
    match (a, b) {
        (Some(x), Some(y)) => Some(
            if x == y {
                BLEND_WHOLE
            } else {
                0
            },
        ),
        _ => None,
    }
}

/// The similarity of `a` and `b` under the weights of `weights`, given the
/// measures of their text fields.
///
/// Every field that both persons hold adds its weight to the applicable
/// maximum and its weight times its similarity to the accumulated score; a
/// field that either lacks adds to neither. The result is the accumulated
/// score divided by the mean of the applicable and the global maximum, as an
/// exact fraction between zero and one.
pub fn similarity_with_weights(
    weights: &FieldWeights,
    a: &Person,
    b: &Person,
    metrics: &PersonMetrics,
) -> (score: Ratio)
    ensures
        score.num == score_num(*weights, a@, b@, *metrics),
        score.den == score_den(*weights, a@, b@, *metrics),
        0 < score.den,
        score.num <= score.den,
{
    let global: u64 = weights.maximum();
    let tally = Tally { applicable: 0, accumulated: 0 };
    let tally = tally.add(
        weights.weight_of(Field::GivenName),
        compare_text(&a.given_name, &b.given_name, &metrics.given_name),
        Ghost(0),
    );
    let tally = tally.add(
        weights.weight_of(Field::FamilyName),
        compare_text(&a.family_name, &b.family_name, &metrics.family_name),
        Ghost(1),
    );
    let tally = tally.add(
        weights.weight_of(Field::BirthDateYear),
        compare_year(a.birth_date_year, b.birth_date_year),
        Ghost(2),
    );
    let tally = tally.add(
        weights.weight_of(Field::BirthDateMonth),
        compare_day(a.birth_date_month, b.birth_date_month),
        Ghost(3),
    );
    let tally = tally.add(
        weights.weight_of(Field::BirthDateMonthDay),
        compare_day(a.birth_date_month_day, b.birth_date_month_day),
        Ghost(4),
    );
    let tally = tally.add(
        weights.weight_of(Field::PrimaryPhone),
        compare_text(&a.primary_phone, &b.primary_phone, &metrics.primary_phone),
        Ghost(5),
    );
    let tally = tally.add(
        weights.weight_of(Field::PrimaryEmail),
        compare_text(&a.primary_email, &b.primary_email, &metrics.primary_email),
        Ghost(6),
    );
    proof {
        lemma_tally_bounds(tally.applicable as nat, 7);
        lemma_score_fits(
            tally.accumulated as nat,
            tally.applicable as nat,
            global as nat,
        );
    }
    Ratio {
        num: 2 * tally.accumulated,
        den: (tally.applicable as u128 + global as u128) * (BLEND_WHOLE as u128),
    }
}

/// Twice a score that is at most its applicable maximum is at most the sum of
/// that maximum and a global maximum that is no smaller.
proof fn lemma_score_fits(accumulated: nat, applicable: nat, global: nat)
    requires
        accumulated <= applicable * BLEND_WHOLE,
        applicable <= global,
        0 < global <= 7 * u32::MAX,
    ensures
        2 * accumulated <= (applicable + global) * BLEND_WHOLE,
        0 < (applicable + global) * BLEND_WHOLE <= 14 * u32::MAX * BLEND_WHOLE,
{
    assert((applicable + global) * BLEND_WHOLE == applicable * BLEND_WHOLE + global
        * BLEND_WHOLE) by (nonlinear_arith);
    assert(applicable * BLEND_WHOLE <= global * BLEND_WHOLE) by (nonlinear_arith)
        requires
            applicable <= global,
    ;
    assert(global * BLEND_WHOLE <= 7 * u32::MAX * BLEND_WHOLE) by (nonlinear_arith)
        requires
            global <= 7 * u32::MAX,
    ;
    assert(0 < global * BLEND_WHOLE) by (nonlinear_arith)
        requires
            0 < global,
    ;
}

/// The similarity of the two persons of `input` under the standard weights,
/// given the measures of their text fields.
pub fn similarity_of_persons(input: (Person, Person), metrics: &PersonMetrics) -> (score: Ratio)
    ensures
        score.num == score_num(standard_weights(), input.0@, input.1@, *metrics),
        score.den == score_den(standard_weights(), input.0@, input.1@, *metrics),
        0 < score.den,
        score.num <= score.den,
{
    let (a, b) = input;
    let weights = FieldWeights::standard();
    similarity_with_weights(&weights, &a, &b, metrics)
}

/// A text similarity lies between zero and one.
pub proof fn lemma_string_similarity_bounds(a: Seq<char>, b: Seq<char>, metrics: StringMetrics)
    requires
        metrics.valid(),
    ensures
        string_similarity(a, b, metrics) <= BLEND_WHOLE,
{
}

/// A text similarity does not depend on the order of the two texts.
pub proof fn lemma_string_similarity_symmetric(
    a: Seq<char>,
    b: Seq<char>,
    metrics: StringMetrics,
)
    ensures
        string_similarity(a, b, metrics) == string_similarity(b, a, metrics),
{
}

/// The similarity of a field that was compared lies between zero and one.
pub proof fn lemma_field_similarity_bounds(
    field: Field,
    a: PersonView,
    b: PersonView,
    metrics: PersonMetrics,
)
    requires
        metrics.valid(),
    ensures
        field_similarity(field, a, b, metrics) is Some <==> comparable(field, a, b),
        comparable(field, a, b) ==> field_similarity(field, a, b, metrics)->0 <= BLEND_WHOLE,
{
}

/// The applicable maximum is at most the global maximum, and it is zero
/// exactly where no field is held by both persons.
pub proof fn lemma_applicable_maximum(weights: FieldWeights, a: PersonView, b: PersonView)
    requires
        weights.valid(),
    ensures
        applicable_maximum(weights, a, b) <= weights.global_maximum(),
        applicable_maximum(weights, a, b) == 0 <==> forall|field: Field| !comparable(field, a, b),
{
    assert(weights.weight(Field::GivenName) > 0);
    assert(weights.weight(Field::FamilyName) > 0);
    assert(weights.weight(Field::BirthDateYear) > 0);
    assert(weights.weight(Field::BirthDateMonth) > 0);
    assert(weights.weight(Field::BirthDateMonthDay) > 0);
    assert(weights.weight(Field::PrimaryPhone) > 0);
    assert(weights.weight(Field::PrimaryEmail) > 0);
    if !(forall|field: Field| !comparable(field, a, b)) {
        let field = choose|field: Field| comparable(field, a, b);
        assert(applicable_share(weights.weight(field), comparable(field, a, b)) > 0);
    }
}

/// The accumulated score is at most the applicable maximum.
pub proof fn lemma_accumulated_at_most_applicable(
    weights: FieldWeights,
    a: PersonView,
    b: PersonView,
    metrics: PersonMetrics,
)
    requires
        metrics.valid(),
    ensures
        accumulated(weights, a, b, metrics) <= applicable_maximum(weights, a, b) * BLEND_WHOLE,
{
    lemma_share_at_most_weight(weights, Field::GivenName, a, b, metrics);
    lemma_share_at_most_weight(weights, Field::FamilyName, a, b, metrics);
    lemma_share_at_most_weight(weights, Field::BirthDateYear, a, b, metrics);
    lemma_share_at_most_weight(weights, Field::BirthDateMonth, a, b, metrics);
    lemma_share_at_most_weight(weights, Field::BirthDateMonthDay, a, b, metrics);
    lemma_share_at_most_weight(weights, Field::PrimaryPhone, a, b, metrics);
    lemma_share_at_most_weight(weights, Field::PrimaryEmail, a, b, metrics);
    let s0 = applicable_share(weights.weight(Field::GivenName), comparable(Field::GivenName, a, b));
    let s1 = applicable_share(
        weights.weight(Field::FamilyName),
        comparable(Field::FamilyName, a, b),
    );
    let s2 = applicable_share(
        weights.weight(Field::BirthDateYear),
        comparable(Field::BirthDateYear, a, b),
    );
    let s3 = applicable_share(
        weights.weight(Field::BirthDateMonth),
        comparable(Field::BirthDateMonth, a, b),
    );
    let s4 = applicable_share(
        weights.weight(Field::BirthDateMonthDay),
        comparable(Field::BirthDateMonthDay, a, b),
    );
    let s5 = applicable_share(
        weights.weight(Field::PrimaryPhone),
        comparable(Field::PrimaryPhone, a, b),
    );
    let s6 = applicable_share(
        weights.weight(Field::PrimaryEmail),
        comparable(Field::PrimaryEmail, a, b),
    );
    assert((s0 + s1 + s2 + s3 + s4 + s5 + s6) * BLEND_WHOLE == s0 * BLEND_WHOLE + s1
        * BLEND_WHOLE + s2 * BLEND_WHOLE + s3 * BLEND_WHOLE + s4 * BLEND_WHOLE + s5 * BLEND_WHOLE
        + s6 * BLEND_WHOLE) by (nonlinear_arith);
}

/// What one field adds to the accumulated score is at most what it adds to
/// the applicable maximum.
proof fn lemma_share_at_most_weight(
    weights: FieldWeights,
    field: Field,
    a: PersonView,
    b: PersonView,
    metrics: PersonMetrics,
)
    requires
        metrics.valid(),
    ensures
        accumulated_share(weights.weight(field), field_similarity(field, a, b, metrics))
            <= applicable_share(weights.weight(field), comparable(field, a, b)) * BLEND_WHOLE,
{
    lemma_field_similarity_bounds(field, a, b, metrics);
    if comparable(field, a, b) {
        let weight = weights.weight(field);
        let parts = field_similarity(field, a, b, metrics)->0;
        assert(weight * parts <= weight * BLEND_WHOLE) by (nonlinear_arith)
            requires
                parts <= BLEND_WHOLE,
        ;
    }
}

/// The similarity of two persons lies between zero and one: its numerator
/// is at most its denominator, which is positive.
pub proof fn lemma_similarity_bounds(
    weights: FieldWeights,
    a: PersonView,
    b: PersonView,
    metrics: PersonMetrics,
)
    requires
        weights.valid(),
        metrics.valid(),
    ensures
        0 < score_den(weights, a, b, metrics),
        0 <= score_num(weights, a, b, metrics) <= score_den(weights, a, b, metrics),
{
    lemma_applicable_maximum(weights, a, b);
    lemma_accumulated_at_most_applicable(weights, a, b, metrics);
    let applicable = applicable_maximum(weights, a, b);
    let global = weights.global_maximum();
    assert(weights.weight(Field::GivenName) > 0);
    assert((applicable + global) * BLEND_WHOLE == applicable * BLEND_WHOLE + global
        * BLEND_WHOLE) by (nonlinear_arith);
    assert(applicable * BLEND_WHOLE <= global * BLEND_WHOLE) by (nonlinear_arith)
        requires
            applicable <= global,
    ;
    assert(0 < global * BLEND_WHOLE) by (nonlinear_arith)
        requires
            0 < global,
    ;
}

/// Whether every text that `a` holds in a compared field is non-empty.
pub open spec fn texts_filled(a: PersonView) -> bool {
    &&& a.given_name is Some ==> a.given_name->0.len() > 0
    &&& a.family_name is Some ==> a.family_name->0.len() > 0
    &&& a.primary_phone is Some ==> a.primary_phone->0.len() > 0
    &&& a.primary_email is Some ==> a.primary_email->0.len() > 0
}

/// Whether `a` holds all seven compared fields.
pub open spec fn complete(a: PersonView) -> bool {
    forall|field: Field| comparable(field, a, a)
}

/// A person whose texts are all non-empty, compared with itself, scores its
/// applicable maximum in full; where it holds all seven fields, that is a
/// similarity of one.
pub proof fn lemma_identity(weights: FieldWeights, a: PersonView, metrics: PersonMetrics)
    requires
        weights.valid(),
        texts_filled(a),
    ensures
        accumulated(weights, a, a, metrics) == applicable_maximum(weights, a, a) * BLEND_WHOLE,
        complete(a) ==> score_num(weights, a, a, metrics) == score_den(weights, a, a, metrics),
{
    let s0 = applicable_share(weights.weight(Field::GivenName), comparable(Field::GivenName, a, a));
    let s1 = applicable_share(
        weights.weight(Field::FamilyName),
        comparable(Field::FamilyName, a, a),
    );
    let s2 = applicable_share(
        weights.weight(Field::BirthDateYear),
        comparable(Field::BirthDateYear, a, a),
    );
    let s3 = applicable_share(
        weights.weight(Field::BirthDateMonth),
        comparable(Field::BirthDateMonth, a, a),
    );
    let s4 = applicable_share(
        weights.weight(Field::BirthDateMonthDay),
        comparable(Field::BirthDateMonthDay, a, a),
    );
    let s5 = applicable_share(
        weights.weight(Field::PrimaryPhone),
        comparable(Field::PrimaryPhone, a, a),
    );
    let s6 = applicable_share(
        weights.weight(Field::PrimaryEmail),
        comparable(Field::PrimaryEmail, a, a),
    );
    assert((s0 + s1 + s2 + s3 + s4 + s5 + s6) * BLEND_WHOLE == s0 * BLEND_WHOLE + s1
        * BLEND_WHOLE + s2 * BLEND_WHOLE + s3 * BLEND_WHOLE + s4 * BLEND_WHOLE + s5 * BLEND_WHOLE
        + s6 * BLEND_WHOLE) by (nonlinear_arith);
    if complete(a) {
        assert(comparable(Field::GivenName, a, a));
        assert(comparable(Field::FamilyName, a, a));
        assert(comparable(Field::BirthDateYear, a, a));
        assert(comparable(Field::BirthDateMonth, a, a));
        assert(comparable(Field::BirthDateMonthDay, a, a));
        assert(comparable(Field::PrimaryPhone, a, a));
        assert(comparable(Field::PrimaryEmail, a, a));
        let global = weights.global_maximum();
        assert(applicable_maximum(weights, a, a) == global);
        assert((global + global) * BLEND_WHOLE == 2 * (global * BLEND_WHOLE))
            by (nonlinear_arith);
    }
}

/// Two persons that hold no field in common have a similarity of zero.
pub proof fn lemma_no_overlap(
    weights: FieldWeights,
    a: PersonView,
    b: PersonView,
    metrics: PersonMetrics,
)
    requires
        forall|field: Field| !comparable(field, a, b),
    ensures
        score_num(weights, a, b, metrics) == 0,
{
    assert(!comparable(Field::GivenName, a, b));
    assert(!comparable(Field::FamilyName, a, b));
    assert(!comparable(Field::BirthDateYear, a, b));
    assert(!comparable(Field::BirthDateMonth, a, b));
    assert(!comparable(Field::BirthDateMonthDay, a, b));
    assert(!comparable(Field::PrimaryPhone, a, b));
    assert(!comparable(Field::PrimaryEmail, a, b));
}

/// The similarity of two persons does not depend on their order, the
/// measures of each text field being the same for both orders.
pub proof fn lemma_symmetry(
    weights: FieldWeights,
    a: PersonView,
    b: PersonView,
    metrics: PersonMetrics,
)
    ensures
        score_num(weights, a, b, metrics) == score_num(weights, b, a, metrics),
        score_den(weights, a, b, metrics) == score_den(weights, b, a, metrics),
{
}

} // verus!
