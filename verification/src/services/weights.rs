//! The table of field weights.

use vstd::prelude::*;

verus! {

/// The fields of a person that are compared, in the order in which they are
/// weighed.
#[derive(Clone, Copy, Debug, PartialEq, Eq, Structural)]
pub enum Field {
    GivenName,
    FamilyName,
    BirthDateYear,
    BirthDateMonth,
    BirthDateMonthDay,
    PrimaryPhone,
    PrimaryEmail,
}

/// Weight of an equal given name, in tenths.
pub const GIVEN_NAME_EQ: u32 = 8;

/// Weight of an equal family name, in tenths.
pub const FAMILY_NAME_EQ: u32 = 10;

/// Weight of an equal year of birth, in tenths.
pub const BIRTH_DATE_YEAR_EQ: u32 = 3;

/// Weight of an equal month of birth, in tenths.
pub const BIRTH_DATE_MONTH_EQ: u32 = 2;

/// Weight of an equal day of the month of birth, in tenths.
pub const BIRTH_DATE_MONTH_DAY_EQ: u32 = 1;

/// Weight of an equal primary phone, in tenths.
pub const PRIMARY_PHONE_EQ: u32 = 6;

/// Weight of an equal primary email, in tenths.
pub const PRIMARY_EMAIL_EQ: u32 = 7;

/// The sum of the standard weights, in tenths.
pub const SIMILARITY_MAX: u32 = 37;

/// A weight for each compared field: a whole number of some unit that all
/// seven share. Every weight is strictly positive.
#[derive(Clone, Copy, Debug)]
pub struct FieldWeights {
    given_name: u32,
    family_name: u32,
    birth_date_year: u32,
    birth_date_month: u32,
    birth_date_month_day: u32,
    primary_phone: u32,
    primary_email: u32,
}

impl FieldWeights {
    /// The weight that the table gives to `field`.
    pub closed spec fn weight(self, field: Field) -> nat {
        match field {
            Field::GivenName => self.given_name as nat,
            Field::FamilyName => self.family_name as nat,
            Field::BirthDateYear => self.birth_date_year as nat,
            Field::BirthDateMonth => self.birth_date_month as nat,
            Field::BirthDateMonthDay => self.birth_date_month_day as nat,
            Field::PrimaryPhone => self.primary_phone as nat,
            Field::PrimaryEmail => self.primary_email as nat,
        }
    }

    /// Every weight is strictly positive and fits in 32 bits.
    pub open spec fn valid(self) -> bool {
        forall|field: Field| 0 < #[trigger] self.weight(field) <= u32::MAX
    }

    /// The global maximum: the sum of all seven weights.
    pub open spec fn global_maximum(self) -> nat {
        self.weight(Field::GivenName) + self.weight(Field::FamilyName) + self.weight(
            Field::BirthDateYear,
        ) + self.weight(Field::BirthDateMonth) + self.weight(Field::BirthDateMonthDay)
            + self.weight(Field::PrimaryPhone) + self.weight(Field::PrimaryEmail)
    }

    #[verifier::type_invariant]
    spec fn all_positive(self) -> bool {
        self.valid()
    }

    /// A table of the given weights, in the order of [`Field`]. There is no
    /// table where a weight is zero.
    pub fn new(
        given_name: u32,
        family_name: u32,
        birth_date_year: u32,
        birth_date_month: u32,
        birth_date_month_day: u32,
        primary_phone: u32,
        primary_email: u32,
    ) -> (table: Option<FieldWeights>)
        ensures
            table is Some <==> given_name > 0 && family_name > 0 && birth_date_year > 0
                && birth_date_month > 0 && birth_date_month_day > 0 && primary_phone > 0
                && primary_email > 0,
            table is Some ==> {
                let t = table->0;
                &&& t.valid()
                &&& t.weight(Field::GivenName) == given_name
                &&& t.weight(Field::FamilyName) == family_name
                &&& t.weight(Field::BirthDateYear) == birth_date_year
                &&& t.weight(Field::BirthDateMonth) == birth_date_month
                &&& t.weight(Field::BirthDateMonthDay) == birth_date_month_day
                &&& t.weight(Field::PrimaryPhone) == primary_phone
                &&& t.weight(Field::PrimaryEmail) == primary_email
            },
    {
        if given_name > 0 && family_name > 0 && birth_date_year > 0 && birth_date_month > 0
            && birth_date_month_day > 0 && primary_phone > 0 && primary_email > 0 {
            Some(
                FieldWeights {
                    given_name,
                    family_name,
                    birth_date_year,
                    birth_date_month,
                    birth_date_month_day,
                    primary_phone,
                    primary_email,
                },
            )
        } else {
            None
        }
    }

    /// The standard table, whose weights are the named constants.
    pub fn standard() -> (table: FieldWeights)
        ensures
            table == standard_weights(),
    {
        FieldWeights {
            given_name: GIVEN_NAME_EQ,
            family_name: FAMILY_NAME_EQ,
            birth_date_year: BIRTH_DATE_YEAR_EQ,
            birth_date_month: BIRTH_DATE_MONTH_EQ,
            birth_date_month_day: BIRTH_DATE_MONTH_DAY_EQ,
            primary_phone: PRIMARY_PHONE_EQ,
            primary_email: PRIMARY_EMAIL_EQ,
        }
    }

    /// Looks up the weight of `field`.
    pub fn weight_of(&self, field: Field) -> (w: u32)
        ensures
            w == self.weight(field),
            w > 0,
            self.valid(),
    {
        proof {
            use_type_invariant(self);
        }
        match field {
            Field::GivenName => self.given_name,
            Field::FamilyName => self.family_name,
            Field::BirthDateYear => self.birth_date_year,
            Field::BirthDateMonth => self.birth_date_month,
            Field::BirthDateMonthDay => self.birth_date_month_day,
            Field::PrimaryPhone => self.primary_phone,
            Field::PrimaryEmail => self.primary_email,
        }
    }

    /// Adds up the seven weights.
    pub fn maximum(&self) -> (sum: u64)
        ensures
            sum == self.global_maximum(),
            sum > 0,
            self.valid(),
    {
        proof {
            use_type_invariant(self);
        }
        let names: u64 = self.given_name as u64 + self.family_name as u64;
        let birth: u64 = self.birth_date_year as u64 + self.birth_date_month as u64
            + self.birth_date_month_day as u64;
        let contact: u64 = self.primary_phone as u64 + self.primary_email as u64;
        names + birth + contact
    }
}

/// The standard table, as contracts speak of it.
pub closed spec fn standard_weights() -> FieldWeights {
    FieldWeights {
        given_name: GIVEN_NAME_EQ,
        family_name: FAMILY_NAME_EQ,
        birth_date_year: BIRTH_DATE_YEAR_EQ,
        birth_date_month: BIRTH_DATE_MONTH_EQ,
        birth_date_month_day: BIRTH_DATE_MONTH_DAY_EQ,
        primary_phone: PRIMARY_PHONE_EQ,
        primary_email: PRIMARY_EMAIL_EQ,
    }
}

/// The standard table holds the named constants, every one of them positive,
/// and its global maximum is [`SIMILARITY_MAX`].
pub proof fn lemma_standard_weights()
    ensures
        standard_weights().valid(),
        standard_weights().weight(Field::GivenName) == GIVEN_NAME_EQ,
        standard_weights().weight(Field::FamilyName) == FAMILY_NAME_EQ,
        standard_weights().weight(Field::BirthDateYear) == BIRTH_DATE_YEAR_EQ,
        standard_weights().weight(Field::BirthDateMonth) == BIRTH_DATE_MONTH_EQ,
        standard_weights().weight(Field::BirthDateMonthDay) == BIRTH_DATE_MONTH_DAY_EQ,
        standard_weights().weight(Field::PrimaryPhone) == PRIMARY_PHONE_EQ,
        standard_weights().weight(Field::PrimaryEmail) == PRIMARY_EMAIL_EQ,
        standard_weights().global_maximum() == SIMILARITY_MAX,
{
}

} // verus!
