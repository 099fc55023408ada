//! The user record as the backend's table holds it, where what a member is
//! at the school is one small number.

use vstd::prelude::*;
use vstd::std_specs::convert::FromSpecImpl;

verus! {

/// What a member is at the school.
#[derive(Debug, Clone, Copy, PartialEq, Eq, Structural)]
pub enum DevinciType {
    /// A student, with the year of study.
    Student(u8),
    Professor,
    Other,
}

/// A row of the users table.
#[derive(Debug)]
pub struct DevinciUser {
    pub discord_id: u64,
    pub first_name: String,
    pub last_name: String,
    pub mail: String,
    /// A `DevinciType` as its number.
    pub func: u8,
}

/// The number 6, under which "other" is stored.
pub const OTHER_CODE: u8 = 6;

/// What a stored number stands for: 0 is a professor, 1 to 5 a student of
/// that year, anything else "other".
pub open spec fn type_of_code(value: u8) -> DevinciType {
    if value == 0 {
        DevinciType::Professor
    } else if value <= 5 {
        DevinciType::Student(value)
    } else {
        DevinciType::Other
    }
}

/// The number under which a type is stored: 0 for a professor, the year for
/// a student, 6 for "other".
pub open spec fn code_of_type(value: DevinciType) -> u8 {
    match value {
        DevinciType::Professor => 0,
        DevinciType::Student(year) => year,
        DevinciType::Other => OTHER_CODE,
    }
}

impl From<u8> for DevinciType {
    fn from(value: u8) -> (r: DevinciType) {
        if value == 0 {
            DevinciType::Professor
        } else if value <= 5 {
            DevinciType::Student(value)
        } else {
            DevinciType::Other
        }
    }
}

impl FromSpecImpl<u8> for DevinciType {
    open spec fn obeys_from_spec() -> bool {
        true
    }

    open spec fn from_spec(value: u8) -> DevinciType {
        type_of_code(value)
    }
}

impl From<DevinciType> for u8 {
    fn from(value: DevinciType) -> (r: u8) {
        match value {
            DevinciType::Professor => 0,
            DevinciType::Student(year) => year,
            DevinciType::Other => OTHER_CODE,
        }
    }
}

impl FromSpecImpl<DevinciType> for u8 {
    open spec fn obeys_from_spec() -> bool {
        true
    }

    open spec fn from_spec(value: DevinciType) -> u8 {
        code_of_type(value)
    }
}

/// Storing a type and reading it back gives the type, for a professor, for
/// "other" and for a student of a year from 1 to 5. A student of another
/// year is not read back as a student.
pub proof fn lemma_code_round_trip(value: DevinciType)
    ensures
        (value matches DevinciType::Student(year) ==> 1 <= year <= 5) ==> type_of_code(
            code_of_type(value),
        ) == value,
        (value matches DevinciType::Student(year) && !(1 <= year <= 5)) ==> !(type_of_code(
            code_of_type(value),
        ) is Student),
{
}

} // verus!
