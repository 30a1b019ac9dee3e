use vstd::prelude::*;

verus! {

/// A calendar date of chrono, carried through unread: only the toolkit's
/// date picker looks inside it.
#[verifier::external_type_specification]
#[verifier::external_body]
pub struct ExNaiveDate(chrono::NaiveDate);

/// A text cell, edited in place by text fields.
pub struct Str {
    pub value: String,
}

impl Str {
    pub fn new(value: String) -> (r: Self)
        ensures
            r.value == value,
    {
        Str { value }
    }
}

/// A boolean cell, flipped by check boxes and toggles.
pub struct Bool {
    pub value: bool,
}

impl Bool {
    pub fn new(value: bool) -> (r: Self)
        ensures
            r.value == value,
    {
        Bool { value }
    }
}

/// A 32-bit integer cell, moved by sliders and set by choice widgets.
pub struct Int {
    pub value: i32,
}

impl Int {
    pub fn new(value: i32) -> (r: Self)
        ensures
            r.value == value,
    {
        Int { value }
    }
}

/// A date cell, set by the date picker.
pub struct Date {
    pub value: chrono::NaiveDate,
}

impl Date {
    pub fn new(value: chrono::NaiveDate) -> (r: Self)
        ensures
            r.value == value,
    {
        Date { value }
    }
}

} // verus!
