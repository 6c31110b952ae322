use vstd::prelude::*;

verus! {

/// One recorded espresso extraction.
///
/// Weights are kept in tenths of a gram, the brew temperature in tenths of a
/// degree Celsius, the extraction time in milliseconds, and the date in
/// seconds since the Unix epoch, so that every field is a plain value the
/// state machine can reason about.
#[derive(Debug)]
pub struct Shot {
    pub in_weight: u32,
    pub out_weight: u32,
    pub grind: String,
    pub temperature: u32,
    pub time: u64,
    pub notes: String,
    pub date: i64,
}

/// Why a shot record was rejected at entry time.
#[derive(Debug, Clone, Copy, PartialEq, Eq, Structural)]
pub enum ShotError {
    Weight,
    Temperature,
    Grind,
    Time,
}

impl ShotError {
    /// The user-facing description of this error.
    pub open spec fn message_spec(&self) -> Seq<char> {
        match self {
            ShotError::Weight => "The weight you chose is not valid!"@,
            ShotError::Temperature => "The temperature is invalid!"@,
            ShotError::Grind => "Error registering grind setting"@,
            ShotError::Time => "The time is invalid!"@,
        }
    }

    /// The description shown to the user for this error.
    pub fn message(&self) -> (r: String)
        ensures
            r@ == self.message_spec(),
    {
        match self {
            ShotError::Weight => "The weight you chose is not valid!".to_owned(),
            ShotError::Temperature => "The temperature is invalid!".to_owned(),
            ShotError::Grind => "Error registering grind setting".to_owned(),
            ShotError::Time => "The time is invalid!".to_owned(),
        }
    }
}

} // verus!
