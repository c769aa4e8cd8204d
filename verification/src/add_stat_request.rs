//! A submitted stat observation and the write-path validation rule.

use vstd::prelude::*;
use crate::codec::{is_finite_bits, check_finite_bits};
use crate::error::ValidationError;
use crate::stat_view::StatView;
use crate::time_utils::MILLIS_IN_DAY;

verus! {

/// One stat observation as the write path receives it. The score arrives
/// as its IEEE-754 bit pattern plus its decimal rendering; an absent day
/// is filled with the current day bucket when the view is taken.
pub struct AddStatRequest {
    pub user: String,
    pub game: String,
    pub stat: String,
    pub value_bits: u64,
    pub value_dec: String,
    pub day: Option<u128>,
}

impl AddStatRequest {
    /// What the write path accepts: non-empty strings, a finite score,
    /// and a day (when given) on a whole-day boundary.
    pub open spec fn valid(&self) -> bool {
        &&& self.user@.len() > 0
        &&& self.game@.len() > 0
        &&& self.stat@.len() > 0
        &&& is_finite_bits(self.value_bits)
        &&& match self.day {
            Some(d) => d % MILLIS_IN_DAY == 0,
            None => true,
        }
    }

    /// Succeeds exactly on valid requests; each error names the first
    /// check that failed, in field order.
    pub fn validate(&self) -> (r: Result<(), ValidationError>)
        ensures
            r is Ok <==> self.valid(),
            match r {
                Ok(_) => true,
                Err(e) => match e {
                    ValidationError::EmptyUser => self.user@.len() == 0,
                    ValidationError::EmptyGame => self.user@.len() > 0 && self.game@.len() == 0,
                    ValidationError::EmptyStat => self.user@.len() > 0 && self.game@.len() > 0
                        && self.stat@.len() == 0,
                    ValidationError::NonFiniteValue => self.user@.len() > 0 && self.game@.len() > 0
                        && self.stat@.len() > 0 && !is_finite_bits(self.value_bits),
                    ValidationError::MalformedDay => self.user@.len() > 0 && self.game@.len() > 0
                        && self.stat@.len() > 0 && is_finite_bits(self.value_bits) && match self
                        .day {
                        Some(d) => d % MILLIS_IN_DAY != 0,
                        None => false,
                    },
                    _ => false,
                },
            },
    {
        if self.user.as_str().is_empty() {
            return Err(ValidationError::EmptyUser);
        }
        if self.game.as_str().is_empty() {
            return Err(ValidationError::EmptyGame);
        }
        if self.stat.as_str().is_empty() {
            return Err(ValidationError::EmptyStat);
        }
        if !check_finite_bits(self.value_bits) {
            return Err(ValidationError::NonFiniteValue);
        }
        match self.day {
            Some(d) => {
                if d % MILLIS_IN_DAY != 0 {
                    return Err(ValidationError::MalformedDay);
                }
            },
            None => {},
        }
        Ok(())
    }

    /// The canonical view of this request: the added timestamp comes from
    /// the clock, and an absent day becomes that same sample's day bucket.
    pub fn as_stat_view(&self) -> (r: StatView)
        ensures
            r@.user == self.user@,
            r@.game == self.game@,
            r@.stat == self.stat@,
            r@.value == self.value_dec@,
            match self.day {
                Some(d) => r@.day == d,
                None => r@.day % MILLIS_IN_DAY == 0 && r@.day <= r@.added_timestamp < r@.day
                    + MILLIS_IN_DAY,
            },
    {
        StatView::new(
            self.user.as_str(),
            self.game.as_str(),
            self.stat.as_str(),
            self.value_dec.as_str(),
            self.day,
        )
    }
}

} // verus!
