//! The wind of a forecast, built from the pieces of its group.

use crate::utils::numbers::{decimal_u32, parse_u32};
use vstd::prelude::*;
use vstd::string::StringSliceAdditionalSpecFns;

verus! {

/// The wind of a forecast.
#[derive(Debug)]
pub struct Wind {
    pub is_variable_direction: bool,
    pub is_gusting: bool,
    pub direction: Option<u32>,
    pub speed: Option<u32>,
    pub gust_speed: Option<u32>,
}

/// Collects the pieces of a wind group as they were written.
pub struct WindBuilder<'a> {
    pub variable: bool,
    pub direction: &'a str,
    pub speed: &'a str,
    pub gust_speed: Option<&'a str>,
}

/// The number that an optional text writes.
pub open spec fn optional_u32(text: Option<&str>) -> Option<u32> {
    match text {
        Some(t) => decimal_u32(t.spec_bytes()),
        None => None,
    }
}

impl<'a> WindBuilder<'a> {
    /// A builder with no piece set.
    pub fn new() -> (r: WindBuilder<'a>)
        ensures
            !r.variable,
            r.direction@.len() == 0,
            r.speed@.len() == 0,
            r.gust_speed is None,
    {
        proof {
            reveal_strlit("");
        }
        WindBuilder { variable: false, direction: "", speed: "", gust_speed: None }
    }

    /// Marks the direction as variable.
    pub fn is_variable(&mut self) -> (r: &mut Self)
        ensures
            *r == (WindBuilder { variable: true, ..*old(self) }),
            *final(self) == *final(r),
    {
        self.variable = true;
        self
    }

    /// Sets the text of the direction.
    pub fn with_direction(&mut self, direction: &'a str) -> (r: &mut Self)
        ensures
            *r == (WindBuilder { direction, ..*old(self) }),
            *final(self) == *final(r),
    {
        self.direction = direction;
        self
    }

    /// Sets the text of the speed.
    pub fn with_speed(&mut self, speed: &'a str) -> (r: &mut Self)
        ensures
            *r == (WindBuilder { speed, ..*old(self) }),
            *final(self) == *final(r),
    {
        self.speed = speed;
        self
    }

    /// Sets the text of the gust speed, or that there are no gusts.
    pub fn with_gust_speed(&mut self, gust_speed: Option<&'a str>) -> (r: &mut Self)
        ensures
            *r == (WindBuilder { gust_speed, ..*old(self) }),
            *final(self) == *final(r),
    {
        self.gust_speed = gust_speed;
        self
    }

    /// The wind that the pieces describe. Direction and speed are there
    /// where their texts write a number; a gust speed that is given must
    /// write one.
    pub fn build(&self) -> (r: Wind)
        requires
            self.gust_speed is Some ==> optional_u32(self.gust_speed) is Some,
        ensures
            r.is_variable_direction == self.variable,
            r.direction == decimal_u32(self.direction.spec_bytes()),
            r.speed == decimal_u32(self.speed.spec_bytes()),
            r.gust_speed == optional_u32(self.gust_speed),
            r.is_gusting == (self.gust_speed is Some),
    {
        Wind {
            is_variable_direction: self.variable,
            direction: parse_u32(self.direction),
            speed: parse_u32(self.speed),
            gust_speed: match self.gust_speed {
                Some(g) => parse_u32(g),
                None => None,
            },
            is_gusting: self.gust_speed.is_some(),
        }
    }
}

} // verus!
