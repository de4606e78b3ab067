//! The visibility of a forecast, built from the pieces of its group.

use crate::utils::numbers::{decimal_u32, parse_u32};
use vstd::prelude::*;
use vstd::string::StringSliceAdditionalSpecFns;

verus! {

/// The visibility of a forecast.
#[derive(Debug)]
pub struct Visibility {
    pub is_unlimited: bool,
    pub is_unknown: bool,
    pub is_meters: bool,
    pub is_statute_miles: bool,
    pub distance: Option<u32>,
}

/// Collects the pieces of a visibility group as they were written.
pub struct VisibilityBuilder<'a> {
    pub unlimited: bool,
    pub unknown: bool,
    pub meters: bool,
    pub statute_miles: bool,
    pub distance: &'a str,
}

impl<'a> VisibilityBuilder<'a> {
    /// A builder with no mark set and no distance.
    pub fn new() -> (r: VisibilityBuilder<'a>)
        ensures
            !r.unlimited,
            !r.unknown,
            !r.meters,
            !r.statute_miles,
            r.distance@.len() == 0,
    {
        proof {
            reveal_strlit("");
        }
        VisibilityBuilder {
            unlimited: false,
            unknown: false,
            meters: false,
            statute_miles: false,
            distance: "",
        }
    }

    /// Marks the visibility as unlimited.
    pub fn is_unlimited(&mut self) -> (r: &mut Self)
        ensures
            *r == (VisibilityBuilder { unlimited: true, ..*old(self) }),
            *final(self) == *final(r),
    {
        self.unlimited = true;
        self
    }

    /// Marks the visibility as unknown.
    pub fn is_unknown(&mut self) -> (r: &mut Self)
        ensures
            *r == (VisibilityBuilder { unknown: true, ..*old(self) }),
            *final(self) == *final(r),
    {
        self.unknown = true;
        self
    }

    /// Marks the distance as one in meters.
    pub fn is_meters(&mut self) -> (r: &mut Self)
        ensures
            *r == (VisibilityBuilder { meters: true, ..*old(self) }),
            *final(self) == *final(r),
    {
        self.meters = true;
        self
    }

    /// Marks the distance as one in statute miles.
    pub fn is_statute_miles(&mut self) -> (r: &mut Self)
        ensures
            *r == (VisibilityBuilder { statute_miles: true, ..*old(self) }),
            *final(self) == *final(r),
    {
        self.statute_miles = true;
        self
    }

    /// Sets the text of the distance.
    pub fn with_distance(&mut self, distance: &'a str) -> (r: &mut Self)
        ensures
            *r == (VisibilityBuilder { distance, ..*old(self) }),
            *final(self) == *final(r),
    {
        self.distance = distance;
        self
    }

    /// The visibility that the pieces describe. The distance is there where
    /// its text writes a number.
    pub fn build(&self) -> (r: Visibility)
        ensures
            r.is_unlimited == self.unlimited,
            r.is_unknown == self.unknown,
            r.is_meters == self.meters,
            r.is_statute_miles == self.statute_miles,
            r.distance == decimal_u32(self.distance.spec_bytes()),
    {
        Visibility {
            is_unlimited: self.unlimited,
            is_unknown: self.unknown,
            is_meters: self.meters,
            is_statute_miles: self.statute_miles,
            distance: parse_u32(self.distance),
        }
    }
}

} // verus!
