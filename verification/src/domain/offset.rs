//! The `offset` query parameter: how many rows to skip before the page.

use vstd::prelude::*;
use crate::domain::{parse_positive, positive_of};

verus! {

/// Number of rows skipped before the visible page. Parsed from the raw
/// `offset` query parameter; guaranteed non-negative once constructed.
#[derive(Debug, Clone, Copy, PartialEq, Eq, Structural)]
pub struct Offset(pub i64);

impl Default for Offset {
    /// An absent `offset` falls back to 0.
    fn default() -> (r: Self)
        ensures
            r == (Offset { 0: 0i64 }),
    {
        Offset(0)
    }
}

impl Offset {
    pub fn new(offset: i64) -> (r: Self)
        ensures
            r.0 == offset,
    {
        Offset(offset)
    }

    pub fn get(self) -> (r: i64)
        ensures
            r == self.0,
    {
        self.0
    }

    /// Validates a raw `offset` value: absent means 0, negative is
    /// rejected, anything else is taken as given.
    pub fn parse(value: Option<i64>) -> (r: Result<Self, &'static str>)
        ensures
            match positive_of(value, 0) {
                Some(v) => r == Ok::<Offset, &'static str>(Offset { 0: v }),
                None => (r matches Err(m) && m@ == "The offset value must be positive."@),
            },
    {
        match parse_positive(value, 0) {
            Some(v) => Ok(Offset(v)),
            None => Err("The offset value must be positive."),
        }
    }
}

} // verus!
