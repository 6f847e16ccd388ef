//! The `limit` query parameter: how many rows one page may show.

use vstd::prelude::*;
use crate::domain::{parse_positive, positive_of};

verus! {

/// Maximum number of rows of one page. Parsed from the raw `limit` query
/// parameter; guaranteed non-negative once constructed.
#[derive(Debug, Clone, Copy, PartialEq, Eq, Structural)]
pub struct Limit(pub i64);

impl Default for Limit {
    /// An absent `limit` falls back to 100 rows.
    fn default() -> (r: Self)
        ensures
            r == (Limit { 0: 100i64 }),
    {
        Limit(100)
    }
}

impl Limit {
    pub fn new(value: i64) -> (r: Self)
        ensures
            r.0 == value,
    {
        Limit(value)
    }

    pub fn get(self) -> (r: i64)
        ensures
            r == self.0,
    {
        self.0
    }

    /// Validates a raw `limit` value: absent means 100, negative is
    /// rejected, anything else is taken as given.
    pub fn parse(value: Option<i64>) -> (r: Result<Self, &'static str>)
        ensures
            match positive_of(value, 100) {
                Some(v) => r == Ok::<Limit, &'static str>(Limit { 0: v }),
                None => (r matches Err(m) && m@ == "The limit value must be positive."@),
            },
    {
        match parse_positive(value, 100) {
            Some(v) => Ok(Limit(v)),
            None => Err("The limit value must be positive."),
        }
    }
}

} // verus!
