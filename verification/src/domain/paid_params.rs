//! Per-route aliases of the numeric parameters for the paid-statistics
//! route. They share the validation core and differ only in name.

use vstd::prelude::*;
use crate::domain::{parse_positive, positive_of};

verus! {

/// `limit` parameter of the paid route; non-negative, defaults to 100.
#[derive(Debug, Clone, Copy, PartialEq, Eq, Structural)]
pub struct PaidLimit(pub i64);

impl Default for PaidLimit {
    fn default() -> (r: Self)
        ensures
            r == (PaidLimit { 0: 100i64 }),
    {
        PaidLimit(100)
    }
}

impl PaidLimit {
    pub fn new(value: i64) -> (r: Self)
        ensures
            r.0 == value,
    {
        PaidLimit(value)
    }

    pub fn get(self) -> (r: i64)
        ensures
            r == self.0,
    {
        self.0
    }

    pub fn parse(value: Option<i64>) -> (r: Result<Self, &'static str>)
        ensures
            match positive_of(value, 100) {
                Some(v) => r == Ok::<PaidLimit, &'static str>(PaidLimit { 0: v }),
                None => (r matches Err(m) && m@ == "The limit value must be positive."@),
            },
    {
        match parse_positive(value, 100) {
            Some(v) => Ok(PaidLimit(v)),
            None => Err("The limit value must be positive."),
        }
    }
}

/// `offset` parameter of the paid route; non-negative, defaults to 0.
#[derive(Debug, Clone, Copy, PartialEq, Eq, Structural)]
pub struct PaidOffset(pub i64);

impl Default for PaidOffset {
    fn default() -> (r: Self)
        ensures
            r == (PaidOffset { 0: 0i64 }),
    {
        PaidOffset(0)
    }
}

impl PaidOffset {
    pub fn new(offset: i64) -> (r: Self)
        ensures
            r.0 == offset,
    {
        PaidOffset(offset)
    }

    pub fn get(self) -> (r: i64)
        ensures
            r == self.0,
    {
        self.0
    }

    pub fn parse(value: Option<i64>) -> (r: Result<Self, &'static str>)
        ensures
            match positive_of(value, 0) {
                Some(v) => r == Ok::<PaidOffset, &'static str>(PaidOffset { 0: v }),
                None => (r matches Err(m) && m@ == "The offset value must be positive"@),
            },
    {
        match parse_positive(value, 0) {
            Some(v) => Ok(PaidOffset(v)),
            None => Err("The offset value must be positive"),
        }
    }
}

} // verus!
