//! Per-route aliases of the numeric parameters for the sales route. They
//! share the validation core and differ only in name.

use vstd::prelude::*;
use crate::domain::{parse_positive, positive_of};

verus! {

/// `limit` parameter of the sales route; non-negative, defaults to 100.
#[derive(Debug, Clone, Copy, PartialEq, Eq, Structural)]
pub struct SaleLimit(pub i64);

impl Default for SaleLimit {
    fn default() -> (r: Self)
        ensures
            r == (SaleLimit { 0: 100i64 }),
    {
        SaleLimit(100)
    }
}

impl SaleLimit {
    pub fn new(value: i64) -> (r: Self)
        ensures
            r.0 == value,
    {
        SaleLimit(value)
    }

    pub fn get(self) -> (r: i64)
        ensures
            r == self.0,
    {
        self.0
    }

    pub fn parse(value: Option<i64>) -> (r: Result<Self, &'static str>)
        ensures
            match positive_of(value, 100) {
                Some(v) => r == Ok::<SaleLimit, &'static str>(SaleLimit { 0: v }),
                None => (r matches Err(m) && m@ == "The limit value must be positive."@),
            },
    {
        match parse_positive(value, 100) {
            Some(v) => Ok(SaleLimit(v)),
            None => Err("The limit value must be positive."),
        }
    }
}

/// `offset` parameter of the sales route; non-negative, defaults to 0.
#[derive(Debug, Clone, Copy, PartialEq, Eq, Structural)]
pub struct SaleOffset(pub i64);

impl Default for SaleOffset {
    fn default() -> (r: Self)
        ensures
            r == (SaleOffset { 0: 0i64 }),
    {
        SaleOffset(0)
    }
}

impl SaleOffset {
    pub fn new(offset: i64) -> (r: Self)
        ensures
            r.0 == offset,
    {
        SaleOffset(offset)
    }

    pub fn get(self) -> (r: i64)
        ensures
            r == self.0,
    {
        self.0
    }

    pub fn parse(value: Option<i64>) -> (r: Result<Self, &'static str>)
        ensures
            match positive_of(value, 0) {
                Some(v) => r == Ok::<SaleOffset, &'static str>(SaleOffset { 0: v }),
                None => (r matches Err(m) && m@ == "The offset value must be positive."@),
            },
    {
        match parse_positive(value, 0) {
            Some(v) => Ok(SaleOffset(v)),
            None => Err("The offset value must be positive."),
        }
    }
}

} // verus!
