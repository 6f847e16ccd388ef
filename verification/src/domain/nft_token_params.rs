//! Per-route aliases of the numeric parameters for the nft-token route.
//! They share the validation core and differ only in name.

use vstd::prelude::*;
use crate::domain::{parse_positive, positive_of};

verus! {

/// `limit` parameter of the nft-token route; non-negative, defaults to 100.
#[derive(Debug, Clone, Copy, PartialEq, Eq, Structural)]
pub struct NftTokenLimit(pub i64);

impl Default for NftTokenLimit {
    fn default() -> (r: Self)
        ensures
            r == (NftTokenLimit { 0: 100i64 }),
    {
        NftTokenLimit(100)
    }
}

impl NftTokenLimit {
    pub fn new(value: i64) -> (r: Self)
        ensures
            r.0 == value,
    {
        NftTokenLimit(value)
    }

    pub fn get(self) -> (r: i64)
        ensures
            r == self.0,
    {
        self.0
    }

    pub fn parse(value: Option<i64>) -> (r: Result<Self, &'static str>)
        ensures
            match positive_of(value, 100) {
                Some(v) => r == Ok::<NftTokenLimit, &'static str>(NftTokenLimit { 0: v }),
                None => (r matches Err(m) && m@ == "The limit value must be positive."@),
            },
    {
        match parse_positive(value, 100) {
            Some(v) => Ok(NftTokenLimit(v)),
            None => Err("The limit value must be positive."),
        }
    }
}

/// `offset` parameter of the nft-token route; non-negative, defaults to 0.
#[derive(Debug, Clone, Copy, PartialEq, Eq, Structural)]
pub struct NftTokenOffset(pub i64);

impl Default for NftTokenOffset {
    fn default() -> (r: Self)
        ensures
            r == (NftTokenOffset { 0: 0i64 }),
    {
        NftTokenOffset(0)
    }
}

impl NftTokenOffset {
    pub fn new(offset: i64) -> (r: Self)
        ensures
            r.0 == offset,
    {
        NftTokenOffset(offset)
    }

    pub fn get(self) -> (r: i64)
        ensures
            r == self.0,
    {
        self.0
    }

    pub fn parse(value: Option<i64>) -> (r: Result<Self, &'static str>)
        ensures
            match positive_of(value, 0) {
                Some(v) => r == Ok::<NftTokenOffset, &'static str>(NftTokenOffset { 0: v }),
                None => (r matches Err(m) && m@ == "The offset value must be positive."@),
            },
    {
        match parse_positive(value, 0) {
            Some(v) => Ok(NftTokenOffset(v)),
            None => Err("The offset value must be positive."),
        }
    }
}

} // verus!
