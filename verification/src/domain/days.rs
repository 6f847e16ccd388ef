//! The `days` query parameter. Each route treats it under its own policy:
//! the paid-statistics route defaults it to one day, while the sales and
//! nft-token routes forbid it outright.

use vstd::prelude::*;
use crate::domain::{parse_positive, positive_of};

verus! {

/// Day window for the paid-statistics route. Absent means one day;
/// negative values are rejected.
#[derive(Debug, Clone, Copy, PartialEq, Eq, Structural)]
pub struct PaidDays(pub i64);

impl Default for PaidDays {
    /// An absent `days` falls back to a one-day window.
    fn default() -> (r: Self)
        ensures
            r == (PaidDays { 0: 1i64 }),
    {
        PaidDays(1)
    }
}

impl PaidDays {
    pub fn new(days: i64) -> (r: Self)
        ensures
            r.0 == days,
    {
        PaidDays(days)
    }

    pub fn get(&self) -> (r: i64)
        ensures
            r == self.0,
    {
        self.0
    }

    /// Validates a raw `days` value: absent means 1, negative is
    /// rejected, anything else is taken as given.
    pub fn parse(value: Option<i64>) -> (r: Result<Self, &'static str>)
        ensures
            match positive_of(value, 1) {
                Some(v) => r == Ok::<PaidDays, &'static str>(PaidDays { 0: v }),
                None => (r matches Err(m) && m@ == "The parsed value must be positive."@),
            },
    {
        match parse_positive(value, 1) {
            Some(v) => Ok(PaidDays(v)),
            None => Err("The parsed value must be positive."),
        }
    }
}

/// Marker for the sales route, where the `days` parameter is forbidden:
/// any present value is rejected regardless of its content.
#[derive(Debug, Clone, Copy)]
pub struct SaleDays;

impl SaleDays {
    /// Accepts only an absent `days` value.
    pub fn parse(days: Option<i64>) -> (r: Result<(), String>)
        ensures
            days is None <==> r is Ok,
            days is Some ==> (r matches Err(m) && m@
                == "query 'days' is prohibited for the `sales` route"@),
    {
        match days {
            None => Ok(()),
            Some(_) => Err(String::from_str("query 'days' is prohibited for the `sales` route")),
        }
    }
}

/// Marker for the nft-token route, where the `days` parameter is likewise
/// forbidden: any present value is rejected regardless of its content.
#[derive(Debug, Clone, Copy, Default)]
pub struct NftTokenDays;

impl NftTokenDays {
    /// Accepts only an absent `days` value.
    pub fn parse(days: Option<i64>) -> (r: Result<Self, &'static str>)
        ensures
            days is None <==> r is Ok,
            days is Some ==> (r matches Err(m) && m@
                == "query 'days' is prohibited for the `nft_tokens` route"@),
    {
        match days {
            None => Ok(NftTokenDays),
            Some(_) => Err("query 'days' is prohibited for the `nft_tokens` route"),
        }
    }
}

} // verus!
