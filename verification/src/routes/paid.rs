//! Filter assembly and trade statistics for the paid-statistics route.

use vstd::prelude::*;
use crate::domain::days::PaidDays;
use crate::domain::filters::PaidFilter;
use crate::domain::limit::Limit;
use crate::domain::offset::Offset;
use crate::domain::positive_of;
use crate::routes::PaginationQuery;

verus! {

/// Outcome of validating a raw query for the paid route, field by field
/// in the order limit, offset, days; the first failure wins.
pub open spec fn paid_filter_of(q: PaginationQuery) -> Result<(i64, i64, i64), Seq<char>> {
    match positive_of(q.limit, 100) {
        None => Err("The limit value must be positive."@),
        Some(l) => match positive_of(q.offset, 0) {
            None => Err("The offset value must be positive."@),
            Some(o) => match positive_of(q.days, 1) {
                None => Err("The parsed value must be positive."@),
                Some(d) => Ok((l, o, d)),
            },
        },
    }
}

impl PaidFilter {
    /// Validates a raw query into a paid filter as `paid_filter_of`
    /// describes, reporting only the first failing field.
    pub fn try_from(query: PaginationQuery) -> (r: Result<Self, String>)
        ensures
            match paid_filter_of(query) {
                Ok((l, o, d)) => (r matches Ok(f) && f.limit.0 == l && f.offset.0 == o && f.days.0
                    == d),
                Err(m) => (r matches Err(e) && e@ == m),
            },
    {
        let limit = match Limit::parse(query.limit) {
            Ok(l) => l,
            Err(m) => {
                return Err(String::from_str(m));
            },
        };
        let offset = match Offset::parse(query.offset) {
            Ok(o) => o,
            Err(m) => {
                return Err(String::from_str(m));
            },
        };
        let days = match PaidDays::parse(query.days) {
            Ok(d) => d,
            Err(m) => {
                return Err(String::from_str(m));
            },
        };
        Ok(PaidFilter { limit, offset, days })
    }
}

/// The largest price among the trades, 0 when there are none.
pub open spec fn max_price(s: Seq<u64>) -> int
    decreases s.len(),
{
    if s.len() == 0 {
        0
    } else {
        let m = max_price(s.drop_last());
        if s.last() > m {
            s.last() as int
        } else {
            m
        }
    }
}

/// The total volume of the trades.
pub open spec fn sum_prices(s: Seq<u64>) -> int
    decreases s.len(),
{
    if s.len() == 0 {
        0
    } else {
        sum_prices(s.drop_last()) + s.last()
    }
}

proof fn lemma_sum_prices_bound(s: Seq<u64>)
    ensures
        0 <= sum_prices(s) <= s.len() * u64::MAX,
    decreases s.len(),
{
    if s.len() > 0 {
        lemma_sum_prices_bound(s.drop_last());
        assert(s.len() * u64::MAX == (s.len() - 1) * u64::MAX + u64::MAX) by (nonlinear_arith);
    }
}

/// Scans the trade prices of one statistics window and reports the top
/// trade and the total trade volume.
pub fn calculate_report(trades: &Vec<u64>) -> (r: (u64, u128))
    ensures
        r.0 == max_price(trades@),
        r.1 == sum_prices(trades@),
{
    let mut top_trade: u64 = 0;
    let mut total_trade_volume: u128 = 0;
    let n = trades.len();
    let mut i: usize = 0;
    while i < n
        invariant
            0 <= i <= n,
            n == trades@.len(),
            top_trade == max_price(trades@.take(i as int)),
            total_trade_volume == sum_prices(trades@.take(i as int)),
        decreases n - i,
    {
        let price = trades[i];
        proof {
            assert(trades@.take(i + 1).drop_last() =~= trades@.take(i as int));
            assert(trades@.take(i + 1).last() == trades@[i as int]);
            lemma_sum_prices_bound(trades@.take(i as int));
            assert(trades@.take(i as int).len() * u64::MAX <= (u64::MAX as int) * (
            u64::MAX as int)) by (nonlinear_arith)
                requires
                    trades@.take(i as int).len() <= u64::MAX as int,
            ;
        }
        if price > top_trade {
            top_trade = price;
        }
        total_trade_volume = total_trade_volume + price as u128;
        i = i + 1;
    }
    proof {
        assert(trades@.take(n as int) =~= trades@);
    }
    (top_trade, total_trade_volume)
}

} // verus!
