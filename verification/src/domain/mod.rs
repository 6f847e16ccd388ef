//! Validated query parameters: every type here is built through a `parse`
//! operation and, once constructed, satisfies its policy.

use vstd::prelude::*;

pub mod days;
pub mod filters;
pub mod limit;
pub mod nft_token_params;
pub mod offset;
pub mod owner_id;
pub mod paid_params;
pub mod sale_params;
pub mod text;
pub mod token_id;

pub use days::NftTokenDays;
pub use days::PaidDays;
pub use days::SaleDays;
pub use filters::AskFilter;
pub use filters::BidFilter;
pub use filters::NftTokenFilter;
pub use filters::PaidFilter;
pub use filters::SaleFilter;
pub use limit::Limit;
pub use nft_token_params::NftTokenLimit;
pub use nft_token_params::NftTokenOffset;
pub use offset::Offset;
pub use owner_id::NftTokenOwnerId;
pub use paid_params::PaidLimit;
pub use paid_params::PaidOffset;
pub use sale_params::SaleLimit;
pub use sale_params::SaleOffset;
pub use token_id::NftTokenTokenId;
pub use token_id::TokenId;

verus! {

/// Outcome of validating an optional integer against a "non-negative with
/// default" policy: an absent value yields the policy's default, a negative
/// value is rejected, and any other value is taken as given.
pub open spec fn positive_of(value: Option<i64>, default: i64) -> Option<i64> {
    match value {
        None => Some(default),
        Some(v) => if v < 0 {
            None
        } else {
            Some(v)
        },
    }
}

/// Shared validation core for every numeric field policy: `None` becomes
/// `Some(default)`, a negative value becomes `None`, and a non-negative
/// value is passed through unchanged.
pub fn parse_positive(value: Option<i64>, default: i64) -> (r: Option<i64>)
    ensures
        r == positive_of(value, default),
{
    match value {
        None => Some(default),
        Some(v) => {
            if v < 0 {
                None
            } else {
                Some(v)
            }
        },
    }
}

/// Laws of every numeric field policy, for any default the policy
/// carries: an absent value parses to the default, a value below the
/// minimum of zero is rejected, and any other value parses to itself.
pub proof fn lemma_positive_policy(value: Option<i64>, default: i64)
    ensures
        positive_of(None, default) == Some(default),
        value matches Some(v) ==> (if v < 0 {
            positive_of(value, default) is None
        } else {
            positive_of(value, default) == Some(v)
        }),
{
}

} // verus!
