//! Filter assembly for the nft-token route.

use vstd::prelude::*;
use crate::domain::days::NftTokenDays;
use crate::domain::filters::NftTokenFilter;
use crate::domain::limit::Limit;
use crate::domain::offset::Offset;
use crate::domain::owner_id::{owner_id_of, NftTokenOwnerId};
use crate::domain::token_id::{token_id_of, NftTokenTokenId};
use crate::domain::positive_of;

verus! {

/// Raw, untrusted query parameters of the nft-token route.
#[derive(Debug, Clone)]
pub struct NftTokenQuery {
    pub days: Option<i64>,
    pub limit: Option<i64>,
    pub offset: Option<i64>,
    pub owner_id: Option<String>,
    pub token_id: Option<String>,
}

/// Outcome of validating a raw query for the nft-token route, field by
/// field in the order token id, owner id, limit, offset, days; the first
/// failure wins. The nft-token route forbids the `days` parameter.
pub open spec fn nft_token_filter_of(q: NftTokenQuery) -> Result<
    (Option<Seq<char>>, Option<Seq<char>>, i64, i64),
    Seq<char>,
> {
    match token_id_of(q.token_id.deep_view()) {
        Err(m) => Err(m),
        Ok(t) => match owner_id_of(q.owner_id.deep_view()) {
            Err(m) => Err(m),
            Ok(w) => match positive_of(q.limit, 100) {
                None => Err("The limit value must be positive."@),
                Some(l) => match positive_of(q.offset, 0) {
                    None => Err("The offset value must be positive."@),
                    Some(o) => if q.days is Some {
                        Err("query 'days' is prohibited for the `nft_tokens` route"@)
                    } else {
                        Ok((t, w, l, o))
                    },
                },
            },
        },
    }
}

impl NftTokenFilter {
    /// Validates a raw query into an nft-token filter as
    /// `nft_token_filter_of` describes, reporting only the first failing
    /// field.
    pub fn try_from(query: NftTokenQuery) -> (r: Result<Self, String>)
        ensures
            match nft_token_filter_of(query) {
                Ok((t, w, l, o)) => (r matches Ok(f) && f.token_id@ == t && f.owner_id@ == w
                    && f.limit.0 == l && f.offset.0 == o),
                Err(m) => (r matches Err(e) && e@ == m),
            },
    {
        let token_id = match NftTokenTokenId::parse(
            match &query.token_id {
                None => None,
                Some(s) => Some(s.as_str()),
            },
        ) {
            Ok(t) => t,
            Err(e) => {
                return Err(e);
            },
        };
        let owner_id = match NftTokenOwnerId::parse(
            match &query.owner_id {
                None => None,
                Some(s) => Some(s.as_str()),
            },
        ) {
            Ok(w) => w,
            Err(e) => {
                return Err(e);
            },
        };
        let limit = match Limit::parse(query.limit) {
            Ok(l) => l,
            Err(m) => {
                return Err(String::from_str(m));
            },
        };
        let offset = match Offset::parse(query.offset) {
            Ok(o) => o,
            Err(m) => {
                return Err(String::from_str(m));
            },
        };
        if let Err(m) = NftTokenDays::parse(query.days) {
            return Err(String::from_str(m));
        }
        Ok(NftTokenFilter { offset, limit, owner_id, token_id })
    }
}

} // verus!
