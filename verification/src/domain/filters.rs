//! Per-route filters: aggregates of validated parameters, built once per
//! request and handed to the data-access layer.

use vstd::prelude::*;
use crate::domain::limit::Limit;
use crate::domain::offset::Offset;
use crate::domain::days::PaidDays;
use crate::domain::owner_id::NftTokenOwnerId;
use crate::domain::token_id::{NftTokenTokenId, TokenId};

verus! {

/// Filter of the sales route: `{limit, offset, token_id}`.
#[derive(Debug, Clone)]
pub struct SaleFilter {
    pub limit: Limit,
    pub offset: Offset,
    pub token_id: TokenId,
}

impl SaleFilter {
    pub fn limit(&self) -> (r: i64)
        ensures
            r == self.limit.0,
    {
        self.limit.get()
    }

    pub fn offset(&self) -> (r: i64)
        ensures
            r == self.offset.0,
    {
        self.offset.get()
    }

    pub fn token_id(&self) -> (r: Option<&str>)
        ensures
            match r {
                None => self.token_id@ is None,
                Some(s) => self.token_id@ == Some(s@),
            },
    {
        self.token_id.as_inner()
    }
}

/// Filter of the asks route: `{limit, offset, token_id}`.
#[derive(Debug, Clone)]
pub struct AskFilter {
    pub limit: Limit,
    pub offset: Offset,
    pub token_id: TokenId,
}

impl AskFilter {
    pub fn limit(&self) -> (r: i64)
        ensures
            r == self.limit.0,
    {
        self.limit.get()
    }

    pub fn offset(&self) -> (r: i64)
        ensures
            r == self.offset.0,
    {
        self.offset.get()
    }

    pub fn token_id(&self) -> (r: Option<&str>)
        ensures
            match r {
                None => self.token_id@ is None,
                Some(s) => self.token_id@ == Some(s@),
            },
    {
        self.token_id.as_inner()
    }
}

/// Filter of the bids route: `{limit, offset, token_id}`.
#[derive(Debug, Clone)]
pub struct BidFilter {
    pub limit: Limit,
    pub offset: Offset,
    pub token_id: TokenId,
}

impl BidFilter {
    pub fn limit(&self) -> (r: i64)
        ensures
            r == self.limit.0,
    {
        self.limit.get()
    }

    pub fn offset(&self) -> (r: i64)
        ensures
            r == self.offset.0,
    {
        self.offset.get()
    }

    pub fn token_id(&self) -> (r: Option<&str>)
        ensures
            match r {
                None => self.token_id@ is None,
                Some(s) => self.token_id@ == Some(s@),
            },
    {
        self.token_id.as_inner()
    }
}

/// Filter of the paid-statistics route: `{limit, offset, days}`.
#[derive(Debug, Clone, Copy)]
pub struct PaidFilter {
    pub limit: Limit,
    pub offset: Offset,
    pub days: PaidDays,
}

impl PaidFilter {
    pub fn limit(&self) -> (r: i64)
        ensures
            r == self.limit.0,
    {
        self.limit.get()
    }

    pub fn offset(&self) -> (r: i64)
        ensures
            r == self.offset.0,
    {
        self.offset.get()
    }

    pub fn days(&self) -> (r: i64)
        ensures
            r == self.days.0,
    {
        self.days.get()
    }
}

/// Filter of the nft-token route: `{limit, offset, owner_id, token_id}`.
#[derive(Debug, Clone)]
pub struct NftTokenFilter {
    pub offset: Offset,
    pub limit: Limit,
    pub owner_id: NftTokenOwnerId,
    pub token_id: NftTokenTokenId,
}

impl NftTokenFilter {
    pub fn limit(&self) -> (r: i64)
        ensures
            r == self.limit.0,
    {
        self.limit.get()
    }

    pub fn offset(&self) -> (r: i64)
        ensures
            r == self.offset.0,
    {
        self.offset.get()
    }

    pub fn owner_id(&self) -> (r: Option<&str>)
        ensures
            match r {
                None => self.owner_id@ is None,
                Some(s) => self.owner_id@ == Some(s@),
            },
    {
        self.owner_id.as_inner()
    }

    pub fn token_id(&self) -> (r: Option<&str>)
        ensures
            match r {
                None => self.token_id@ is None,
                Some(s) => self.token_id@ == Some(s@),
            },
    {
        self.token_id.as_inner()
    }
}

} // verus!
