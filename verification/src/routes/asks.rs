//! Filter assembly for the asks route.

use vstd::prelude::*;
use crate::domain::filters::AskFilter;
use crate::domain::limit::Limit;
use crate::domain::offset::Offset;
use crate::domain::token_id::{token_id_of, TokenId};
use crate::domain::positive_of;
use crate::routes::PaginationQuery;

verus! {

/// Outcome of validating a raw query for the asks route, field by field
/// in the order token id, limit, offset; the first failure wins.
pub open spec fn ask_filter_of(q: PaginationQuery) -> Result<
    (Option<Seq<char>>, i64, i64),
    Seq<char>,
> {
    match token_id_of(q.token_id.deep_view()) {
        Err(m) => Err(m),
        Ok(t) => match positive_of(q.limit, 100) {
            None => Err("The limit value must be positive."@),
            Some(l) => match positive_of(q.offset, 0) {
                None => Err("The offset value must be positive."@),
                Some(o) => Ok((t, l, o)),
            },
        },
    }
}

impl AskFilter {
    /// Validates a raw query into an asks filter as `ask_filter_of`
    /// describes, reporting only the first failing field.
    pub fn try_from(query: PaginationQuery) -> (r: Result<Self, String>)
        ensures
            match ask_filter_of(query) {
                Ok((t, l, o)) => (r matches Ok(f) && f.token_id@ == t && f.limit.0 == l
                    && f.offset.0 == o),
                Err(m) => (r matches Err(e) && e@ == m),
            },
    {
        let token_id = match TokenId::parse(
            match &query.token_id {
                None => None,
                Some(s) => Some(s.as_str()),
            },
        ) {
            Ok(t) => t,
            Err(e) => {
                return Err(e);
            },
        };
        let limit = match Limit::parse(query.limit) {
            Ok(l) => l,
            Err(m) => {
                return Err(String::from_str(m));
            },
        };
        let offset = match Offset::parse(query.offset) {
            Ok(o) => o,
            Err(m) => {
                return Err(String::from_str(m));
            },
        };
        Ok(AskFilter { limit, offset, token_id })
    }
}

} // verus!
