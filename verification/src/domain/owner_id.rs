//! The `owner_id` query parameter: an optional NEAR-style account id.

use vstd::prelude::*;
use crate::domain::text::{check_account_id, trim_spec, trim_str, valid_account_id};

verus! {

/// Validation outcome for a raw `owner_id` value: absent stays absent; a
/// present value is trimmed and must then be 2 to 64 characters long and
/// shaped like a NEAR-style account id.
pub open spec fn owner_id_of(v: Option<Seq<char>>) -> Result<Option<Seq<char>>, Seq<char>> {
    match v {
        None => Ok(None),
        Some(s) => {
            let t = trim_spec(s);
            if t.len() < 2 {
                Err("User id `"@ + t + "` is too short (min 2)"@)
            } else if t.len() > 64 {
                Err("User id `"@ + t + "` is too long (max 64)"@)
            } else if !valid_account_id(t) {
                Err("User id `"@ + t + "` contains wrong chars."@)
            } else {
                Ok(Some(t))
            }
        },
    }
}

/// An optional owner account id, trimmed and pattern-checked once
/// constructed.
#[derive(Debug, Clone)]
pub struct NftTokenOwnerId(pub Option<String>);

impl View for NftTokenOwnerId {
    type V = Option<Seq<char>>;

    open spec fn view(&self) -> Option<Seq<char>> {
        match self.0 {
            None => None,
            Some(s) => Some(s@),
        }
    }
}

impl NftTokenOwnerId {
    /// Validates a raw `owner_id` value as `owner_id_of` describes.
    pub fn parse(owner_id: Option<&str>) -> (r: Result<Self, String>)
        ensures
            match owner_id_of(owner_id.deep_view()) {
                Ok(o) => (r matches Ok(t) && t@ == o),
                Err(m) => (r matches Err(e) && e@ == m),
            },
    {
        match owner_id {
            None => Ok(NftTokenOwnerId(None)),
            Some(v) => {
                let t = trim_str(v);
                let n = t.as_str().unicode_len();
                if n < 2 {
                    Err(
                        String::from_str("User id `").concat(t.as_str()).concat(
                            "` is too short (min 2)",
                        ),
                    )
                } else if n > 64 {
                    Err(
                        String::from_str("User id `").concat(t.as_str()).concat(
                            "` is too long (max 64)",
                        ),
                    )
                } else if !check_account_id(t.as_str()) {
                    Err(
                        String::from_str("User id `").concat(t.as_str()).concat(
                            "` contains wrong chars.",
                        ),
                    )
                } else {
                    Ok(NftTokenOwnerId(Some(t)))
                }
            },
        }
    }

    pub fn into_inner(self) -> (r: Option<String>)
        ensures
            r == self.0,
    {
        self.0
    }

    pub fn as_inner(&self) -> (r: Option<&str>)
        ensures
            match r {
                None => self@ is None,
                Some(s) => self@ == Some(s@),
            },
    {
        match &self.0 {
            None => None,
            Some(s) => Some(s.as_str()),
        }
    }
}

} // verus!
