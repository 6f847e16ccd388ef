//! The `token_id` query parameter: an optional decimal token identifier.

use vstd::prelude::*;
use crate::domain::text::{all_digit_chars, check_all_digits, trim_spec, trim_str};

verus! {

/// Validation outcome for a raw `token_id` value: absent stays absent; a
/// present value is trimmed and must then be a non-empty string of ASCII
/// digits.
pub open spec fn token_id_of(v: Option<Seq<char>>) -> Result<Option<Seq<char>>, Seq<char>> {
    match v {
        None => Ok(None),
        Some(s) => {
            let t = trim_spec(s);
            if t.len() == 0 {
                Err("Token id is empty"@)
            } else if !all_digit_chars(t) {
                Err("The token id must contain only digits"@)
            } else {
                Ok(Some(t))
            }
        },
    }
}

/// An optional token id, trimmed and all digits once constructed.
#[derive(Debug, Clone)]
pub struct TokenId(pub Option<String>);

impl View for TokenId {
    type V = Option<Seq<char>>;

    open spec fn view(&self) -> Option<Seq<char>> {
        match self.0 {
            None => None,
            Some(s) => Some(s@),
        }
    }
}

impl TokenId {
    /// Validates a raw `token_id` value as `token_id_of` describes.
    pub fn parse(token_id: Option<&str>) -> (r: Result<Self, String>)
        ensures
            match token_id_of(token_id.deep_view()) {
                Ok(o) => (r matches Ok(t) && t@ == o),
                Err(m) => (r matches Err(e) && e@ == m),
            },
    {
        match token_id {
            None => Ok(TokenId(None)),
            Some(v) => {
                let t = trim_str(v);
                if t.as_str().unicode_len() == 0 {
                    Err(String::from_str("Token id is empty"))
                } else if !check_all_digits(t.as_str()) {
                    Err(String::from_str("The token id must contain only digits"))
                } else {
                    Ok(TokenId(Some(t)))
                }
            },
        }
    }

    pub fn into_inner(self) -> (r: Option<String>)
        ensures
            r == self.0,
    {
        self.0
    }

    pub fn as_inner(&self) -> (r: Option<&str>)
        ensures
            match r {
                None => self@ is None,
                Some(s) => self@ == Some(s@),
            },
    {
        match &self.0 {
            None => None,
            Some(s) => Some(s.as_str()),
        }
    }
}

/// The nft-token route's alias of [`TokenId`]: same policy, same messages.
#[derive(Debug, Clone)]
pub struct NftTokenTokenId(pub Option<String>);

impl View for NftTokenTokenId {
    type V = Option<Seq<char>>;

    open spec fn view(&self) -> Option<Seq<char>> {
        match self.0 {
            None => None,
            Some(s) => Some(s@),
        }
    }
}

impl NftTokenTokenId {
    /// Validates a raw `token_id` value as `token_id_of` describes.
    pub fn parse(token_id: Option<&str>) -> (r: Result<Self, String>)
        ensures
            match token_id_of(token_id.deep_view()) {
                Ok(o) => (r matches Ok(t) && t@ == o),
                Err(m) => (r matches Err(e) && e@ == m),
            },
    {
        match token_id {
            None => Ok(NftTokenTokenId(None)),
            Some(v) => {
                let t = trim_str(v);
                if t.as_str().unicode_len() == 0 {
                    Err(String::from_str("Token id is empty"))
                } else if !check_all_digits(t.as_str()) {
                    Err(String::from_str("The token id must contain only digits"))
                } else {
                    Ok(NftTokenTokenId(Some(t)))
                }
            },
        }
    }

    pub fn into_inner(self) -> (r: Option<String>)
        ensures
            r == self.0,
    {
        self.0
    }

    pub fn as_inner(&self) -> (r: Option<&str>)
        ensures
            match r {
                None => self@ is None,
                Some(s) => self@ == Some(s@),
            },
    {
        match &self.0 {
            None => None,
            Some(s) => Some(s.as_str()),
        }
    }
}

} // verus!
