//! Error taxonomy of the API core: validation failures map to 400,
//! credential failures to 401, and everything unexpected to 500. Each
//! error can say its HTTP status and the message serialized to the
//! client.

use vstd::prelude::*;

verus! {

/// JSON error envelope `{"error": "<message>"}` sent to clients.
#[derive(Debug, Clone)]
pub struct JsonError {
    pub error: String,
}

impl JsonError {
    pub fn new(error: String) -> (r: Self)
        ensures
            r.error == error,
    {
        Self { error }
    }
}

/// Failures of the authentication pipeline. `BadRequest` is a malformed
/// `Authorization` header; `InvalidCredentials` covers both an unknown
/// username and a wrong password, deliberately indistinguishable; an
/// `UnexpectedError` is a store or hash-format fault. The carried string
/// is the underlying cause, kept for server-side logs only.
#[derive(Debug)]
pub enum AuthError {
    BadRequest(String),
    InvalidCredentials(String),
    UnexpectedError(String),
}

impl AuthError {
    /// HTTP status of the failure: 400, 401 or 500.
    pub fn status_code(&self) -> (r: u16)
        ensures
            r == match self {
                AuthError::BadRequest(_) => 400u16,
                AuthError::InvalidCredentials(_) => 401u16,
                AuthError::UnexpectedError(_) => 500u16,
            },
    {
        match self {
            AuthError::BadRequest(_) => 400,
            AuthError::InvalidCredentials(_) => 401,
            AuthError::UnexpectedError(_) => 500,
        }
    }

    /// The message serialized to the client. The stored cause never
    /// reaches it: an unknown username and a wrong password produce
    /// identical envelopes, and an unexpected fault shows only a fixed
    /// generic line.
    pub fn client_message(&self) -> (r: String)
        ensures
            r@ == match self {
                AuthError::BadRequest(_) => "Bad request"@,
                AuthError::InvalidCredentials(_) => "Invalid credentials"@,
                AuthError::UnexpectedError(_) => "An unexpected error occurred."@,
            },
    {
        match self {
            AuthError::BadRequest(_) => String::from_str("Bad request"),
            AuthError::InvalidCredentials(_) => String::from_str("Invalid credentials"),
            AuthError::UnexpectedError(_) => String::from_str("An unexpected error occurred."),
        }
    }
}

/// Failures of the sales route.
#[derive(Debug)]
pub enum SaleError {
    ValidationError(String),
    UnexpectedError(String),
}

impl SaleError {
    /// HTTP status of the failure: 400 or 500.
    pub fn status_code(&self) -> (r: u16)
        ensures
            r == match self {
                SaleError::ValidationError(_) => 400u16,
                SaleError::UnexpectedError(_) => 500u16,
            },
    {
        match self {
            SaleError::ValidationError(_) => 400,
            SaleError::UnexpectedError(_) => 500,
        }
    }

    /// The message serialized to the client: the validation text as
    /// stated, or a fixed generic line for an unexpected fault, whose
    /// cause stays server-side.
    pub fn client_message(&self) -> (r: String)
        ensures
            r@ == match self {
                SaleError::ValidationError(m) => m@,
                SaleError::UnexpectedError(_) => "An unexpected error occurred."@,
            },
    {
        match self {
            SaleError::ValidationError(m) => m.clone(),
            SaleError::UnexpectedError(_) => String::from_str("An unexpected error occurred."),
        }
    }
}

/// Failures of the asks route.
#[derive(Debug)]
pub enum AskError {
    ValidationError(String),
    UnexpectedError(String),
}

impl AskError {
    /// HTTP status of the failure: 400 or 500.
    pub fn status_code(&self) -> (r: u16)
        ensures
            r == match self {
                AskError::ValidationError(_) => 400u16,
                AskError::UnexpectedError(_) => 500u16,
            },
    {
        match self {
            AskError::ValidationError(_) => 400,
            AskError::UnexpectedError(_) => 500,
        }
    }

    /// The message serialized to the client: the validation text as
    /// stated, or a fixed generic line for an unexpected fault, whose
    /// cause stays server-side.
    pub fn client_message(&self) -> (r: String)
        ensures
            r@ == match self {
                AskError::ValidationError(m) => m@,
                AskError::UnexpectedError(_) => "An unexpected error occurred."@,
            },
    {
        match self {
            AskError::ValidationError(m) => m.clone(),
            AskError::UnexpectedError(_) => String::from_str("An unexpected error occurred."),
        }
    }
}

/// Failures of the bids route.
#[derive(Debug)]
pub enum BidError {
    ValidationError(String),
    UnexpectedError(String),
}

impl BidError {
    /// HTTP status of the failure: 400 or 500.
    pub fn status_code(&self) -> (r: u16)
        ensures
            r == match self {
                BidError::ValidationError(_) => 400u16,
                BidError::UnexpectedError(_) => 500u16,
            },
    {
        match self {
            BidError::ValidationError(_) => 400,
            BidError::UnexpectedError(_) => 500,
        }
    }

    /// The message serialized to the client: the validation text as
    /// stated, or a fixed generic line for an unexpected fault, whose
    /// cause stays server-side.
    pub fn client_message(&self) -> (r: String)
        ensures
            r@ == match self {
                BidError::ValidationError(m) => m@,
                BidError::UnexpectedError(_) => "An unexpected error occurred."@,
            },
    {
        match self {
            BidError::ValidationError(m) => m.clone(),
            BidError::UnexpectedError(_) => String::from_str("An unexpected error occurred."),
        }
    }
}

/// Failures of the paid-statistics route.
#[derive(Debug)]
pub enum PaidError {
    ValidationError(String),
    UnexpectedError(String),
}

impl PaidError {
    /// HTTP status of the failure: 400 or 500.
    pub fn status_code(&self) -> (r: u16)
        ensures
            r == match self {
                PaidError::ValidationError(_) => 400u16,
                PaidError::UnexpectedError(_) => 500u16,
            },
    {
        match self {
            PaidError::ValidationError(_) => 400,
            PaidError::UnexpectedError(_) => 500,
        }
    }

    /// The message serialized to the client: the validation text as
    /// stated, or a fixed generic line for an unexpected fault, whose
    /// cause stays server-side.
    pub fn client_message(&self) -> (r: String)
        ensures
            r@ == match self {
                PaidError::ValidationError(m) => m@,
                PaidError::UnexpectedError(_) => "An unexpected error occurred."@,
            },
    {
        match self {
            PaidError::ValidationError(m) => m.clone(),
            PaidError::UnexpectedError(_) => String::from_str("An unexpected error occurred."),
        }
    }
}

/// Failures of the nft-token route.
#[derive(Debug)]
pub enum NftTokensError {
    ValidationError(String),
    UnexpectedError(String),
}

impl NftTokensError {
    /// HTTP status of the failure: 400 or 500.
    pub fn status_code(&self) -> (r: u16)
        ensures
            r == match self {
                NftTokensError::ValidationError(_) => 400u16,
                NftTokensError::UnexpectedError(_) => 500u16,
            },
    {
        match self {
            NftTokensError::ValidationError(_) => 400,
            NftTokensError::UnexpectedError(_) => 500,
        }
    }

    /// The message serialized to the client: the validation text as
    /// stated, or a fixed generic line for an unexpected fault, whose
    /// cause stays server-side.
    pub fn client_message(&self) -> (r: String)
        ensures
            r@ == match self {
                NftTokensError::ValidationError(m) => m@,
                NftTokensError::UnexpectedError(_) => "An unexpected error occurred."@,
            },
    {
        match self {
            NftTokensError::ValidationError(m) => m.clone(),
            NftTokensError::UnexpectedError(_) => String::from_str("An unexpected error occurred."),
        }
    }
}

/// Failures of the token-ownership route.
#[derive(Debug)]
pub enum IsOwnerError {
    ValidationError(String),
    UnexpectedError(String),
}

impl IsOwnerError {
    /// HTTP status of the failure: 400 or 500.
    pub fn status_code(&self) -> (r: u16)
        ensures
            r == match self {
                IsOwnerError::ValidationError(_) => 400u16,
                IsOwnerError::UnexpectedError(_) => 500u16,
            },
    {
        match self {
            IsOwnerError::ValidationError(_) => 400,
            IsOwnerError::UnexpectedError(_) => 500,
        }
    }

    /// The message serialized to the client: the validation text as
    /// stated, or a fixed generic line for an unexpected fault, whose
    /// cause stays server-side.
    pub fn client_message(&self) -> (r: String)
        ensures
            r@ == match self {
                IsOwnerError::ValidationError(m) => m@,
                IsOwnerError::UnexpectedError(_) => "An unexpected error occurred."@,
            },
    {
        match self {
            IsOwnerError::ValidationError(m) => m.clone(),
            IsOwnerError::UnexpectedError(_) => String::from_str("An unexpected error occurred."),
        }
    }
}

/// Failures of the contracts route, which validates nothing itself.
#[derive(Debug)]
pub enum ContractError {
    UnexpectedError(String),
}

impl ContractError {
    /// HTTP status of the failure: always 500.
    pub fn status_code(&self) -> (r: u16)
        ensures
            r == 500u16,
    {
        match self {
            ContractError::UnexpectedError(_) => 500,
        }
    }

    /// The message serialized to the client: always the fixed generic
    /// line, the fault's cause staying server-side.
    pub fn client_message(&self) -> (r: String)
        ensures
            r@ == match self {
                ContractError::UnexpectedError(_) => "An unexpected error occurred."@,
            },
    {
        match self {
            ContractError::UnexpectedError(_) => String::from_str("An unexpected error occurred."),
        }
    }
}

} // verus!
