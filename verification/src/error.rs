//! Errors that the library's own checks produce.
use vstd::prelude::*;
use crate::text::push_str;

verus! {

/// A request that cannot be formed from its inputs.
#[derive(Debug, PartialEq, Eq)]
pub enum ClientError {
    /// A repository slug with fewer than two non-empty `/`-separated parts.
    InvalidSlug(String),
    /// An API base URL that does not parse, with the parse error's text.
    InvalidBaseUrl(String),
    /// An API base URL whose path cannot take segments.
    CannotBeABase,
    /// A token that cannot stand in an `Authorization` header, with the
    /// header error's text.
    InvalidToken(String),
}

/// The message that each error is reported with.
pub open spec fn error_message(e: ClientError) -> Seq<char> {
    match e {
        ClientError::InvalidSlug(slug) => "invalid repository slug: "@ + slug@,
        ClientError::InvalidBaseUrl(_) => "Invalid API base URL"@,
        ClientError::CannotBeABase => "base URL cannot be a base"@,
        ClientError::InvalidToken(_) => "Invalid token value for Authorization header"@,
    }
}

/// The error that caused each error, where one did.
pub open spec fn error_cause(e: ClientError) -> Option<Seq<char>> {
    match e {
        ClientError::InvalidBaseUrl(cause) => Some(cause@),
        ClientError::InvalidToken(cause) => Some(cause@),
        _ => None,
    }
}

impl ClientError {
    /// The text of the error that caused this one, where one did.
    pub fn cause(&self) -> (r: Option<String>)
        ensures
            match r {
                Some(c) => error_cause(*self) == Some(c@),
                None => error_cause(*self) is None,
            },
    {
        match self {
            ClientError::InvalidBaseUrl(cause) => Some(cause.clone()),
            ClientError::InvalidToken(cause) => Some(cause.clone()),
            _ => None,
        }
    }

    /// The message this error is reported with.
    pub fn message(&self) -> (r: String)
        ensures
            r@ == error_message(*self),
    {
        match self {
            ClientError::InvalidSlug(slug) => {
                let mut s = String::from_str("invalid repository slug: ");
                push_str(&mut s, slug.as_str());
                s
            },
            ClientError::InvalidBaseUrl(_) => String::from_str("Invalid API base URL"),
            ClientError::CannotBeABase => String::from_str("base URL cannot be a base"),
            ClientError::InvalidToken(_) => String::from_str(
                "Invalid token value for Authorization header",
            ),
        }
    }
}

} // verus!
