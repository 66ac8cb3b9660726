//! What can go wrong around the dashboard.

use vstd::prelude::*;

verus! {

/// The kinds of failure. Each holds the words of the failure underneath it.
#[derive(Debug)]
pub enum AppError {
    /// The stored configuration could not be read.
    ConfigReadError(String),
    /// The stored configuration is not a configuration document.
    ConfigParseError(String),
    /// The market data provider failed: the network, the credentials or the symbol.
    ApiError(String),
    /// The terminal failed, or the configuration could not be written.
    Io(String),
}

impl AppError {
    /// The words that name the kind of failure.
    pub open spec fn spec_message(&self) -> Seq<char> {
        match self {
            AppError::ConfigReadError(_) => "Failed to read config file"@,
            AppError::ConfigParseError(_) => "Failed to parse config file"@,
            AppError::ApiError(_) => "Failed to fetch stock data"@,
            AppError::Io(_) => "IO Error"@,
        }
    }

    /// The words of the failure underneath.
    pub open spec fn spec_detail(&self) -> Seq<char> {
        match self {
            AppError::ConfigReadError(detail) => detail@,
            AppError::ConfigParseError(detail) => detail@,
            AppError::ApiError(detail) => detail@,
            AppError::Io(detail) => detail@,
        }
    }

    pub fn message(&self) -> (r: String)
        ensures
            r@ == self.spec_message(),
    {
        match self {
            AppError::ConfigReadError(_) => "Failed to read config file".to_owned(),
            AppError::ConfigParseError(_) => "Failed to parse config file".to_owned(),
            AppError::ApiError(_) => "Failed to fetch stock data".to_owned(),
            AppError::Io(_) => "IO Error".to_owned(),
        }
    }

    pub fn detail(&self) -> (r: &str)
        ensures
            r@ == self.spec_detail(),
    {
        match self {
            AppError::ConfigReadError(detail) => detail.as_str(),
            AppError::ConfigParseError(detail) => detail.as_str(),
            AppError::ApiError(detail) => detail.as_str(),
            AppError::Io(detail) => detail.as_str(),
        }
    }
}

} // verus!
