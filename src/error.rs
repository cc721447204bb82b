use vstd::prelude::*;

verus! {

/// The classified failure of a command.
#[derive(Debug, Clone, PartialEq, Eq)]
pub enum CliError {
    /// Network or I/O failure talking to the faucet or the confirmation endpoint.
    TransportError(String),
    /// The shared deadline elapsed before a transaction was confirmed.
    TimeoutError(String),
    /// An internal invariant failed (for instance the clock could not be read).
    UnexpectedError(String),
}

/// Mathematical model of a [`CliError`]: its kind and its description.
pub enum ErrorModel {
    Transport(Seq<char>),
    Timeout(Seq<char>),
    Unexpected(Seq<char>),
}

impl View for CliError {
    type V = ErrorModel;

    open spec fn view(&self) -> ErrorModel {
        match self {
            CliError::TransportError(m) => ErrorModel::Transport(m@),
            CliError::TimeoutError(m) => ErrorModel::Timeout(m@),
            CliError::UnexpectedError(m) => ErrorModel::Unexpected(m@),
        }
    }
}

impl CliError {
    /// The description carried by the error.
    pub fn message(&self) -> (r: &String)
        ensures
            r@ == match self@ {
                ErrorModel::Transport(m) => m,
                ErrorModel::Timeout(m) => m,
                ErrorModel::Unexpected(m) => m,
            },
    {
        match self {
            CliError::TransportError(m) => m,
            CliError::TimeoutError(m) => m,
            CliError::UnexpectedError(m) => m,
        }
    }

    /// True for a timeout.
    pub fn is_timeout(&self) -> (r: bool)
        ensures
            r == (self@ is Timeout),
    {
        match self {
            CliError::TimeoutError(_) => true,
            _ => false,
        }
    }
}

} // verus!
