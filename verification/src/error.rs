//! The ways a gateway call can fail.

use vstd::prelude::*;

verus! {

/// Why a call failed. Every failure ends the call that met it: nothing is
/// retried and no partial result is handed out.
#[derive(Debug, PartialEq)]
pub enum GatewayError {
    /// The store handle was not ready when the call came in.
    StoreNotInitialized,
    /// The store refused to prepare or run a statement; its message.
    StatementError(String),
    /// The store could not begin or commit a transaction; its message.
    TransactionError(String),
}

/// What a [`GatewayError`] stands for.
#[verifier::ext_equal]
pub enum Failure {
    StoreNotInitialized,
    Statement(Seq<char>),
    Transaction(Seq<char>),
}

impl View for GatewayError {
    type V = Failure;

    open spec fn view(&self) -> Failure {
        match *self {
            GatewayError::StoreNotInitialized => Failure::StoreNotInitialized,
            GatewayError::StatementError(m) => Failure::Statement(m@),
            GatewayError::TransactionError(m) => Failure::Transaction(m@),
        }
    }
}

impl Clone for GatewayError {
    fn clone(&self) -> (copy: GatewayError)
        ensures
            copy == *self,
    {
        match self {
            GatewayError::StoreNotInitialized => GatewayError::StoreNotInitialized,
            GatewayError::StatementError(m) => GatewayError::StatementError(m.clone()),
            GatewayError::TransactionError(m) => GatewayError::TransactionError(m.clone()),
        }
    }
}

impl DeepView for GatewayError {
    type V = Failure;

    open spec fn deep_view(&self) -> Failure {
        self@
    }
}

/// The text shown for a failure: a fixed sentence for a store that is not
/// ready, and otherwise the store's own message, unchanged.
pub open spec fn failure_text(failure: Failure) -> Seq<char> {
    match failure {
        Failure::StoreNotInitialized => "Database not initialized"@,
        Failure::Statement(m) => m,
        Failure::Transaction(m) => m,
    }
}

impl GatewayError {
    /// The failure as the one textual message that callers see.
    pub fn message(&self) -> (text: String)
        ensures
            text@ == failure_text(self@),
    {
        match self {
            GatewayError::StoreNotInitialized => "Database not initialized".to_owned(),
            GatewayError::StatementError(m) => m.clone(),
            GatewayError::TransactionError(m) => m.clone(),
        }
    }
}

/// A result with its success and its failure both taken by what they stand for.
pub open spec fn outcome_view<T: DeepView>(r: Result<T, GatewayError>) -> Result<T::V, Failure> {
    match r {
        Ok(t) => Ok(t.deep_view()),
        Err(e) => Err(e@),
    }
}

} // verus!
