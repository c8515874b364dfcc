//! One statement against the shared pool: what to run, and what to make of
//! the store's answer.

use vstd::prelude::*;
use crate::codec::{
    decode_rows, decoded_rows, encode_params, encoded_all, Binding, Bound, CellProbe, Probes,
};
use crate::error::{outcome_view, Failure, GatewayError};
use crate::store::{Store, StoreState};
use crate::value::{DynValue, Dynamic};

verus! {

/// One result row: a value per column, in the store's column order.
pub type Row = Vec<DynValue>;

/// The rows of one statement, in the store's order.
pub type ResultSet = Vec<Row>;

/// One row as the store handed it out, a probed cell per column.
pub type RawRow = Vec<CellProbe>;

/// What a [`ResultSet`] stands for.
pub type Rows = Seq<Seq<Dynamic>>;

/// What the store answered to one statement, as the gateway reads it.
pub type Fetched = Result<Seq<Seq<Probes>>, Seq<char>>;

/// A statement ready for the store: its text, untouched, and its positional
/// bindings.
#[derive(Debug, PartialEq)]
pub struct Statement {
    pub sql: String,
    pub bindings: Vec<Binding>,
}

/// What a [`Statement`] stands for.
#[verifier::ext_equal]
pub struct StatementModel {
    pub sql: Seq<char>,
    pub bindings: Seq<Bound>,
}

impl View for Statement {
    type V = StatementModel;

    open spec fn view(&self) -> StatementModel {
        StatementModel { sql: self.sql@, bindings: self.bindings.deep_view() }
    }
}

impl Clone for Statement {
    fn clone(&self) -> (copy: Statement)
        ensures
            copy@ == self@,
    {
        let copy = Statement { sql: self.sql.clone(), bindings: self.bindings.clone() };
        assert(copy.bindings.deep_view() =~= self.bindings.deep_view());
        copy
    }
}

impl DeepView for Statement {
    type V = StatementModel;

    open spec fn deep_view(&self) -> StatementModel {
        self@
    }
}

/// The statement that stands for a text and its parameters.
pub open spec fn bound(sql: Seq<char>, params: Seq<Dynamic>) -> StatementModel {
    StatementModel { sql, bindings: encoded_all(params) }
}

/// What a call for one statement asks of the store: nothing, unless the
/// handle is ready.
pub open spec fn prepared(state: StoreState, sql: Seq<char>, params: Seq<Dynamic>) -> Result<
    StatementModel,
    Failure,
> {
    if state == StoreState::Ready {
        Ok(bound(sql, params))
    } else {
        Err(Failure::StoreNotInitialized)
    }
}

/// What a call for one statement returns, given the store's answer: the
/// decoded rows, or the store's message as a statement failure.
pub open spec fn completed(answer: Fetched) -> Result<Rows, Failure> {
    match answer {
        Ok(rows) => Ok(decoded_rows(rows)),
        Err(message) => Err(Failure::Statement(message)),
    }
}

/// The store's answer to a statement, taken by what it stands for.
pub open spec fn fetched_view(answer: Result<Vec<RawRow>, String>) -> Fetched {
    match answer {
        Ok(rows) => Ok(rows.deep_view()),
        Err(message) => Err(message@),
    }
}

/// First half of a single-statement call. On a handle that is not ready it
/// fails at once, so that nothing reaches the store; on a ready handle it
/// yields the pool and the statement to run against it. The text is not
/// looked at, and the number of parameters is not held against it.
pub fn prepare<'a, H>(store: &'a Store<H>, sql: String, params: &Vec<DynValue>) -> (r: Result<
    (&'a H, Statement),
    GatewayError,
>)
    ensures
        match r {
            Ok((pool, statement)) => *store == Store::Ready(*pool) && prepared(
                store.state(),
                sql@,
                params.deep_view(),
            ) == Ok::<StatementModel, Failure>(statement@),
            Err(e) => prepared(store.state(), sql@, params.deep_view()) == Err::<
                StatementModel,
                Failure,
            >(e@),
        },
{
    match store.pool() {
        Err(e) => Err(e),
        Ok(pool) => Ok((pool, Statement { sql, bindings: encode_params(params) })),
    }
}

/// Second half of a single-statement call: the rows decoded, or the store's
/// failure passed on. A statement that gave no rows gives an empty set.
pub fn complete(answer: Result<Vec<RawRow>, String>) -> (r: Result<ResultSet, GatewayError>)
    ensures
        outcome_view(r) == completed(fetched_view(answer)),
{
    match answer {
        Ok(rows) => Ok(decode_rows(&rows)),
        Err(message) => Err(GatewayError::StatementError(message)),
    }
}

/// A statement that the store answers without rows, as it answers every
/// statement that is no query, returns an empty result set.
pub proof fn lemma_no_rows_empty_set()
    ensures
        completed(Ok(Seq::empty())) == Ok::<Rows, Failure>(Seq::empty()),
{
    assert(decoded_rows(Seq::empty()) =~= Seq::<Seq<Dynamic>>::empty());
}

} // verus!
