//! A batch of statements inside one transaction, all or nothing.
//!
//! The caller owns the transaction and the store; this module decides, after
//! each answer of the store, what comes next. A batch is [`open`]ed, learns
//! that its transaction [`began`](Opening::began), has each statement
//! [`fetched`](Running::fetched) in order, and ends when its transaction is
//! [`committed`](Committing::committed). Every step that fails hands back the
//! failure and nothing else: the caller is left without a batch to go on
//! with, and releases the transaction uncommitted.

use vstd::prelude::*;
use crate::codec::{decode_rows, decoded_rows, encode_params};
use crate::error::{outcome_view, Failure, GatewayError};
use crate::statement::{
    bound, completed, fetched_view, prepared, Fetched, RawRow, ResultSet, Rows, Statement,
    StatementModel,
};
use crate::store::{Store, StoreState};
use crate::value::{DynValue, Dynamic};

verus! {

/// One statement of a batch.
#[derive(Debug, PartialEq)]
pub struct BatchItem {
    pub sql: String,
    pub params: Vec<DynValue>,
    /// A label from the caller. It is carried along and never read.
    pub method: String,
}

/// What a [`BatchItem`] stands for.
#[verifier::ext_equal]
pub struct ItemModel {
    pub sql: Seq<char>,
    pub params: Seq<Dynamic>,
    pub method: Seq<char>,
}

impl View for BatchItem {
    type V = ItemModel;

    open spec fn view(&self) -> ItemModel {
        ItemModel { sql: self.sql@, params: self.params.deep_view(), method: self.method@ }
    }
}

impl Clone for BatchItem {
    fn clone(&self) -> (copy: BatchItem)
        ensures
            copy@ == self@,
    {
        let copy = BatchItem {
            sql: self.sql.clone(),
            params: self.params.clone(),
            method: self.method.clone(),
        };
        assert(copy.params.deep_view() =~= self.params.deep_view());
        copy
    }
}

impl DeepView for BatchItem {
    type V = ItemModel;

    open spec fn deep_view(&self) -> ItemModel {
        self@
    }
}

/// What the store answered to a request to begin or to commit.
pub type Acknowledged = Result<(), Seq<char>>;

/// The answer to a begin or a commit, taken by what it stands for. What a
/// success brings with it, such as the transaction, is left out.
pub open spec fn acknowledged_view<T>(answer: Result<T, String>) -> Acknowledged {
    match answer {
        Ok(_) => Ok(()),
        Err(message) => Err(message@),
    }
}

/// A batch inside its transaction: the statements, and the result sets of
/// those that have run.
#[verifier::ext_equal]
pub struct RunningModel {
    pub items: Seq<ItemModel>,
    pub done: Seq<Rows>,
}

/// Where a batch stands between two answers of the store.
#[verifier::ext_equal]
pub enum Stage {
    /// The next statement is to run inside the transaction.
    Run(RunningModel),
    /// Every statement has run; the transaction is to be committed.
    Commit(Seq<Rows>),
}

/// The statement that a running batch asks the store to run next.
pub open spec fn next_statement(batch: RunningModel) -> StatementModel {
    let item = batch.items[batch.done.len() as int];
    bound(item.sql, item.params)
}

/// What a batch call does first: on a handle that is not ready it fails, and
/// asks for no transaction.
pub open spec fn opened(state: StoreState, items: Seq<ItemModel>) -> Result<
    Seq<ItemModel>,
    Failure,
> {
    if state == StoreState::Ready {
        Ok(items)
    } else {
        Err(Failure::StoreNotInitialized)
    }
}

/// The stage after the store answered the request to begin.
pub open spec fn began(items: Seq<ItemModel>, answer: Acknowledged) -> Result<Stage, Failure> {
    match answer {
        Err(message) => Err(Failure::Transaction(message)),
        Ok(()) => if items.len() == 0 {
            Ok(Stage::Commit(Seq::empty()))
        } else {
            Ok(Stage::Run(RunningModel { items, done: Seq::empty() }))
        },
    }
}

/// The stage after the store answered the current statement.
pub open spec fn fetched(batch: RunningModel, answer: Fetched) -> Result<Stage, Failure> {
    match answer {
        Err(message) => Err(Failure::Statement(message)),
        Ok(rows) => {
            let done = batch.done.push(decoded_rows(rows));
            if done.len() < batch.items.len() {
                Ok(Stage::Run(RunningModel { items: batch.items, done }))
            } else {
                Ok(Stage::Commit(done))
            }
        },
    }
}

/// What the call returns after the store answered the request to commit.
pub open spec fn committed(results: Seq<Rows>, answer: Acknowledged) -> Result<
    Seq<Rows>,
    Failure,
> {
    match answer {
        Ok(()) => Ok(results),
        Err(message) => Err(Failure::Transaction(message)),
    }
}

/// A batch that has asked for its transaction.
pub struct Opening {
    items: Vec<BatchItem>,
}

/// A batch inside its transaction, with at least one statement still to run.
pub struct Running {
    items: Vec<BatchItem>,
    done: Vec<ResultSet>,
}

/// A batch whose statements have all run, waiting for the commit.
pub struct Committing {
    results: Vec<ResultSet>,
}

/// What the caller does next with the transaction.
pub enum Progress {
    /// Run [`Running::statement`] inside the transaction and report the rows.
    Run(Running),
    /// Commit the transaction and report how that went.
    Commit(Committing),
}

impl View for Opening {
    type V = Seq<ItemModel>;

    closed spec fn view(&self) -> Seq<ItemModel> {
        self.items.deep_view()
    }
}

impl DeepView for Opening {
    type V = Seq<ItemModel>;

    open spec fn deep_view(&self) -> Seq<ItemModel> {
        self@
    }
}

impl View for Running {
    type V = RunningModel;

    closed spec fn view(&self) -> RunningModel {
        RunningModel { items: self.items.deep_view(), done: self.done.deep_view() }
    }
}

impl View for Committing {
    type V = Seq<Rows>;

    closed spec fn view(&self) -> Seq<Rows> {
        self.results.deep_view()
    }
}

impl View for Progress {
    type V = Stage;

    open spec fn view(&self) -> Stage {
        match *self {
            Progress::Run(running) => Stage::Run(running@),
            Progress::Commit(committing) => Stage::Commit(committing@),
        }
    }
}

impl DeepView for Progress {
    type V = Stage;

    open spec fn deep_view(&self) -> Stage {
        self@
    }
}

/// Starts a batch call. On a handle that is not ready it fails at once, so
/// that no transaction is asked for; on a ready handle it yields the pool,
/// on which the caller begins a transaction and reports to
/// [`Opening::began`].
pub fn open<'a, H>(store: &'a Store<H>, items: Vec<BatchItem>) -> (r: Result<
    (&'a H, Opening),
    GatewayError,
>)
    ensures
        match r {
            Ok((pool, opening)) => *store == Store::Ready(*pool) && opened(
                store.state(),
                items.deep_view(),
            ) == Ok::<Seq<ItemModel>, Failure>(opening@),
            Err(e) => opened(store.state(), items.deep_view()) == Err::<Seq<ItemModel>, Failure>(
                e@,
            ),
        },
{
    match store.pool() {
        Err(e) => Err(e),
        Ok(pool) => Ok((pool, Opening { items })),
    }
}

impl Opening {
    /// Takes the store's answer to the request to begin, which on success
    /// holds the transaction. A transaction that did not begin fails the
    /// call; one that did is handed back, to run the first statement in, or
    /// to be committed at once where the batch is empty.
    pub fn began<T>(self, answer: Result<T, String>) -> (r: Result<(T, Progress), GatewayError>)
        ensures
            match r {
                Ok((transaction, progress)) => answer == Ok::<T, String>(transaction) && began(
                    self@,
                    acknowledged_view(answer),
                ) == Ok::<Stage, Failure>(progress@),
                Err(e) => began(self@, acknowledged_view(answer)) == Err::<Stage, Failure>(e@),
            },
    {
        match answer {
            Err(message) => Err(GatewayError::TransactionError(message)),
            Ok(transaction) => {
                let none: Vec<ResultSet> = Vec::new();
                assert(none.deep_view() =~= Seq::<Rows>::empty());
                if self.items.len() == 0 {
                    Ok((transaction, Progress::Commit(Committing { results: none })))
                } else {
                    Ok((transaction, Progress::Run(Running { items: self.items, done: none })))
                }
            },
        }
    }
}

impl Running {
    #[verifier::type_invariant]
    spec fn statement_ahead(self) -> bool {
        self.done.len() < self.items.len()
    }

    /// The statement to run next: the first one that has not run, bound as a
    /// single-statement call binds it.
    pub fn statement(&self) -> (s: Statement)
        ensures
            s@ == next_statement(self@),
    {
        proof {
            use_type_invariant(self);
        }
        let item = &self.items[self.done.len()];
        Statement { sql: item.sql.clone(), bindings: encode_params(&item.params) }
    }

    /// Takes the store's answer to the current statement. Rows are decoded
    /// and kept, and the batch moves to its next statement, or to the commit
    /// after the last one. A failure ends the batch: what had been kept is
    /// dropped, and no commit will be asked for.
    pub fn fetched(self, answer: Result<Vec<RawRow>, String>) -> (r: Result<
        Progress,
        GatewayError,
    >)
        ensures
            outcome_view(r) == fetched(self@, fetched_view(answer)),
    {
        match answer {
            Err(message) => Err(GatewayError::StatementError(message)),
            Ok(rows) => {
                let ghost before = self.done.deep_view();
                let set = decode_rows(&rows);
                let items = self.items;
                let mut done = self.done;
                done.push(set);
                assert(done.deep_view() =~= before.push(decoded_rows(rows.deep_view())));
                if done.len() < items.len() {
                    Ok(Progress::Run(Running { items, done }))
                } else {
                    Ok(Progress::Commit(Committing { results: done }))
                }
            },
        }
    }
}

impl Committing {
    /// Takes the store's answer to the request to commit, and ends the call:
    /// with one result set per statement, in the order of the statements, or
    /// with the failure of the commit.
    pub fn committed(self, answer: Result<(), String>) -> (r: Result<
        Vec<ResultSet>,
        GatewayError,
    >)
        ensures
            outcome_view(r) == committed(self@, acknowledged_view(answer)),
    {
        match answer {
            Ok(()) => Ok(self.results),
            Err(message) => Err(GatewayError::TransactionError(message)),
        }
    }
}

/// What the store answers, or would answer, in the course of one batch call:
/// to the request to begin, to each statement by its position, and to the
/// request to commit.
pub struct Script {
    pub begin: Acknowledged,
    pub fetches: Seq<Fetched>,
    pub commit: Acknowledged,
}

/// How many answers a batch at this stage can still take.
pub open spec fn steps_left(stage: Stage) -> nat {
    match stage {
        Stage::Commit(_) => 0,
        Stage::Run(batch) => if batch.done.len() < batch.items.len() {
            (batch.items.len() - batch.done.len()) as nat
        } else {
            1
        },
    }
}

/// How a call that stands at `stage` ends, the store answering by the script.
pub open spec fn finished(stage: Stage, script: Script) -> Result<Seq<Rows>, Failure>
    decreases steps_left(stage),
{
    match stage {
        Stage::Commit(results) => committed(results, script.commit),
        Stage::Run(batch) => match script.fetches[batch.done.len() as int] {
            Err(message) => Err(Failure::Statement(message)),
            Ok(rows) => finished(fetched(batch, Ok(rows))->Ok_0, script),
        },
    }
}

/// Whether a call that stands at `stage` comes to ask for the commit.
pub open spec fn commit_asked(stage: Stage, script: Script) -> bool
    decreases steps_left(stage),
{
    match stage {
        Stage::Commit(_) => true,
        Stage::Run(batch) => match script.fetches[batch.done.len() as int] {
            Err(_) => false,
            Ok(rows) => commit_asked(fetched(batch, Ok(rows))->Ok_0, script),
        },
    }
}

/// How a whole batch call ends.
pub open spec fn batch_result(state: StoreState, items: Seq<ItemModel>, script: Script) -> Result<
    Seq<Rows>,
    Failure,
> {
    match opened(state, items) {
        Err(failure) => Err(failure),
        Ok(items) => match began(items, script.begin) {
            Err(failure) => Err(failure),
            Ok(stage) => finished(stage, script),
        },
    }
}

/// Whether a whole batch call comes to ask for the commit.
pub open spec fn batch_commits(state: StoreState, items: Seq<ItemModel>, script: Script) -> bool {
    match opened(state, items) {
        Err(_) => false,
        Ok(items) => match began(items, script.begin) {
            Err(_) => false,
            Ok(stage) => commit_asked(stage, script),
        },
    }
}

/// Whether the script holds one answer for each statement of the batch.
pub open spec fn answers_each(script: Script, items: Seq<ItemModel>) -> bool {
    script.fetches.len() == items.len()
}

/// Whether the store answers every statement of the batch with rows.
pub open spec fn all_fetched(script: Script) -> bool {
    forall|i: int| 0 <= i < script.fetches.len() ==> (#[trigger] script.fetches[i]) is Ok
}

/// The result sets of a batch whose statements all succeed.
pub open spec fn all_decoded(script: Script) -> Seq<Rows> {
    Seq::new(script.fetches.len(), |i: int| decoded_rows(script.fetches[i]->Ok_0))
}

proof fn lemma_run_to_commit(batch: RunningModel, script: Script)
    requires
        answers_each(script, batch.items),
        batch.done.len() < batch.items.len(),
        batch.done == all_decoded(script).take(batch.done.len() as int),
        forall|i: int|
            batch.done.len() <= i < batch.items.len() ==> (#[trigger] script.fetches[i]) is Ok,
    ensures
        finished(Stage::Run(batch), script) == committed(all_decoded(script), script.commit),
        commit_asked(Stage::Run(batch), script),
    decreases batch.items.len() - batch.done.len(),
{
    let d = batch.done.len() as int;
    let all = all_decoded(script);
    assert(script.fetches[d] is Ok);
    let done = batch.done.push(decoded_rows(script.fetches[d]->Ok_0));
    assert(done =~= all.take(d + 1));
    if done.len() < batch.items.len() {
        let next = RunningModel { items: batch.items, done };
        lemma_run_to_commit(next, script);
        assert(fetched(batch, script.fetches[d]) == Ok::<Stage, Failure>(Stage::Run(next)));
    } else {
        assert(done =~= all);
        assert(fetched(batch, script.fetches[d]) == Ok::<Stage, Failure>(Stage::Commit(done)));
        assert(finished(Stage::Commit(done), script) == committed(all, script.commit));
        assert(commit_asked(Stage::Commit(done), script));
    }
}

proof fn lemma_run_to_failure(batch: RunningModel, script: Script, k: int)
    requires
        answers_each(script, batch.items),
        batch.done.len() <= k < batch.items.len(),
        script.fetches[k] is Err,
        forall|i: int| batch.done.len() <= i < k ==> (#[trigger] script.fetches[i]) is Ok,
    ensures
        finished(Stage::Run(batch), script) == Err::<Seq<Rows>, Failure>(
            Failure::Statement(script.fetches[k]->Err_0),
        ),
        !commit_asked(Stage::Run(batch), script),
    decreases k - batch.done.len(),
{
    let d = batch.done.len() as int;
    if d < k {
        assert(script.fetches[d] is Ok);
        let done = batch.done.push(decoded_rows(script.fetches[d]->Ok_0));
        let next = RunningModel { items: batch.items, done };
        lemma_run_to_failure(next, script, k);
        assert(fetched(batch, script.fetches[d]) == Ok::<Stage, Failure>(Stage::Run(next)));
    }
}

/// The position of the first answer from `from` on that is a failure, or
/// the number of answers where there is none.
spec fn first_failure(script: Script, from: int) -> int
    decreases script.fetches.len() - from,
{
    if from >= script.fetches.len() || script.fetches[from] is Err {
        from
    } else {
        first_failure(script, from + 1)
    }
}

proof fn lemma_first_failure(script: Script, from: int)
    requires
        0 <= from <= script.fetches.len(),
    ensures
        from <= first_failure(script, from) <= script.fetches.len(),
        forall|i: int|
            from <= i < first_failure(script, from) ==> (#[trigger] script.fetches[i]) is Ok,
        first_failure(script, from) < script.fetches.len() ==> script.fetches[first_failure(
            script,
            from,
        )] is Err,
    decreases script.fetches.len() - from,
{
    if from < script.fetches.len() && script.fetches[from] is Ok {
        lemma_first_failure(script, from + 1);
    }
}

/// A batch whose transaction begins, whose statements all succeed and whose
/// commit succeeds returns one result set per statement, in the order of
/// the statements, and each is what a single-statement call makes of the
/// same answer of the store.
pub proof fn lemma_batch_in_order(items: Seq<ItemModel>, script: Script)
    requires
        answers_each(script, items),
        script.begin is Ok,
        all_fetched(script),
        script.commit is Ok,
    ensures
        batch_result(StoreState::Ready, items, script) matches Ok(results) && {
            &&& results.len() == items.len()
            &&& forall|i: int|
                0 <= i < items.len() ==> Ok::<Rows, Failure>(#[trigger] results[i]) == completed(
                    script.fetches[i],
                )
        },
{
    let all = all_decoded(script);
    if items.len() == 0 {
        assert(all =~= Seq::<Rows>::empty());
    } else {
        let batch = RunningModel { items, done: Seq::empty() };
        assert(batch.done =~= all.take(0));
        lemma_run_to_commit(batch, script);
    }
    assert(batch_result(StoreState::Ready, items, script) == Ok::<Seq<Rows>, Failure>(all));
    assert forall|i: int| 0 <= i < items.len() implies Ok::<Rows, Failure>(#[trigger] all[i])
        == completed(script.fetches[i]) by {
        assert(script.fetches[i] is Ok);
    }
}

/// A batch is all or nothing. It asks for the commit exactly when the handle
/// is ready, the transaction began and every statement succeeded; and it
/// succeeds exactly when, besides, the commit did.
pub proof fn lemma_all_or_nothing(state: StoreState, items: Seq<ItemModel>, script: Script)
    requires
        answers_each(script, items),
    ensures
        batch_commits(state, items, script) <==> state == StoreState::Ready && script.begin is Ok
            && all_fetched(script),
        batch_result(state, items, script) is Ok <==> batch_commits(state, items, script)
            && script.commit is Ok,
{
    if state == StoreState::Ready && script.begin is Ok {
        if items.len() > 0 {
            let batch = RunningModel { items, done: Seq::empty() };
            lemma_first_failure(script, 0);
            let k = first_failure(script, 0);
            if k < items.len() {
                lemma_run_to_failure(batch, script, k);
            } else {
                assert(batch.done =~= all_decoded(script).take(0));
                lemma_run_to_commit(batch, script);
            }
        }
    }
}

/// A batch in which a statement fails ends with the failure of the first
/// such statement, whatever the store would have answered to a commit: none
/// is asked for.
pub proof fn lemma_first_failure_ends_batch(items: Seq<ItemModel>, script: Script, k: int)
    requires
        answers_each(script, items),
        script.begin is Ok,
        0 <= k < items.len(),
        script.fetches[k] is Err,
        forall|i: int| 0 <= i < k ==> (#[trigger] script.fetches[i]) is Ok,
    ensures
        batch_result(StoreState::Ready, items, script) == Err::<Seq<Rows>, Failure>(
            Failure::Statement(script.fetches[k]->Err_0),
        ),
        !batch_commits(StoreState::Ready, items, script),
{
    lemma_run_to_failure(RunningModel { items, done: Seq::empty() }, script, k);
}

/// A handle that is not ready fails every call, of either kind, before
/// anything is asked of the store: there is no statement to run and no
/// transaction to begin.
pub proof fn lemma_unready_store_is_not_reached(
    state: StoreState,
    sql: Seq<char>,
    params: Seq<Dynamic>,
    items: Seq<ItemModel>,
)
    requires
        state != StoreState::Ready,
    ensures
        prepared(state, sql, params) == Err::<StatementModel, Failure>(
            Failure::StoreNotInitialized,
        ),
        opened(state, items) == Err::<Seq<ItemModel>, Failure>(Failure::StoreNotInitialized),
{
}

/// The statement that a running batch hands to the store is the one that a
/// single-statement call would run for the same text and parameters.
pub proof fn lemma_same_statement_as_single(batch: RunningModel)
    ensures
        ({
            let item = batch.items[batch.done.len() as int];
            prepared(StoreState::Ready, item.sql, item.params) == Ok::<StatementModel, Failure>(
                next_statement(batch),
            )
        }),
{
}

} // verus!
