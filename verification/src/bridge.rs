//! The decisions of the bridge between one blocking query execution and an
//! asynchronous sequence of batches.
//!
//! Every request is carried out between attaching and detaching the
//! auxiliary catalogs on the caller's connection. Three parties take part in
//! a streaming query: the caller prepares it on its own connection, a worker
//! runs it on a cloned session and relays the batches through a bounded
//! channel, and the consumer drains the channel and then learns how the
//! worker ended. The caller and the worker are state machines here: each is
//! told how its pending action ended and answers with its next state and the
//! next action. Whoever drives a machine performs the actions.

use crate::error::{ConnectionError, Error};
use vstd::prelude::*;

verus! {

/// The capacity of the channel between the worker and the consumer. A worker
/// that is ahead by this many batches waits for the consumer.
pub const BATCH_CHANNEL_CAPACITY: usize = 4;

/// Why an action failed, as its performer reports it.
#[derive(Debug, PartialEq, Eq)]
pub enum Cause {
    /// An error of the session, already in its final form.
    Session(Error),
    /// The message of a failure that has no form yet.
    Message(String),
}

/// How an action ended.
#[derive(Debug, PartialEq, Eq)]
pub enum Outcome {
    Done,
    Failed(Cause),
}

/// The error that ends a request or a worker.
#[derive(Debug, PartialEq, Eq)]
pub enum Failure {
    /// An error of the session.
    Session(Error),
    /// An error of the capability surface.
    Connection(ConnectionError),
    /// The engine's own error, passed on as it is.
    Engine { message: String },
}

impl Cause {
    /// The failure of attaching or detaching: a bare message is a
    /// connection failure of the session.
    pub open spec fn session_failure(self) -> Failure {
        match self {
            Cause::Session(error) => Failure::Session(error),
            Cause::Message(source) => Failure::Session(Error::DuckDBConnectionError { source }),
        }
    }

    /// The failure of cloning the session: a bare message is the engine's
    /// own error.
    pub open spec fn clone_failure(self) -> Failure {
        match self {
            Cause::Session(error) => Failure::Session(error),
            Cause::Message(message) => Failure::Engine { message },
        }
    }

    /// The failure of preparing or executing the statement: a bare message
    /// is a query failure of the session.
    pub open spec fn query_failure(self) -> Failure {
        match self {
            Cause::Session(error) => Failure::Session(error),
            Cause::Message(source) => Failure::Session(Error::DuckDBQueryError { source }),
        }
    }

    /// The failure of handing a batch to the channel: a bare message is a
    /// channel failure of the session.
    pub open spec fn channel_failure(self) -> Failure {
        match self {
            Cause::Session(error) => Failure::Session(error),
            Cause::Message(message) => Failure::Session(Error::ChannelError { message }),
        }
    }

    /// The failure of attaching or detaching.
    pub fn into_session_failure(self) -> (r: Failure)
        ensures
            r == self.session_failure(),
    {
        match self {
            Cause::Session(error) => Failure::Session(error),
            Cause::Message(source) => Failure::Session(Error::DuckDBConnectionError { source }),
        }
    }

    /// The failure of cloning the session.
    pub fn into_clone_failure(self) -> (r: Failure)
        ensures
            r == self.clone_failure(),
    {
        match self {
            Cause::Session(error) => Failure::Session(error),
            Cause::Message(message) => Failure::Engine { message },
        }
    }

    /// The failure of preparing or executing the statement.
    pub fn into_query_failure(self) -> (r: Failure)
        ensures
            r == self.query_failure(),
    {
        match self {
            Cause::Session(error) => Failure::Session(error),
            Cause::Message(source) => Failure::Session(Error::DuckDBQueryError { source }),
        }
    }

    /// The failure of handing a batch to the channel.
    pub fn into_channel_failure(self) -> (r: Failure)
        ensures
            r == self.channel_failure(),
    {
        match self {
            Cause::Session(error) => Failure::Session(error),
            Cause::Message(message) => Failure::Session(Error::ChannelError { message }),
        }
    }
}

/// The statement that yields the schema of `sql` and no row: `sql` as a
/// sub-query of a query that returns nothing.
pub open spec fn probe_statement(sql: Seq<char>) -> Seq<char> {
    "WITH fetch_schema AS ("@ + sql + ") SELECT * FROM fetch_schema LIMIT 0"@
}

/// The statement that yields the schema of `sql` and no row.
pub fn schema_probe(sql: &str) -> (r: String)
    ensures
        r@ == probe_statement(sql@),
{
    let mut probe = String::new();
    probe.append("WITH fetch_schema AS (");
    probe.append(sql);
    probe.append(") SELECT * FROM fetch_schema LIMIT 0");
    probe
}

/// The message of the error that ends a stream whose worker failed.
pub open spec fn worker_failure_message(message: Seq<char>) -> Seq<char> {
    "Failed to execute DuckDB query: "@ + message
}

/// What a request asks of the engine.
#[derive(Clone, Copy, Debug, PartialEq, Eq, Structural)]
pub enum RequestKind {
    /// List the schema names.
    Schemas,
    /// List the table names of a schema.
    Tables,
    /// Fetch the column schema of a table or table function.
    Schema,
    /// Execute a statement for the number of rows it modified.
    Execute,
    /// Execute a statement for a stream of batches.
    Stream,
}

/// Where the caller stands in carrying out a request on its own connection.
#[derive(Debug, PartialEq, Eq)]
pub enum Phase {
    /// The auxiliary catalogs are being attached.
    Attaching,
    /// The request's statement is running. For a stream this is the zero-row
    /// probe for the result schema.
    Running,
    /// The auxiliary catalogs are being detached; `failure` holds what went
    /// wrong before, if anything did.
    Detaching { failure: Option<Failure> },
    /// The connection is being cloned into an independent session.
    Cloning,
    /// The request ended well. Of a stream, the clone went to a worker and
    /// the stream is the consumer's.
    Finished,
    /// The request ended with an error.
    Failed,
}

/// A request in progress.
#[derive(Debug, PartialEq, Eq)]
pub struct Request {
    pub kind: RequestKind,
    pub phase: Phase,
}

/// What the caller does next.
#[derive(Debug, PartialEq, Eq)]
pub enum Action {
    /// Attach the auxiliary catalogs to the caller's connection.
    Attach,
    /// Run the request's statement and keep what it yields.
    Run,
    /// Detach the auxiliary catalogs and reset the search path.
    Detach,
    /// Clone the connection into an independent session.
    CloneSession,
    /// Move the clone, the statement, its parameters and the schema to a
    /// worker, and hand the stream to the consumer.
    Spawn,
    /// Return what the statement yielded.
    Succeed,
    /// Return the error.
    Fail(Failure),
    /// Nothing is left to do.
    Rest,
}

impl RequestKind {
    /// The failure of the request's statement: a bare message becomes the
    /// error of the request's kind.
    pub open spec fn run_failure(self, cause: Cause) -> Failure {
        match cause {
            Cause::Session(error) => Failure::Session(error),
            Cause::Message(source) => match self {
                RequestKind::Schemas => Failure::Connection(
                    ConnectionError::UnableToGetSchemas { source },
                ),
                RequestKind::Tables => Failure::Connection(
                    ConnectionError::UnableToGetTables { source },
                ),
                RequestKind::Schema => Failure::Connection(
                    ConnectionError::UnableToGetSchema { source },
                ),
                RequestKind::Execute => Failure::Session(Error::DuckDBQueryError { source }),
                RequestKind::Stream => Failure::Connection(
                    ConnectionError::UnableToGetSchema { source },
                ),
            },
        }
    }

    /// The failure of the request's statement.
    pub fn into_run_failure(self, cause: Cause) -> (r: Failure)
        ensures
            r == self.run_failure(cause),
    {
        match cause {
            Cause::Session(error) => Failure::Session(error),
            Cause::Message(source) => match self {
                RequestKind::Schemas => Failure::Connection(
                    ConnectionError::UnableToGetSchemas { source },
                ),
                RequestKind::Tables => Failure::Connection(
                    ConnectionError::UnableToGetTables { source },
                ),
                RequestKind::Schema => Failure::Connection(
                    ConnectionError::UnableToGetSchema { source },
                ),
                RequestKind::Execute => Failure::Session(Error::DuckDBQueryError { source }),
                RequestKind::Stream => Failure::Connection(
                    ConnectionError::UnableToGetSchema { source },
                ),
            },
        }
    }
}

impl Request {
    /// The request and the action that follow when the pending action of
    /// `self` ended with `outcome`. A failure of attaching or of the
    /// statement is kept until the catalogs have been detached, and is
    /// returned whatever the detaching itself came to. Only a stream goes
    /// on to clone the connection.
    pub open spec fn next(self, outcome: Outcome) -> (Request, Action) {
        let kind = self.kind;
        match self.phase {
            Phase::Attaching => match outcome {
                Outcome::Done => (Request { kind, phase: Phase::Running }, Action::Run),
                Outcome::Failed(cause) => (
                    Request { kind, phase: Phase::Detaching { failure: Some(cause.session_failure()) } },
                    Action::Detach,
                ),
            },
            Phase::Running => match outcome {
                Outcome::Done => (
                    Request { kind, phase: Phase::Detaching { failure: None } },
                    Action::Detach,
                ),
                Outcome::Failed(cause) => (
                    Request { kind, phase: Phase::Detaching { failure: Some(kind.run_failure(cause)) } },
                    Action::Detach,
                ),
            },
            Phase::Detaching { failure: Some(failure) } => (
                Request { kind, phase: Phase::Failed },
                Action::Fail(failure),
            ),
            Phase::Detaching { failure: None } => match outcome {
                Outcome::Done => if kind == RequestKind::Stream {
                    (Request { kind, phase: Phase::Cloning }, Action::CloneSession)
                } else {
                    (Request { kind, phase: Phase::Finished }, Action::Succeed)
                },
                Outcome::Failed(cause) => (
                    Request { kind, phase: Phase::Failed },
                    Action::Fail(cause.session_failure()),
                ),
            },
            Phase::Cloning => match outcome {
                Outcome::Done => (Request { kind, phase: Phase::Finished }, Action::Spawn),
                Outcome::Failed(cause) => (
                    Request { kind, phase: Phase::Failed },
                    Action::Fail(cause.clone_failure()),
                ),
            },
            Phase::Finished => (Request { kind, phase: Phase::Finished }, Action::Rest),
            Phase::Failed => (Request { kind, phase: Phase::Failed }, Action::Rest),
        }
    }

    /// The first state and the first action of a request of the given kind.
    pub fn begin(kind: RequestKind) -> (r: (Request, Action))
        ensures
            r == (Request { kind, phase: Phase::Attaching }, Action::Attach),
    {
        (Request { kind, phase: Phase::Attaching }, Action::Attach)
    }

    /// The request and the action that follow when the pending action ended
    /// with `outcome`.
    pub fn advance(self, outcome: Outcome) -> (r: (Request, Action))
        ensures
            r == self.next(outcome),
    {
        let kind = self.kind;
        match self.phase {
            Phase::Attaching => match outcome {
                Outcome::Done => (Request { kind, phase: Phase::Running }, Action::Run),
                Outcome::Failed(cause) => (
                    Request {
                        kind,
                        phase: Phase::Detaching { failure: Some(cause.into_session_failure()) },
                    },
                    Action::Detach,
                ),
            },
            Phase::Running => match outcome {
                Outcome::Done => (
                    Request { kind, phase: Phase::Detaching { failure: None } },
                    Action::Detach,
                ),
                Outcome::Failed(cause) => (
                    Request {
                        kind,
                        phase: Phase::Detaching { failure: Some(kind.into_run_failure(cause)) },
                    },
                    Action::Detach,
                ),
            },
            Phase::Detaching { failure: Some(failure) } => (
                Request { kind, phase: Phase::Failed },
                Action::Fail(failure),
            ),
            Phase::Detaching { failure: None } => match outcome {
                Outcome::Done => match kind {
                    RequestKind::Stream => (
                        Request { kind, phase: Phase::Cloning },
                        Action::CloneSession,
                    ),
                    _ => (Request { kind, phase: Phase::Finished }, Action::Succeed),
                },
                Outcome::Failed(cause) => (
                    Request { kind, phase: Phase::Failed },
                    Action::Fail(cause.into_session_failure()),
                ),
            },
            Phase::Cloning => match outcome {
                Outcome::Done => (Request { kind, phase: Phase::Finished }, Action::Spawn),
                Outcome::Failed(cause) => (
                    Request { kind, phase: Phase::Failed },
                    Action::Fail(cause.into_clone_failure()),
                ),
            },
            Phase::Finished => (Request { kind, phase: Phase::Finished }, Action::Rest),
            Phase::Failed => (Request { kind, phase: Phase::Failed }, Action::Rest),
        }
    }

    /// Whether nothing is left to do.
    pub fn is_over(&self) -> (r: bool)
        ensures
            r == (self.phase is Finished || self.phase is Failed),
    {
        match self.phase {
            Phase::Finished => true,
            Phase::Failed => true,
            _ => false,
        }
    }
}

impl Action {
    /// Whether the action ends the request.
    pub open spec fn ends(self) -> bool {
        self is Succeed || self is Spawn || self is Fail
    }
}

/// The state that a request of `kind` is in, and the actions it has asked
/// for, after its actions ended with `outcomes` in turn.
pub open spec fn request_run(kind: RequestKind, outcomes: Seq<Outcome>) -> (Request, Seq<Action>)
    decreases outcomes.len(),
{
    if outcomes.len() == 0 {
        (Request { kind, phase: Phase::Attaching }, seq![Action::Attach])
    } else {
        let (state, actions) = request_run(kind, outcomes.drop_last());
        let (next, action) = state.next(outcomes.last());
        (next, actions.push(action))
    }
}

/// Whether `actions` asks for nothing from position `from` on.
spec fn rests(actions: Seq<Action>, from: int) -> bool {
    forall|k: int| from <= k < actions.len() ==> #[trigger] actions[k] == Action::Rest
}

/// The actions of a request of `kind` that ended with the action `last`.
spec fn ended_history(kind: RequestKind, actions: Seq<Action>, last: Action) -> bool {
    ||| last is Fail && actions.len() >= 3 && actions.take(3) == seq![
        Action::Attach,
        Action::Detach,
        last,
    ] && rests(actions, 3)
    ||| (last is Fail || (last is Succeed && kind != RequestKind::Stream)) && actions.len() >= 4
        && actions.take(4) == seq![Action::Attach, Action::Run, Action::Detach, last] && rests(
        actions,
        4,
    )
    ||| (last is Fail || last is Spawn) && kind == RequestKind::Stream && actions.len() >= 5
        && actions.take(5) == seq![
        Action::Attach,
        Action::Run,
        Action::Detach,
        Action::CloneSession,
        last,
    ] && rests(actions, 5)
}

/// The actions that can have led to each state.
spec fn history(state: Request, actions: Seq<Action>) -> bool {
    match state.phase {
        Phase::Attaching => actions == seq![Action::Attach],
        Phase::Running => actions == seq![Action::Attach, Action::Run],
        Phase::Detaching { failure } => {
            ||| actions == seq![Action::Attach, Action::Run, Action::Detach]
            ||| failure is Some && actions == seq![Action::Attach, Action::Detach]
        },
        Phase::Cloning => state.kind == RequestKind::Stream && actions == seq![
            Action::Attach,
            Action::Run,
            Action::Detach,
            Action::CloneSession,
        ],
        Phase::Finished => exists|last: Action| !(last is Fail) && ended_history(state.kind, actions, last),
        Phase::Failed => exists|last: Action| last is Fail && ended_history(state.kind, actions, last),
    }
}

/// Every run of a request has one of the histories of its state.
proof fn lemma_history(kind: RequestKind, outcomes: Seq<Outcome>)
    ensures
        history(request_run(kind, outcomes).0, request_run(kind, outcomes).1),
        request_run(kind, outcomes).0.kind == kind,
    decreases outcomes.len(),
{
    if outcomes.len() > 0 {
        lemma_history(kind, outcomes.drop_last());
        let (state, actions) = request_run(kind, outcomes.drop_last());
        let (next, action) = state.next(outcomes.last());
        let longer = actions.push(action);
        match state.phase {
            Phase::Attaching => {
                assert(longer =~= seq![Action::Attach, action]);
            },
            Phase::Running => {
                assert(longer =~= seq![Action::Attach, Action::Run, action]);
            },
            Phase::Detaching { failure } => {
                assert(rests(longer, longer.len() as int));
                if actions.len() == 2 {
                    assert(longer.take(3) =~= seq![Action::Attach, Action::Detach, action]);
                } else {
                    assert(longer.take(4) =~= seq![
                        Action::Attach,
                        Action::Run,
                        Action::Detach,
                        action,
                    ]);
                    assert(longer.take(4) == longer);
                }
                if !(next.phase is Cloning) {
                    assert(ended_history(kind, longer, action));
                }
            },
            Phase::Cloning => {
                assert(rests(longer, 5));
                assert(longer.take(5) =~= seq![
                    Action::Attach,
                    Action::Run,
                    Action::Detach,
                    Action::CloneSession,
                    action,
                ]);
                assert(ended_history(kind, longer, action));
            },
            Phase::Finished => {
                let last = choose|last: Action| !(last is Fail) && ended_history(kind, actions, last);
                lemma_ended_extends(kind, actions, last, action);
            },
            Phase::Failed => {
                let last = choose|last: Action| last is Fail && ended_history(kind, actions, last);
                lemma_ended_extends(kind, actions, last, action);
            },
        }
    }
}

/// A request that has ended stays ended when it rests.
proof fn lemma_ended_extends(kind: RequestKind, actions: Seq<Action>, last: Action, action: Action)
    requires
        ended_history(kind, actions, last),
        action == Action::Rest,
    ensures
        ended_history(kind, actions.push(action), last),
{
    let longer = actions.push(action);
    assert(actions.len() >= 3 ==> longer.take(3) =~= actions.take(3));
    assert(actions.len() >= 4 ==> longer.take(4) =~= actions.take(4));
    assert(actions.len() >= 5 ==> longer.take(5) =~= actions.take(5));
    assert(rests(actions, 3) ==> rests(longer, 3));
    assert(rests(actions, 4) ==> rests(longer, 4));
    assert(rests(actions, 5) ==> rests(longer, 5));
}

/// What a history says of the action at position `k`.
proof fn lemma_shape(state: Request, actions: Seq<Action>, k: int)
    requires
        history(state, actions),
        0 <= k < actions.len(),
    ensures
        actions[k] == Action::Spawn ==> state.kind == RequestKind::Stream && k == 4
            && actions.take(4) == seq![
            Action::Attach,
            Action::Run,
            Action::Detach,
            Action::CloneSession,
        ],
        actions[k] == Action::CloneSession ==> state.kind == RequestKind::Stream && k == 3,
        actions[k].ends() ==> 2 <= k && (actions[1] == Action::Detach || (3 <= k && actions[2]
            == Action::Detach)) && (forall|j: int|
            0 <= j < actions.len() && j != k ==> !(#[trigger] actions[j]).ends()),
{
    if state.phase is Finished || state.phase is Failed {
        let last = choose|last: Action| ended_history(state.kind, actions, last);
        let head3 = actions.take(3);
        assert(actions.len() >= 3 ==> forall|i: int| 0 <= i < 3 ==> actions[i] == head3[i]);
        let head4 = actions.take(4);
        assert(actions.len() >= 4 ==> forall|i: int| 0 <= i < 4 ==> actions[i] == head4[i]);
        let head5 = actions.take(5);
        assert(actions.len() >= 5 ==> forall|i: int| 0 <= i < 5 ==> actions[i] == head5[i]);
        if actions[k] == Action::Spawn {
            assert(actions.take(4) =~= seq![
                Action::Attach,
                Action::Run,
                Action::Detach,
                Action::CloneSession,
            ]);
        }
    }
}

/// A worker is started only for a stream, and only once the probe has
/// yielded the schema, the auxiliary catalogs have been detached from the
/// caller's connection and the connection has been cloned: `Spawn` is the
/// fifth action and follows `Attach`, `Run`, `Detach` and `CloneSession`.
pub proof fn lemma_spawn_follows_probe_and_detach(
    kind: RequestKind,
    outcomes: Seq<Outcome>,
    k: int,
)
    requires
        0 <= k < request_run(kind, outcomes).1.len(),
        request_run(kind, outcomes).1[k] == Action::Spawn,
    ensures
        kind == RequestKind::Stream,
        k == 4,
        request_run(kind, outcomes).1.take(4) == seq![
            Action::Attach,
            Action::Run,
            Action::Detach,
            Action::CloneSession,
        ],
{
    lemma_history(kind, outcomes);
    lemma_shape(request_run(kind, outcomes).0, request_run(kind, outcomes).1, k);
}

/// The bracket: no request ends, be it well or with an error, before the
/// auxiliary catalogs have been asked to detach; and a request ends once.
pub proof fn lemma_end_follows_detach(kind: RequestKind, outcomes: Seq<Outcome>, k: int)
    requires
        0 <= k < request_run(kind, outcomes).1.len(),
        request_run(kind, outcomes).1[k].ends(),
    ensures
        exists|j: int| 0 <= j < k && request_run(kind, outcomes).1[j] == Action::Detach,
        forall|j: int|
            0 <= j < request_run(kind, outcomes).1.len() && j != k ==> !(
            #[trigger] request_run(kind, outcomes).1[j]).ends(),
{
    lemma_history(kind, outcomes);
    let (state, actions) = request_run(kind, outcomes);
    lemma_shape(state, actions, k);
    if actions[1] == Action::Detach {
        assert(0 <= 1 < k && actions[1] == Action::Detach);
    } else {
        assert(0 <= 2 < k && actions[2] == Action::Detach);
    }
}

/// Only a stream clones the connection, and it does so at most once: a
/// request of another kind runs on the caller's connection alone.
pub proof fn lemma_single_clone(kind: RequestKind, outcomes: Seq<Outcome>, i: int, j: int)
    requires
        0 <= i < request_run(kind, outcomes).1.len(),
        0 <= j < request_run(kind, outcomes).1.len(),
        request_run(kind, outcomes).1[i] == Action::CloneSession,
        request_run(kind, outcomes).1[j] == Action::CloneSession,
    ensures
        kind == RequestKind::Stream,
        i == j,
{
    lemma_history(kind, outcomes);
    let (state, actions) = request_run(kind, outcomes);
    lemma_shape(state, actions, i);
    lemma_shape(state, actions, j);
}

/// Where the worker stands in running the query on its cloned session.
#[derive(Clone, Copy, Debug, PartialEq, Eq, Structural)]
pub enum Worker {
    /// The auxiliary catalogs are being attached to the clone.
    Attaching,
    /// The statement is being prepared.
    Preparing,
    /// The prepared statement is being executed as a stream of batches.
    Opening,
    /// The next batch is being taken from the engine and handed to the
    /// channel.
    Relaying,
    /// The auxiliary catalogs are being detached from the clone.
    Detaching,
    /// Every batch went to the channel.
    Finished,
    /// The worker gave up; the clone is discarded as it is.
    Failed,
}

/// How a worker's action ended.
#[derive(Debug, PartialEq, Eq)]
pub enum WorkerEvent {
    /// The action ended well; while relaying, one batch went to the channel.
    Done,
    /// The engine has no further batch. Of any action but relaying this says
    /// no more than `Done`.
    Exhausted,
    /// The action failed. While relaying, the channel refused the batch.
    Failed(Cause),
}

/// What the worker does next.
#[derive(Debug, PartialEq, Eq)]
pub enum WorkerAction {
    /// Attach the auxiliary catalogs to the clone.
    Attach,
    /// Prepare the statement.
    Prepare,
    /// Execute the prepared statement with its parameters and the schema.
    Open,
    /// Take the next batch and hand it to the channel, waiting while the
    /// channel is full.
    Relay,
    /// Detach the auxiliary catalogs and reset the search path.
    Detach,
    /// End without an error.
    Finish,
    /// End with the error.
    Fail(Failure),
    /// Nothing is left to do.
    Rest,
}

impl Worker {
    /// The action that is pending in a state that has one.
    pub open spec fn pending(self) -> WorkerAction {
        match self {
            Worker::Attaching => WorkerAction::Attach,
            Worker::Preparing => WorkerAction::Prepare,
            Worker::Opening => WorkerAction::Open,
            Worker::Relaying => WorkerAction::Relay,
            Worker::Detaching => WorkerAction::Detach,
            Worker::Finished => WorkerAction::Rest,
            Worker::Failed => WorkerAction::Rest,
        }
    }

    /// The state and the action that follow when the pending action of
    /// `self` ended with `event`. Batches are relayed one by one until the
    /// engine is exhausted; the first failure ends the worker at once, and
    /// the catalogs are detached only after the last batch.
    pub open spec fn next(self, event: WorkerEvent) -> (Worker, WorkerAction) {
        match self {
            Worker::Attaching => match event {
                WorkerEvent::Failed(cause) => (
                    Worker::Failed,
                    WorkerAction::Fail(cause.session_failure()),
                ),
                _ => (Worker::Preparing, WorkerAction::Prepare),
            },
            Worker::Preparing => match event {
                WorkerEvent::Failed(cause) => (
                    Worker::Failed,
                    WorkerAction::Fail(cause.query_failure()),
                ),
                _ => (Worker::Opening, WorkerAction::Open),
            },
            Worker::Opening => match event {
                WorkerEvent::Failed(cause) => (
                    Worker::Failed,
                    WorkerAction::Fail(cause.query_failure()),
                ),
                _ => (Worker::Relaying, WorkerAction::Relay),
            },
            Worker::Relaying => match event {
                WorkerEvent::Done => (Worker::Relaying, WorkerAction::Relay),
                WorkerEvent::Exhausted => (Worker::Detaching, WorkerAction::Detach),
                WorkerEvent::Failed(cause) => (
                    Worker::Failed,
                    WorkerAction::Fail(cause.channel_failure()),
                ),
            },
            Worker::Detaching => match event {
                WorkerEvent::Failed(cause) => (
                    Worker::Failed,
                    WorkerAction::Fail(cause.session_failure()),
                ),
                _ => (Worker::Finished, WorkerAction::Finish),
            },
            Worker::Finished => (Worker::Finished, WorkerAction::Rest),
            Worker::Failed => (Worker::Failed, WorkerAction::Rest),
        }
    }

    /// The first state and the first action of every worker.
    pub fn begin() -> (r: (Worker, WorkerAction))
        ensures
            r == (Worker::Attaching, WorkerAction::Attach),
    {
        (Worker::Attaching, WorkerAction::Attach)
    }

    /// The state and the action that follow when the pending action ended
    /// with `event`.
    pub fn advance(self, event: WorkerEvent) -> (r: (Worker, WorkerAction))
        ensures
            r == self.next(event),
    {
        match self {
            Worker::Attaching => match event {
                WorkerEvent::Failed(cause) => (
                    Worker::Failed,
                    WorkerAction::Fail(cause.into_session_failure()),
                ),
                _ => (Worker::Preparing, WorkerAction::Prepare),
            },
            Worker::Preparing => match event {
                WorkerEvent::Failed(cause) => (
                    Worker::Failed,
                    WorkerAction::Fail(cause.into_query_failure()),
                ),
                _ => (Worker::Opening, WorkerAction::Open),
            },
            Worker::Opening => match event {
                WorkerEvent::Failed(cause) => (
                    Worker::Failed,
                    WorkerAction::Fail(cause.into_query_failure()),
                ),
                _ => (Worker::Relaying, WorkerAction::Relay),
            },
            Worker::Relaying => match event {
                WorkerEvent::Done => (Worker::Relaying, WorkerAction::Relay),
                WorkerEvent::Exhausted => (Worker::Detaching, WorkerAction::Detach),
                WorkerEvent::Failed(cause) => (
                    Worker::Failed,
                    WorkerAction::Fail(cause.into_channel_failure()),
                ),
            },
            Worker::Detaching => match event {
                WorkerEvent::Failed(cause) => (
                    Worker::Failed,
                    WorkerAction::Fail(cause.into_session_failure()),
                ),
                _ => (Worker::Finished, WorkerAction::Finish),
            },
            Worker::Finished => (Worker::Finished, WorkerAction::Rest),
            Worker::Failed => (Worker::Failed, WorkerAction::Rest),
        }
    }

    /// Whether nothing is left to do.
    pub fn is_over(&self) -> (r: bool)
        ensures
            r == (*self is Finished || *self is Failed),
    {
        match self {
            Worker::Finished => true,
            Worker::Failed => true,
            _ => false,
        }
    }
}

impl WorkerAction {
    /// Whether the action ends the worker.
    pub open spec fn ends(self) -> bool {
        self is Finish || self is Fail
    }
}

/// The state that a worker is in, and the actions it has asked for, after
/// its actions ended with `events` in turn.
pub open spec fn worker_run(events: Seq<WorkerEvent>) -> (Worker, Seq<WorkerAction>)
    decreases events.len(),
{
    if events.len() == 0 {
        (Worker::Attaching, seq![WorkerAction::Attach])
    } else {
        let (state, actions) = worker_run(events.drop_last());
        let (next, action) = state.next(events.last());
        (next, actions.push(action))
    }
}

/// Whether the action at `end` ends the worker of `actions`: it is the
/// first that does, and nothing is asked for after it.
spec fn worker_ended(actions: Seq<WorkerAction>, end: int) -> bool {
    &&& 1 <= end < actions.len()
    &&& actions[end].ends()
    &&& actions[end] is Finish ==> actions[end - 1] == WorkerAction::Detach
    &&& forall|k: int| 0 <= k < end ==> !(#[trigger] actions[k]).ends() && actions[k] != WorkerAction::Rest
    &&& forall|k: int| end < k < actions.len() ==> #[trigger] actions[k] == WorkerAction::Rest
}

/// The actions that can have led to each state.
spec fn worker_history(state: Worker, actions: Seq<WorkerAction>) -> bool {
    &&& actions.len() >= 1
    &&& if state is Finished || state is Failed {
        exists|end: int| worker_ended(actions, end)
    } else {
        &&& actions.last() == state.pending()
        &&& forall|k: int|
            0 <= k < actions.len() ==> !(#[trigger] actions[k]).ends() && actions[k]
                != WorkerAction::Rest
    }
}

/// Every run of a worker has one of the histories of its state.
proof fn lemma_worker_history(events: Seq<WorkerEvent>)
    ensures
        worker_history(worker_run(events).0, worker_run(events).1),
    decreases events.len(),
{
    if events.len() > 0 {
        lemma_worker_history(events.drop_last());
        let (state, actions) = worker_run(events.drop_last());
        let (next, action) = state.next(events.last());
        let longer = actions.push(action);
        if state is Finished || state is Failed {
            let end = choose|end: int| worker_ended(actions, end);
            assert(worker_ended(longer, end));
        } else if next is Finished || next is Failed {
            assert(worker_ended(longer, actions.len() as int));
        }
    }
}

/// A worker ends once: after the action that ends it, be it `Finish` or the
/// first `Fail`, it asks for nothing more, and it has not ended before. A
/// worker whose channel was closed by the consumer therefore stops relaying.
pub proof fn lemma_worker_ends_once(events: Seq<WorkerEvent>, end: int, k: int)
    requires
        0 <= end < worker_run(events).1.len(),
        0 <= k < worker_run(events).1.len(),
        worker_run(events).1[end].ends(),
    ensures
        k < end ==> !worker_run(events).1[k].ends() && worker_run(events).1[k]
            != WorkerAction::Rest,
        k > end ==> worker_run(events).1[k] == WorkerAction::Rest,
{
    lemma_worker_history(events);
    let (state, actions) = worker_run(events);
    if state is Finished || state is Failed {
        let first = choose|first: int| worker_ended(actions, first);
        assert(first == end) by {
            if end < first {
                assert(!actions[end].ends());
            }
            if end > first {
                assert(actions[end] == WorkerAction::Rest);
            }
        }
    } else {
        assert(!actions[end].ends());
    }
}

/// A worker finishes without an error only right after it has asked to
/// detach the auxiliary catalogs.
pub proof fn lemma_finish_follows_detach(events: Seq<WorkerEvent>, k: int)
    requires
        0 <= k < worker_run(events).1.len(),
        worker_run(events).1[k] == WorkerAction::Finish,
    ensures
        k >= 1,
        worker_run(events).1[k - 1] == WorkerAction::Detach,
{
    lemma_worker_history(events);
    let (state, actions) = worker_run(events);
    if state is Finished || state is Failed {
        let first = choose|first: int| worker_ended(actions, first);
        if k < first {
            assert(!actions[k].ends());
        }
        if k > first {
            assert(actions[k] == WorkerAction::Rest);
        }
    } else {
        assert(!actions[k].ends());
    }
}

/// What the consumer does after it waited on the channel.
#[derive(Clone, Copy, Debug, PartialEq, Eq, Structural)]
pub enum ConsumerAction {
    /// Yield the batch that arrived and wait on the channel again.
    Deliver,
    /// The channel is closed and drained: wait for the worker to end.
    Join,
}

/// What the consumer does after it waited on the channel: it yields each
/// batch as it arrives, and turns to the worker once the channel is closed.
pub fn after_receive(batch_arrived: bool) -> (r: ConsumerAction)
    ensures
        r == if batch_arrived {
            ConsumerAction::Deliver
        } else {
            ConsumerAction::Join
        },
{
    if batch_arrived {
        ConsumerAction::Deliver
    } else {
        ConsumerAction::Join
    }
}

impl Cause {
    /// The message of the cause: the one it holds, or that of its error.
    pub open spec fn message(self) -> Seq<char> {
        match self {
            Cause::Session(error) => error@.message(),
            Cause::Message(message) => message@,
        }
    }
}

/// How the stream ends once the worker has ended: silently where the worker
/// ended well, and otherwise with one last element, an execution error whose
/// message holds the worker's. A worker that panicked or was cancelled is
/// reported like one that returned an error.
pub fn after_join(ended: &Outcome) -> (r: Option<String>)
    ensures
        match *ended {
            Outcome::Done => r is None,
            Outcome::Failed(cause) => r matches Some(message) && message@
                == worker_failure_message(cause.message()),
        },
{
    match ended {
        Outcome::Done => None,
        Outcome::Failed(cause) => {
            let mut message = String::new();
            message.append("Failed to execute DuckDB query: ");
            match cause {
                Cause::Session(error) => message.append(error.to_string().as_str()),
                Cause::Message(text) => message.append(text.as_str()),
            }
            Some(message)
        },
    }
}

} // verus!
