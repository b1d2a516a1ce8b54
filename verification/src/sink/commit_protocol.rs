//! The commit protocol as a state machine: which request goes to the catalog
//! next, given what the catalog has answered so far.
//!
//! A table goes from absent over namespace ensured and table ensured to
//! committed. The machine first tries to load the table. If the table is
//! there it appends at once. If not, it creates the namespace, taking "already
//! exists" for success, then the table, then appends. An append that loses
//! against a concurrent writer is tried again on freshly loaded table state,
//! a bounded number of times.
//!
//! The machine performs no request itself. Its caller sends each request and
//! hands back the reply.

use vstd::prelude::*;
use crate::error::{CatalogFault, PipelineError};

verus! {

/// The number of times a commit starts over after a conflict, unless told
/// otherwise.
pub const DEFAULT_COMMIT_RETRIES: u32 = 3;

/// How far a table has come.
#[derive(Clone, Copy, Debug, PartialEq, Eq, Structural)]
pub enum CommitPhase {
    Absent,
    NamespaceEnsured,
    TableEnsured,
    Committed,
}

/// A request to the catalog.
#[derive(Clone, Copy, Debug, PartialEq, Eq, Structural)]
pub enum CatalogRequest {
    /// Load the table's metadata.
    LoadTable,
    /// Create the namespace.
    CreateNamespace,
    /// Create the table with its entity's schema.
    CreateTable,
    /// Register the file as a new snapshot on top of the snapshot `base`.
    AppendFile { base: u64 },
}

/// What the catalog answered.
#[derive(Clone, Copy, Debug, PartialEq, Eq, Structural)]
pub enum CatalogReply {
    /// The table exists; `snapshot` is its current snapshot.
    TableFound { snapshot: u64 },
    /// The table does not exist.
    TableMissing,
    /// The namespace has been created.
    NamespaceCreated,
    /// The namespace was there already.
    NamespaceExists,
    /// The table has been created; `snapshot` is its first, empty snapshot.
    TableCreated { snapshot: u64 },
    /// The table was there already.
    TableExists,
    /// The file is registered; `snapshot` is the snapshot that holds it.
    Appended { snapshot: u64 },
    /// The table has moved on from the base snapshot.
    Conflict,
    /// The catalog failed.
    Failed,
}

/// What came of an append, in the terms in which a catalog tells it.
#[derive(Clone, Copy, Debug, PartialEq, Eq, Structural)]
pub enum AppendOutcome {
    /// The file is registered in a new snapshot.
    Registered { snapshot: u64 },
    /// The catalog refused the file because the table registers it already.
    AlreadyRegistered,
    /// The table has moved on.
    Conflicted,
    /// The catalog failed otherwise.
    Rejected,
}

/// The reply that the protocol takes for what came of an append to a table
/// that stood at the snapshot `current`. A file that the table registers
/// already is registered: the append counts as done, in the snapshot at which
/// the table stands.
pub open spec fn reply_to_append(outcome: AppendOutcome, current: u64) -> CatalogReply {
    match outcome {
        AppendOutcome::Registered { snapshot } => CatalogReply::Appended { snapshot },
        AppendOutcome::AlreadyRegistered => CatalogReply::Appended { snapshot: current },
        AppendOutcome::Conflicted => CatalogReply::Conflict,
        AppendOutcome::Rejected => CatalogReply::Failed,
    }
}

/// The reply that the protocol takes for what came of an append to a table
/// that stood at the snapshot `current`.
pub fn append_reply(outcome: AppendOutcome, current: u64) -> (reply: CatalogReply)
    ensures
        reply == reply_to_append(outcome, current),
{
    match outcome {
        AppendOutcome::Registered { snapshot } => CatalogReply::Appended { snapshot },
        AppendOutcome::AlreadyRegistered => CatalogReply::Appended { snapshot: current },
        AppendOutcome::Conflicted => CatalogReply::Conflict,
        AppendOutcome::Rejected => CatalogReply::Failed,
    }
}

/// An append on top of `base` may be sent only to a table that was loaded
/// and stands at `base`. Any other is a conflict before it is sent.
pub fn base_is_current(loaded: Option<u64>, base: u64) -> (current: bool)
    ensures
        current == (loaded == Some(base)),
{
    match loaded {
        Some(snapshot) => snapshot == base,
        None => false,
    }
}

/// Where a commit stands.
#[derive(Clone, Copy, Debug, PartialEq, Eq, Structural)]
pub enum CommitState {
    /// Waiting for the table's metadata. `table_known` says that the table is
    /// known to exist: it was found before, or its creation met it.
    Loading { table_known: bool },
    /// Waiting for the namespace to be created.
    EnsuringNamespace,
    /// Waiting for the table to be created.
    CreatingTable,
    /// Waiting for the file to be registered on top of `base`.
    Appending { base: u64 },
    /// Done: the file is part of `snapshot`.
    Committed { snapshot: u64 },
    /// Given up.
    Failed { fault: CatalogFault },
}

/// One commit of one file: its state, and the number of times it may still
/// start over after a conflict.
#[derive(Clone, Copy, Debug, PartialEq, Eq, Structural)]
pub struct CommitAttempt {
    pub state: CommitState,
    pub retries_left: u32,
}

impl CommitAttempt {
    /// A commit that has not asked anything yet.
    pub open spec fn initial(max_retries: u32) -> CommitAttempt {
        CommitAttempt { state: CommitState::Loading { table_known: false }, retries_left: max_retries }
    }

    /// How far the table has come, as far as this commit knows.
    pub open spec fn phase_spec(self) -> CommitPhase {
        match self.state {
            CommitState::Loading { table_known } => if table_known {
                CommitPhase::TableEnsured
            } else {
                CommitPhase::Absent
            },
            CommitState::EnsuringNamespace => CommitPhase::Absent,
            CommitState::CreatingTable => CommitPhase::NamespaceEnsured,
            CommitState::Appending { .. } => CommitPhase::TableEnsured,
            CommitState::Committed { .. } => CommitPhase::Committed,
            CommitState::Failed { .. } => CommitPhase::Absent,
        }
    }

    /// The request to send next, or `None` where the commit has ended.
    pub open spec fn request_spec(self) -> Option<CatalogRequest> {
        match self.state {
            CommitState::Loading { .. } => Some(CatalogRequest::LoadTable),
            CommitState::EnsuringNamespace => Some(CatalogRequest::CreateNamespace),
            CommitState::CreatingTable => Some(CatalogRequest::CreateTable),
            CommitState::Appending { base } => Some(CatalogRequest::AppendFile { base }),
            CommitState::Committed { .. } => None,
            CommitState::Failed { .. } => None,
        }
    }

    /// The commit has ended, well or badly.
    pub open spec fn ended(self) -> bool {
        self.request_spec() is None
    }

    /// The state with the same retries left.
    pub open spec fn to(self, state: CommitState) -> CommitAttempt {
        CommitAttempt { state, ..self }
    }

    /// The commit given up with a fault.
    pub open spec fn failing(self, fault: CatalogFault) -> CommitAttempt {
        self.to(CommitState::Failed { fault })
    }

    /// The commit after the catalog's reply to the request it sent last. A
    /// commit that has ended stays as it is.
    pub open spec fn next(self, reply: CatalogReply) -> CommitAttempt {
        match self.state {
            CommitState::Loading { table_known } => match reply {
                CatalogReply::TableFound { snapshot } => self.to(
                    CommitState::Appending { base: snapshot },
                ),
                CatalogReply::TableMissing => if table_known {
                    self.failing(CatalogFault::UnexpectedReply)
                } else {
                    self.to(CommitState::EnsuringNamespace)
                },
                CatalogReply::Failed => self.failing(CatalogFault::Rejected),
                _ => self.failing(CatalogFault::UnexpectedReply),
            },
            CommitState::EnsuringNamespace => match reply {
                CatalogReply::NamespaceCreated => self.to(CommitState::CreatingTable),
                CatalogReply::NamespaceExists => self.to(CommitState::CreatingTable),
                CatalogReply::Failed => self.failing(CatalogFault::Rejected),
                _ => self.failing(CatalogFault::UnexpectedReply),
            },
            CommitState::CreatingTable => match reply {
                CatalogReply::TableCreated { snapshot } => self.to(
                    CommitState::Appending { base: snapshot },
                ),
                CatalogReply::TableExists => self.to(CommitState::Loading { table_known: true }),
                CatalogReply::Failed => self.failing(CatalogFault::Rejected),
                _ => self.failing(CatalogFault::UnexpectedReply),
            },
            CommitState::Appending { .. } => match reply {
                CatalogReply::Appended { snapshot } => self.to(CommitState::Committed { snapshot }),
                CatalogReply::Conflict => if self.retries_left > 0 {
                    CommitAttempt {
                        state: CommitState::Loading { table_known: true },
                        retries_left: (self.retries_left - 1) as u32,
                    }
                } else {
                    self.failing(CatalogFault::ConflictsExhausted)
                },
                CatalogReply::Failed => self.failing(CatalogFault::Rejected),
                _ => self.failing(CatalogFault::UnexpectedReply),
            },
            CommitState::Committed { .. } => self,
            CommitState::Failed { .. } => self,
        }
    }

    /// An upper bound on the requests that this commit will still send.
    pub open spec fn requests_left(self) -> nat {
        match self.state {
            CommitState::Loading { table_known } => if table_known {
                (2 + 2 * self.retries_left) as nat
            } else {
                (5 + 2 * self.retries_left) as nat
            },
            CommitState::EnsuringNamespace => (4 + 2 * self.retries_left) as nat,
            CommitState::CreatingTable => (3 + 2 * self.retries_left) as nat,
            CommitState::Appending { .. } => (1 + 2 * self.retries_left) as nat,
            CommitState::Committed { .. } => 0,
            CommitState::Failed { .. } => 0,
        }
    }

    /// The result of a commit that has ended.
    pub open spec fn outcome_spec(self) -> Option<Result<u64, PipelineError>> {
        match self.state {
            CommitState::Committed { snapshot } => Some(Ok(snapshot)),
            CommitState::Failed { fault } => Some(Err(PipelineError::Catalog(fault))),
            _ => None,
        }
    }

    /// Starts a commit that may start over `max_retries` times after a
    /// conflict.
    pub fn start(max_retries: u32) -> (attempt: CommitAttempt)
        ensures
            attempt == CommitAttempt::initial(max_retries),
    {
        CommitAttempt { state: CommitState::Loading { table_known: false }, retries_left: max_retries }
    }

    /// How far the table has come, as far as this commit knows.
    pub fn phase(&self) -> (phase: CommitPhase)
        ensures
            phase == self.phase_spec(),
    {
        match self.state {
            CommitState::Loading { table_known } => if table_known {
                CommitPhase::TableEnsured
            } else {
                CommitPhase::Absent
            },
            CommitState::EnsuringNamespace => CommitPhase::Absent,
            CommitState::CreatingTable => CommitPhase::NamespaceEnsured,
            CommitState::Appending { .. } => CommitPhase::TableEnsured,
            CommitState::Committed { .. } => CommitPhase::Committed,
            CommitState::Failed { .. } => CommitPhase::Absent,
        }
    }

    /// The request to send next, or `None` where the commit has ended.
    pub fn request(&self) -> (request: Option<CatalogRequest>)
        ensures
            request == self.request_spec(),
    {
        match self.state {
            CommitState::Loading { .. } => Some(CatalogRequest::LoadTable),
            CommitState::EnsuringNamespace => Some(CatalogRequest::CreateNamespace),
            CommitState::CreatingTable => Some(CatalogRequest::CreateTable),
            CommitState::Appending { base } => Some(CatalogRequest::AppendFile { base }),
            CommitState::Committed { .. } => None,
            CommitState::Failed { .. } => None,
        }
    }

    fn fail(&self, fault: CatalogFault) -> (attempt: CommitAttempt)
        ensures
            attempt == self.failing(fault),
    {
        CommitAttempt { state: CommitState::Failed { fault }, retries_left: self.retries_left }
    }

    fn go(&self, state: CommitState) -> (attempt: CommitAttempt)
        ensures
            attempt == self.to(state),
    {
        CommitAttempt { state, retries_left: self.retries_left }
    }

    /// Takes the catalog's reply to the request sent last.
    pub fn advance(&self, reply: CatalogReply) -> (attempt: CommitAttempt)
        ensures
            attempt == self.next(reply),
    {
        match self.state {
            CommitState::Loading { table_known } => match reply {
                CatalogReply::TableFound { snapshot } => self.go(
                    CommitState::Appending { base: snapshot },
                ),
                CatalogReply::TableMissing => if table_known {
                    self.fail(CatalogFault::UnexpectedReply)
                } else {
                    self.go(CommitState::EnsuringNamespace)
                },
                CatalogReply::Failed => self.fail(CatalogFault::Rejected),
                _ => self.fail(CatalogFault::UnexpectedReply),
            },
            CommitState::EnsuringNamespace => match reply {
                CatalogReply::NamespaceCreated => self.go(CommitState::CreatingTable),
                CatalogReply::NamespaceExists => self.go(CommitState::CreatingTable),
                CatalogReply::Failed => self.fail(CatalogFault::Rejected),
                _ => self.fail(CatalogFault::UnexpectedReply),
            },
            CommitState::CreatingTable => match reply {
                CatalogReply::TableCreated { snapshot } => self.go(
                    CommitState::Appending { base: snapshot },
                ),
                CatalogReply::TableExists => self.go(CommitState::Loading { table_known: true }),
                CatalogReply::Failed => self.fail(CatalogFault::Rejected),
                _ => self.fail(CatalogFault::UnexpectedReply),
            },
            CommitState::Appending { .. } => match reply {
                CatalogReply::Appended { snapshot } => self.go(CommitState::Committed { snapshot }),
                CatalogReply::Conflict => if self.retries_left > 0 {
                    CommitAttempt {
                        state: CommitState::Loading { table_known: true },
                        retries_left: self.retries_left - 1,
                    }
                } else {
                    self.fail(CatalogFault::ConflictsExhausted)
                },
                CatalogReply::Failed => self.fail(CatalogFault::Rejected),
                _ => self.fail(CatalogFault::UnexpectedReply),
            },
            CommitState::Committed { .. } => *self,
            CommitState::Failed { .. } => *self,
        }
    }

    /// The result of the commit, once it has ended.
    pub fn outcome(&self) -> (outcome: Option<Result<u64, PipelineError>>)
        ensures
            outcome == self.outcome_spec(),
            outcome is Some <==> self.ended(),
    {
        match self.state {
            CommitState::Committed { snapshot } => Some(Ok(snapshot)),
            CommitState::Failed { fault } => Some(Err(PipelineError::Catalog(fault))),
            _ => None,
        }
    }
}

/// Every reply brings a running commit closer to its end: the bound on the
/// requests still to send goes down. A commit therefore sends at most five
/// requests and two more for each retry it was started with.
pub proof fn every_reply_makes_progress(attempt: CommitAttempt, reply: CatalogReply)
    requires
        !attempt.ended(),
    ensures
        attempt.next(reply).requests_left() < attempt.requests_left(),
        CommitAttempt::initial(attempt.retries_left).requests_left() == 5 + 2 * attempt.retries_left,
{
}

/// The place of a phase in the order in which a table passes through them.
pub open spec fn phase_rank(phase: CommitPhase) -> nat {
    match phase {
        CommitPhase::Absent => 0,
        CommitPhase::NamespaceEnsured => 1,
        CommitPhase::TableEnsured => 2,
        CommitPhase::Committed => 3,
    }
}

/// No reply takes a commit that goes on back to an earlier phase.
pub proof fn phases_only_advance(attempt: CommitAttempt, reply: CatalogReply)
    requires
        !(attempt.next(reply).state is Failed),
    ensures
        phase_rank(attempt.phase_spec()) <= phase_rank(attempt.next(reply).phase_spec()),
{
}

/// A table that is found is appended to at once: neither the namespace nor
/// the table is created again.
pub proof fn found_table_skips_creation(max_retries: u32, snapshot: u64)
    ensures
        CommitAttempt::initial(max_retries).request_spec() == Some(CatalogRequest::LoadTable),
        CommitAttempt::initial(max_retries).next(
            CatalogReply::TableFound { snapshot },
        ).request_spec() == Some(CatalogRequest::AppendFile { base: snapshot }),
{
}

/// A table that is missing gets its namespace first, then the table, then
/// the append, in this order; a namespace that exists already is as good as
/// one just created.
pub proof fn missing_table_is_created_in_order(max_retries: u32, namespace_existed: bool, first: u64)
    ensures
        ({
            let asked_namespace = CommitAttempt::initial(max_retries).next(
                CatalogReply::TableMissing,
            );
            let asked_table = asked_namespace.next(
                if namespace_existed {
                    CatalogReply::NamespaceExists
                } else {
                    CatalogReply::NamespaceCreated
                },
            );
            let asked_append = asked_table.next(CatalogReply::TableCreated { snapshot: first });
            &&& asked_namespace.request_spec() == Some(CatalogRequest::CreateNamespace)
            &&& asked_table.request_spec() == Some(CatalogRequest::CreateTable)
            &&& asked_append.request_spec() == Some(CatalogRequest::AppendFile { base: first })
        }),
{
}

/// A conflict is answered by a fresh load of the table while retries are
/// left, and is fatal when none is.
pub proof fn conflicts_retry_with_fresh_state(attempt: CommitAttempt)
    requires
        attempt.state is Appending,
    ensures
        attempt.retries_left > 0 ==> attempt.next(CatalogReply::Conflict).request_spec() == Some(
            CatalogRequest::LoadTable,
        ) && attempt.next(CatalogReply::Conflict).retries_left == attempt.retries_left - 1,
        attempt.retries_left == 0 ==> attempt.next(CatalogReply::Conflict).outcome_spec() == Some(
            Err::<u64, PipelineError>(PipelineError::Catalog(CatalogFault::ConflictsExhausted)),
        ),
{
}

} // verus!
