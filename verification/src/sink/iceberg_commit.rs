//! The table commit coordinator: registers a written file with its table,
//! creating the namespace and the table on first use.
//!
//! The coordinator follows the commit protocol against the catalog it holds
//! in memory. A pipeline that commits to a remote catalog runs the same
//! protocol and sends each request over the wire.

use vstd::prelude::*;
use crate::error::PipelineError;
use crate::schema::{collection_of, schema_for, schema_of, EntityType};
use crate::sink::catalog::{
    registered_keeps_distinct, snapshot_of, with_file_keeps_wf, with_namespace_keeps_wf,
    with_table_keeps_wf, CatalogModel, CommitTarget, DataFile, DataFileModel, MemoryCatalog,
};
use crate::sink::commit_protocol::{
    every_reply_makes_progress, CatalogRequest, CommitAttempt, CommitState, DEFAULT_COMMIT_RETRIES,
};

verus! {

/// The commit coordinator of one catalog.
#[derive(Debug)]
pub struct IcebergCommit {
    catalog: MemoryCatalog,
    catalog_uri: String,
    max_retries: u32,
    journal: Vec<CatalogRequest>,
}

/// The requests that a commit sends to a catalog in which no one else
/// writes: load and append where the table exists; load, create the
/// namespace, create the table and append where it does not.
pub open spec fn commit_requests(catalog: CatalogModel, namespace: Seq<char>, name: Seq<char>) -> Seq<
    CatalogRequest,
> {
    if catalog.has_table(namespace, name) {
        seq![
            CatalogRequest::LoadTable,
            CatalogRequest::AppendFile { base: snapshot_of(catalog.files_of(namespace, name)) },
        ]
    } else {
        seq![
            CatalogRequest::LoadTable,
            CatalogRequest::CreateNamespace,
            CatalogRequest::CreateTable,
            CatalogRequest::AppendFile { base: 0 },
        ]
    }
}

/// The catalog once the table is sure to exist.
pub open spec fn ensured(catalog: CatalogModel, target: &CommitTarget) -> CatalogModel {
    if catalog.has_table(target.namespace@, target.table@) {
        catalog
    } else {
        catalog.with_namespace(target.namespace@).with_table(
            target.namespace@,
            target.table@,
            crate::schema::column_models(target.schema@),
        )
    }
}

/// What holds between the state of a commit, the catalog as it is, the
/// catalog as the commit found it, and the requests sent so far.
pub open spec fn on_track(
    attempt: CommitAttempt,
    now: CatalogModel,
    start: CatalogModel,
    target: &CommitTarget,
    sent: Seq<CatalogRequest>,
) -> bool {
    let namespace = target.namespace@;
    let name = target.table@;
    let schema = crate::schema::column_models(target.schema@);
    let planned = commit_requests(start, namespace, name);
    match attempt.state {
        CommitState::Loading { table_known } => !table_known && now == start && sent
            == planned.take(0),
        CommitState::EnsuringNamespace => !start.has_table(namespace, name) && now == start && sent
            == planned.take(1),
        CommitState::CreatingTable => !start.has_table(namespace, name) && now
            == start.with_namespace(namespace) && sent == planned.take(2),
        CommitState::Appending { base } => now == ensured(start, target) && now.has_table(
            namespace,
            name,
        ) && base == snapshot_of(now.files_of(namespace, name)) && sent == planned.take(
            planned.len() - 1,
        ) && planned.last() == (CatalogRequest::AppendFile { base }),
        CommitState::Committed { snapshot } => now == start.committed(
            namespace,
            name,
            schema,
            target.file@,
        ) && snapshot == snapshot_of(now.files_of(namespace, name)) && sent == planned,
        CommitState::Failed { .. } => false,
    }
}

impl IcebergCommit {
    /// The catalog as it stands.
    pub closed spec fn catalog_model(&self) -> CatalogModel {
        self.catalog@
    }

    /// The requests that the last commit sent, in order.
    pub closed spec fn journal_model(&self) -> Seq<CatalogRequest> {
        self.journal@
    }

    /// The bound on the retries of one commit.
    pub closed spec fn retries(&self) -> u32 {
        self.max_retries
    }

    /// The endpoint that the coordinator was made for.
    pub closed spec fn uri_spec(&self) -> Seq<char> {
        self.catalog_uri@
    }

    /// A coordinator with an empty catalog behind it.
    pub fn new(catalog_uri: &str) -> (made: IcebergCommit)
        ensures
            made.catalog_model() == CatalogModel::empty(),
            made.journal_model() == Seq::<CatalogRequest>::empty(),
            made.retries() == DEFAULT_COMMIT_RETRIES,
            made.uri_spec() == catalog_uri@,
    {
        IcebergCommit {
            catalog: MemoryCatalog::new(),
            catalog_uri: catalog_uri.to_owned(),
            max_retries: DEFAULT_COMMIT_RETRIES,
            journal: Vec::new(),
        }
    }

    /// The same coordinator with another bound on the retries of one commit.
    pub fn with_retries(self, max_retries: u32) -> (made: IcebergCommit)
        ensures
            made.catalog_model() == self.catalog_model(),
            made.journal_model() == self.journal_model(),
            made.retries() == max_retries,
            made.uri_spec() == self.uri_spec(),
    {
        IcebergCommit {
            catalog: self.catalog,
            catalog_uri: self.catalog_uri,
            max_retries,
            journal: self.journal,
        }
    }

    /// The catalog behind this coordinator.
    pub fn catalog(&self) -> (catalog: &MemoryCatalog)
        ensures
            catalog@ == self.catalog_model(),
    {
        &self.catalog
    }

    /// The endpoint that this coordinator was made for.
    pub fn catalog_uri(&self) -> (uri: &str)
        ensures
            uri@ == self.uri_spec(),
    {
        self.catalog_uri.as_str()
    }

    /// The requests that the last commit sent, in order.
    pub fn last_requests(&self) -> (requests: &Vec<CatalogRequest>)
        ensures
            requests@ == self.journal_model(),
    {
        &self.journal
    }

    /// Registers a written file with the table of an entity and returns the
    /// snapshot that holds it.
    ///
    /// A table name that belongs to no entity is refused before the catalog
    /// is asked anything. Otherwise the commit goes through: the namespace
    /// and the table are created if the table is not there, with the entity's
    /// schema, and the table then registers the union of its files and the
    /// new one. Registering a file a second time changes nothing.
    pub fn append_parquet(
        &mut self,
        ns: &str,
        table: &str,
        gcs_path: &str,
        file_len: i64,
        row_count: i64,
    ) -> (out: Result<u64, PipelineError>)
        ensures
            final(self).retries() == old(self).retries(),
            final(self).uri_spec() == old(self).uri_spec(),
            out is Err <==> forall|entity: EntityType| collection_of(entity) != table@,
            out matches Err(e) ==> e == PipelineError::UnknownEntity && final(self).catalog_model()
                == old(self).catalog_model() && final(self).journal_model() == old(
                self,
            ).journal_model(),
            out matches Ok(snapshot) ==> exists|entity: EntityType|
                {
                    &&& collection_of(entity) == table@
                    &&& final(self).catalog_model() == old(self).catalog_model().committed(
                        ns@,
                        table@,
                        schema_of(entity),
                        DataFileModel { path: gcs_path@, len_bytes: file_len, row_count },
                    )
                    &&& snapshot == snapshot_of(final(self).catalog_model().files_of(ns@, table@))
                    &&& final(self).journal_model() == commit_requests(
                        old(self).catalog_model(),
                        ns@,
                        table@,
                    )
                },
    {
        let entity = match EntityType::from_collection(table) {
            Ok(entity) => entity,
            Err(e) => {
                return Err(e);
            },
        };
        let target = CommitTarget {
            namespace: ns.to_owned(),
            table: table.to_owned(),
            schema: schema_for(entity),
            file: DataFile { path: gcs_path.to_owned(), len_bytes: file_len, row_count },
        };
        let ghost start = self.catalog@;
        let ghost planned = commit_requests(start, ns@, table@);
        let mut attempt = CommitAttempt::start(self.max_retries);
        let mut sent: Vec<CatalogRequest> = Vec::new();
        assert(sent@ =~= planned.take(0));
        proof {
            use_type_invariant(&self.catalog);
        }
        let mut request = attempt.request();
        while request.is_some()
            invariant
                self.catalog@.wf(),
                start.wf(),
                self.max_retries == old(self).max_retries,
                self.catalog_uri == old(self).catalog_uri,
                target.namespace@ == ns@,
                target.table@ == table@,
                target.file@ == (DataFileModel { path: gcs_path@, len_bytes: file_len, row_count }),
                crate::schema::column_models(target.schema@) == schema_of(entity),
                planned == commit_requests(start, ns@, table@),
                on_track(attempt, self.catalog@, start, &target, sent@),
                request == attempt.request_spec(),
            decreases attempt.requests_left(),
        {
            let asked = request.unwrap();
            let ghost before = self.catalog@;
            let reply = self.catalog.answer(asked, &target);
            proof {
                every_reply_makes_progress(attempt, reply);
                with_namespace_keeps_wf(start, ns@);
                with_table_keeps_wf(start.with_namespace(ns@), ns@, table@, schema_of(entity));
                with_file_keeps_wf(before, ns@, table@, target.file@);
                registered_keeps_distinct(before.files_of(ns@, table@), target.file@);
            }
            sent.push(asked);
            attempt = attempt.advance(reply);
            request = attempt.request();
            proof {
                assert(sent@ =~= planned.take(sent@.len() as int));
                assert(planned.take(planned.len() as int) =~= planned);
            }
        }
        self.journal = sent;
        match attempt.state {
            CommitState::Committed { snapshot } => Ok(snapshot),
            _ => vstd::pervasive::unreached(),
        }
    }
}

} // verus!
